//! Rendering and selection of capture devices. Enumerating the devices
//! themselves is the caller's job; these functions take the enumerated
//! names in order.

use vstd::prelude::*;
use crate::numfmt::{dec_int, u64_to_string};

verus! {

/// One line of the listing: a tab, the index, a dot, the name, a newline.
pub open spec fn spec_device_line(idx: int, name: Seq<char>) -> Seq<char> {
    "\t "@ + dec_int(idx) + ". "@ + name + "\n"@
}

/// All listing lines for the given names, in order.
pub open spec fn spec_device_lines(names: Seq<String>) -> Seq<char>
    decreases names.len(),
{
    if names.len() == 0 {
        Seq::empty()
    } else {
        spec_device_lines(names.drop_last()) + spec_device_line(
            names.len() - 1,
            names.last()@,
        )
    }
}

/// The whole listing: a header, then one indexed line per device name.
pub open spec fn spec_device_listing(names: Seq<String>) -> Seq<char> {
    "Devices:\n"@ + spec_device_lines(names)
}

/// Render the device listing for the given names.
pub fn format_device_listing(names: &Vec<String>) -> (out: String)
    requires
        names@.len() <= u64::MAX,
    ensures
        out@ == spec_device_listing(names@),
{
    let mut s = String::from_str("Devices:\n");
    let mut i: usize = 0;
    while i < names.len()
        invariant
            i <= names@.len(),
            names@.len() <= u64::MAX,
            s@ == "Devices:\n"@ + spec_device_lines(names@.take(i as int)),
        decreases names@.len() - i,
    {
        s.append("\t ");
        let idx = u64_to_string(i as u64);
        s.append(idx.as_str());
        s.append(". ");
        s.append(names[i].as_str());
        s.append("\n");
        proof {
            assert(names@.take(i as int + 1).drop_last() =~= names@.take(i as int));
            assert(names@.take(i as int + 1).last() == names@[i as int]);
            assert(s@ =~= "Devices:\n"@ + spec_device_lines(names@.take(i as int + 1)));
        }
        i = i + 1;
    }
    proof {
        assert(names@.take(names@.len() as int) =~= names@);
    }
    s
}

proof fn lemma_lines_depend_on_names_alone(a: Seq<String>, b: Seq<String>)
    requires
        a.len() == b.len(),
        forall|i: int| 0 <= i < a.len() ==> a[i]@ == b[i]@,
    ensures
        spec_device_lines(a) == spec_device_lines(b),
    decreases a.len(),
{
    if a.len() > 0 {
        assert(forall|i: int| 0 <= i < a.len() - 1 ==> a.drop_last()[i]@ == b.drop_last()[i]@);
        lemma_lines_depend_on_names_alone(a.drop_last(), b.drop_last());
        assert(a.last()@ == b.last()@);
    }
}

/// The listing is a function of the device names alone: two enumerations
/// that yield the same names in the same order render identically.
pub proof fn lemma_listing_depends_on_names_alone(a: Seq<String>, b: Seq<String>)
    requires
        a.len() == b.len(),
        forall|i: int| 0 <= i < a.len() ==> a[i]@ == b[i]@,
    ensures
        spec_device_listing(a) == spec_device_listing(b),
{
    lemma_lines_depend_on_names_alone(a, b);
}

/// Index of the first device whose name equals `want`, if any.
pub fn find_device_index(names: &Vec<String>, want: &str) -> (r: Option<usize>)
    ensures
        match r {
            Some(i) => {
                &&& i < names@.len()
                &&& names@[i as int]@ == want@
                &&& forall|j: int| 0 <= j < i ==> names@[j]@ != want@
            },
            None => forall|j: int| 0 <= j < names@.len() ==> names@[j]@ != want@,
        },
{
    let w = String::from_str(want);
    let mut i: usize = 0;
    while i < names.len()
        invariant
            i <= names@.len(),
            w@ == want@,
            forall|j: int| 0 <= j < i ==> names@[j]@ != want@,
        decreases names@.len() - i,
    {
        if names[i] == w {
            return Some(i);
        }
        i = i + 1;
    }
    None
}

} // verus!
