//! The inference dispatcher's per-window work: concatenate the texts of
//! the transcribed segments, format one log line per segment, and decide
//! whether the window's text contains the configured trigger phrase
//! (case-insensitively). Running the speech model itself is the caller's
//! job; this module takes the segments it produced.

use vstd::prelude::*;
use crate::numfmt::{dec_int, i64_to_string};

verus! {

/// One unit of transcribed text for a window, with the model's reported
/// start and end time bounds (centiseconds from the window's start).
pub struct Segment {
    pub text: String,
    pub start_time: i64,
    pub end_time: i64,
}

/// The texts of all segments, concatenated in order.
pub open spec fn concat_texts(segs: Seq<Segment>) -> Seq<char>
    decreases segs.len(),
{
    if segs.len() == 0 {
        Seq::empty()
    } else {
        concat_texts(segs.drop_last()) + segs.last().text@
    }
}

/// The needle's characters occur contiguously somewhere in the haystack.
pub open spec fn seq_contains(hay: Seq<char>, needle: Seq<char>) -> bool {
    exists|i: int|
        0 <= i && i + needle.len() <= hay.len() && #[trigger] hay.subrange(i, i + needle.len())
            == needle
}

/// What `str::to_lowercase` returns for a given character sequence; it
/// depends on the characters alone.
pub uninterp spec fn lower_of(s: Seq<char>) -> Seq<char>;

/// Relies on `str::to_lowercase`: the lowercase equivalent of the slice,
/// a function of its characters alone; an empty slice stays empty.
#[verifier::external_body]
fn lowercase(s: &str) -> (r: String)
    ensures
        r@ == lower_of(s@),
        s@.len() == 0 ==> r@.len() == 0,
{
    s.to_lowercase()
}

/// Relies on `str::contains` with a `&str` pattern: true exactly when
/// the needle's characters occur contiguously in the haystack.
#[verifier::external_body]
fn contains_str(hay: &str, needle: &str) -> (r: bool)
    ensures
        r == seq_contains(hay@, needle@),
{
    hay.contains(needle)
}

/// Relies on `chrono::Utc::now` and its `Debug` rendering for the
/// wall-clock timestamp written into log lines. Nothing is promised of
/// the value: it depends on the time of the call.
#[verifier::external_body]
fn now_timestamp() -> (r: String) {
    format!("{:?}", chrono::offset::Utc::now())
}

/// Whether `text` contains `phrase` as a case-insensitive substring.
pub fn phrase_matches(text: &str, phrase: &str) -> (r: bool)
    ensures
        r == seq_contains(lower_of(text@), lower_of(phrase@)),
{
    let lt = lowercase(text);
    let lp = lowercase(phrase);
    contains_str(lt.as_str(), lp.as_str())
}

/// Matching sees only the lowercase forms: texts and phrases whose
/// lowercase forms agree match identically, however they were cased.
pub proof fn lemma_matching_is_case_insensitive(
    t1: Seq<char>,
    t2: Seq<char>,
    p1: Seq<char>,
    p2: Seq<char>,
)
    requires
        lower_of(t1) == lower_of(t2),
        lower_of(p1) == lower_of(p2),
    ensures
        seq_contains(lower_of(t1), lower_of(p1)) == seq_contains(lower_of(t2), lower_of(p2)),
{
}

/// Matching is substring containment, not equality: a phrase embedded in
/// any surrounding text is still found.
pub proof fn lemma_surrounded_phrase_matches(pre: Seq<char>, phrase: Seq<char>, post: Seq<char>)
    ensures
        seq_contains(pre + phrase + post, phrase),
{
    let h = pre + phrase + post;
    let i = pre.len() as int;
    assert(h.subrange(i, i + phrase.len()) =~= phrase);
}

/// One log line for one segment: `[<timestamp> | <start> - <end>]: <text>`.
pub open spec fn spec_log_line(ts: Seq<char>, t0: int, t1: int, text: Seq<char>) -> Seq<char> {
    "["@ + ts + " | "@ + dec_int(t0) + " - "@ + dec_int(t1) + "]: "@ + text
}

/// Render one log line for one segment.
pub fn format_log_line(ts: &str, t0: i64, t1: i64, text: &str) -> (line: String)
    ensures
        line@ == spec_log_line(ts@, t0 as int, t1 as int, text@),
{
    let mut s = String::from_str("[");
    s.append(ts);
    s.append(" | ");
    let d0 = i64_to_string(t0);
    s.append(d0.as_str());
    s.append(" - ");
    let d1 = i64_to_string(t1);
    s.append(d1.as_str());
    s.append("]: ");
    s.append(text);
    proof {
        assert(s@ =~= spec_log_line(ts@, t0 as int, t1 as int, text@));
    }
    s
}

/// The line renders the segment's times and text around some wall-clock
/// timestamp.
pub open spec fn line_formats_segment(line: Seq<char>, seg: Segment) -> bool {
    exists|ts: Seq<char>|
        line == spec_log_line(ts, seg.start_time as int, seg.end_time as int, seg.text@)
}

/// Everything the dispatcher decided for one window.
pub struct DispatchOutcome {
    /// One formatted line per segment when logging is enabled, in
    /// segment order; empty otherwise.
    pub log_lines: Vec<String>,
    /// The segment texts concatenated in order.
    pub transcript: String,
    /// Whether the trigger action is to be invoked.
    pub fired: bool,
}

/// The dispatcher's work for one window, given the segments the speech
/// model produced for it: format one log line per segment (when logging
/// is enabled), concatenate the texts, and test the concatenation for
/// the trigger phrase, case-insensitively.
pub fn dispatch_window(segments: &Vec<Segment>, phrase: &str, logging: bool) -> (out:
    DispatchOutcome)
    ensures
        out.transcript@ == concat_texts(segments@),
        out.fired == seq_contains(lower_of(concat_texts(segments@)), lower_of(phrase@)),
        out.log_lines@.len() == (if logging {
            segments@.len()
        } else {
            0
        }),
        logging ==> forall|i: int|
            0 <= i < segments@.len() ==> line_formats_segment(
                #[trigger] out.log_lines@[i]@,
                segments@[i],
            ),
{
    let mut log_lines: Vec<String> = Vec::new();
    let mut transcript = String::new();
    let mut j: usize = 0;
    while j < segments.len()
        invariant
            j <= segments@.len(),
            transcript@ == concat_texts(segments@.take(j as int)),
            log_lines@.len() == (if logging {
                j as nat
            } else {
                0
            }),
            logging ==> forall|i: int|
                0 <= i < j ==> line_formats_segment(#[trigger] log_lines@[i]@, segments@[i]),
        decreases segments@.len() - j,
    {
        let seg = &segments[j];
        if logging {
            let ts = now_timestamp();
            let line = format_log_line(ts.as_str(), seg.start_time, seg.end_time, seg.text.as_str());
            proof {
                assert(line@ == spec_log_line(
                    ts@,
                    seg.start_time as int,
                    seg.end_time as int,
                    seg.text@,
                ));
            }
            log_lines.push(line);
        }
        transcript.append(seg.text.as_str());
        proof {
            assert(segments@.take(j as int + 1).drop_last() =~= segments@.take(j as int));
            assert(segments@.take(j as int + 1).last() == segments@[j as int]);
        }
        j = j + 1;
    }
    proof {
        assert(segments@.take(segments@.len() as int) =~= segments@);
    }
    let fired = phrase_matches(transcript.as_str(), phrase);
    DispatchOutcome { log_lines, transcript, fired }
}

} // verus!
