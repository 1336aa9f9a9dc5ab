//! The window accumulator: a fixed-capacity ring of the most recent mono
//! samples plus a counter of samples appended since the last emission.
//! Once that counter reaches the window length, a snapshot of the whole
//! ring (the most recent `window_len` samples, oldest first) is emitted
//! and the counter resets; a shorter remainder is never emitted.

use vstd::prelude::*;
use ringbuffer::AllocRingBuffer;
use crate::ring::{ring_contents, ring_bound, ring_new, ring_push, ring_to_vec};

verus! {

/// The suffix of `h` that a ring of capacity `cap` holds after every
/// element of `h` has been pushed in order: all of `h` while it fits,
/// otherwise its last `cap` elements.
pub open spec fn ring_suffix(h: Seq<u32>, cap: nat) -> Seq<u32> {
    if h.len() <= cap {
        h
    } else {
        h.skip(h.len() - cap)
    }
}

/// Pushing one element moves the held suffix along by at most one:
/// it grows while the ring is not yet full and slides once it is.
proof fn lemma_ring_suffix_push(h: Seq<u32>, cap: nat, v: u32)
    requires
        cap >= 1,
    ensures
        ring_suffix(h, cap).len() < cap ==> ring_suffix(h.push(v), cap)
            == ring_suffix(h, cap).push(v),
        ring_suffix(h, cap).len() >= cap ==> ring_suffix(h.push(v), cap)
            == ring_suffix(h, cap).drop_first().push(v),
{
    if h.len() < cap {
        assert(ring_suffix(h.push(v), cap) =~= ring_suffix(h, cap).push(v));
    } else {
        assert(ring_suffix(h, cap).len() == cap);
        assert(ring_suffix(h.push(v), cap) =~= ring_suffix(h, cap).drop_first().push(v));
    }
}

/// The counter value after one append-then-check step: it resets to zero
/// exactly when the fresh samples reach the window length `w`.
pub open spec fn step_pending(pending: nat, chunk_len: nat, w: nat) -> nat {
    if pending + chunk_len >= w {
        0
    } else {
        pending + chunk_len
    }
}

/// Whether one append-then-check step emits a window.
pub open spec fn step_emits(pending: nat, chunk_len: nat, w: nat) -> bool {
    pending + chunk_len >= w
}

/// Total number of mono samples over a sequence of chunks.
pub open spec fn mono_total(chunks: Seq<Seq<u32>>) -> nat
    decreases chunks.len(),
{
    if chunks.len() == 0 {
        0
    } else {
        chunks[0].len() + mono_total(chunks.drop_first())
    }
}

/// Number of windows a run over `chunks` emits, starting with `pending`
/// fresh samples already counted: one emission each time the fresh count
/// crosses the window length `w`, resetting afterwards.
pub open spec fn run_emissions(chunks: Seq<Seq<u32>>, w: nat, pending: nat) -> nat
    decreases chunks.len(),
{
    if chunks.len() == 0 {
        0
    } else {
        let after = step_pending(pending, chunks[0].len(), w);
        if step_emits(pending, chunks[0].len(), w) {
            1 + run_emissions(chunks.drop_first(), w, after)
        } else {
            run_emissions(chunks.drop_first(), w, after)
        }
    }
}

/// A run whose total sample count stays below the window length never
/// emits, from any starting count that keeps the sum below the length.
pub proof fn lemma_below_threshold_never_emits(chunks: Seq<Seq<u32>>, w: nat, pending: nat)
    requires
        pending + mono_total(chunks) < w,
    ensures
        run_emissions(chunks, w, pending) == 0,
    decreases chunks.len(),
{
    if chunks.len() > 0 {
        lemma_below_threshold_never_emits(chunks.drop_first(), w, pending + chunks[0].len());
    }
}

/// Every emission consumes at least `w` fresh samples, so a run emits at
/// most one window per `w` samples of input.
pub proof fn lemma_emissions_bounded(chunks: Seq<Seq<u32>>, w: nat, pending: nat)
    requires
        w >= 1,
    ensures
        run_emissions(chunks, w, pending) * w <= pending + mono_total(chunks),
    decreases chunks.len(),
{
    if chunks.len() > 0 {
        let k = chunks[0].len();
        let after = step_pending(pending, k, w);
        lemma_emissions_bounded(chunks.drop_first(), w, after);
        let r = run_emissions(chunks.drop_first(), w, after);
        assert(mono_total(chunks) == k + mono_total(chunks.drop_first()));
        if step_emits(pending, k, w) {
            assert(run_emissions(chunks, w, pending) == 1 + r);
            assert((1 + r) * w == w + r * w) by (nonlinear_arith);
            assert(run_emissions(chunks, w, pending) * w == (1 + r) * w);
        }
    } else {
        assert(run_emissions(chunks, w, pending) == 0);
        assert(run_emissions(chunks, w, pending) * w == 0);
    }
}

/// What one `on_event` call decided: the loop either ran one
/// append-then-check step (possibly emitting a window) or exited.
pub enum AccumulatorStep {
    Ran(Option<Vec<u32>>),
    Exited,
}

/// One message on the accumulator's input queue: a chunk of mono
/// samples, or the queue's closure.
pub enum QueueEvent {
    Chunk(Vec<u32>),
    Closed,
}

pub struct WindowAccumulator {
    ring: AllocRingBuffer<u32>,
    window_len: usize,
    pending_count: usize,
    past: Ghost<Seq<u32>>,
}

impl WindowAccumulator {
    /// Length of the windows this accumulator emits.
    pub closed spec fn window_len(&self) -> nat {
        self.window_len as nat
    }

    /// Samples appended since the last emission (or since creation).
    pub closed spec fn pending(&self) -> nat {
        self.pending_count as nat
    }

    /// Every mono sample ever appended, in arrival order.
    pub closed spec fn history(&self) -> Seq<u32> {
        self.past@
    }

    pub closed spec fn wf(&self) -> bool {
        &&& self.window_len >= 1
        &&& ring_bound(self.ring) == self.window_len as nat
        &&& ring_contents(self.ring) == ring_suffix(self.past@, self.window_len as nat)
        &&& self.pending_count as nat <= self.past@.len()
    }

    /// Runtime view of the fresh-sample counter, so that an unverified
    /// caller can test `append`'s precondition before calling it.
    pub fn pending_len(&self) -> (n: usize)
        ensures
            n as nat == self.pending(),
    {
        self.pending_count
    }

    pub fn new(window_len: usize) -> (acc: WindowAccumulator)
        requires
            window_len >= 1,
        ensures
            acc.wf(),
            acc.window_len() == window_len as nat,
            acc.pending() == 0,
            acc.history() == Seq::<u32>::empty(),
    {
        WindowAccumulator {
            ring: ring_new(window_len),
            window_len,
            pending_count: 0,
            past: Ghost(Seq::empty()),
        }
    }

    /// Push every sample of `chunk` into the ring (evicting the oldest
    /// once full) and count them as fresh.
    pub fn append(&mut self, chunk: &Vec<u32>)
        requires
            old(self).wf(),
            old(self).pending() + chunk@.len() <= usize::MAX,
        ensures
            final(self).wf(),
            final(self).window_len() == old(self).window_len(),
            final(self).pending() == old(self).pending() + chunk@.len(),
            final(self).history() == old(self).history() + chunk@,
    {
        let ghost h0 = self.past@;
        let mut i: usize = 0;
        while i < chunk.len()
            invariant
                self.wf(),
                i <= chunk@.len(),
                self.window_len == old(self).window_len,
                self.pending_count == old(self).pending_count,
                self.past@ == h0 + chunk@.take(i as int),
            decreases chunk@.len() - i,
        {
            let v = chunk[i];
            proof {
                lemma_ring_suffix_push(self.past@, self.window_len as nat, v);
            }
            ring_push(&mut self.ring, v);
            proof {
                self.past@ = self.past@.push(v);
                assert(h0 + chunk@.take(i as int + 1) =~= (h0 + chunk@.take(i as int)).push(
                    chunk@[i as int],
                ));
            }
            i = i + 1;
        }
        proof {
            assert(h0 + chunk@.take(chunk@.len() as int) =~= h0 + chunk@);
        }
        self.pending_count = self.pending_count + chunk.len();
    }

    /// Emit a snapshot of the whole ring — the most recent `window_len`
    /// samples, oldest first — exactly when at least `window_len` fresh
    /// samples have arrived since the last emission; reset the count.
    pub fn maybe_emit(&mut self) -> (w: Option<Vec<u32>>)
        requires
            old(self).wf(),
        ensures
            final(self).wf(),
            final(self).window_len() == old(self).window_len(),
            final(self).history() == old(self).history(),
            w is Some <==> old(self).pending() >= old(self).window_len(),
            w is Some ==> {
                &&& final(self).pending() == 0
                &&& w->Some_0@ == ring_suffix(final(self).history(), final(self).window_len())
                &&& w->Some_0@.len() == final(self).window_len()
            },
            w is None ==> *final(self) == *old(self),
    {
        if self.pending_count >= self.window_len {
            self.pending_count = 0;
            Some(ring_to_vec(&self.ring))
        } else {
            None
        }
    }

    /// One full step of the accumulator loop body: append the chunk, then
    /// emit if the fresh count has reached the window length.
    pub fn step(&mut self, chunk: &Vec<u32>) -> (w: Option<Vec<u32>>)
        requires
            old(self).wf(),
            old(self).pending() + chunk@.len() <= usize::MAX,
        ensures
            final(self).wf(),
            final(self).window_len() == old(self).window_len(),
            final(self).history() == old(self).history() + chunk@,
            final(self).pending() == step_pending(old(self).pending(), chunk@.len(), old(
                self,
            ).window_len()),
            w is Some <==> step_emits(old(self).pending(), chunk@.len(), old(self).window_len()),
            w is Some ==> {
                &&& w->Some_0@ == ring_suffix(final(self).history(), final(self).window_len())
                &&& w->Some_0@.len() == final(self).window_len()
            },
    {
        self.append(chunk);
        self.maybe_emit()
    }

    /// The accumulator loop's reaction to one queue event: a chunk runs
    /// one step; closure of the queue exits the loop at once, with the
    /// state untouched and any `pending < window_len` remainder discarded
    /// (no partial window is ever emitted).
    pub fn on_event(&mut self, event: &QueueEvent) -> (r: AccumulatorStep)
        requires
            old(self).wf(),
            old(self).pending() + mono_chunk_len(event) <= usize::MAX,
        ensures
            final(self).wf(),
            event is Closed ==> r is Exited && *final(self) == *old(self),
            event is Chunk ==> r is Ran,
            match (event, &r) {
                (QueueEvent::Chunk(c), AccumulatorStep::Ran(w)) => {
                    &&& final(self).window_len() == old(self).window_len()
                    &&& final(self).history() == old(self).history() + c@
                    &&& final(self).pending() == step_pending(old(self).pending(), c@.len(), old(
                        self,
                    ).window_len())
                    &&& (w is Some <==> step_emits(old(self).pending(), c@.len(), old(
                        self,
                    ).window_len()))
                    &&& (w is Some ==> w->Some_0@ == ring_suffix(
                        final(self).history(),
                        final(self).window_len(),
                    ) && w->Some_0@.len() == final(self).window_len())
                },
                (QueueEvent::Closed, AccumulatorStep::Exited) => true,
                _ => false,
            },
    {
        match event {
            QueueEvent::Chunk(c) => AccumulatorStep::Ran(self.step(c)),
            QueueEvent::Closed => AccumulatorStep::Exited,
        }
    }
}

/// Number of samples an event carries: the chunk's length, or zero for
/// queue closure.
pub open spec fn mono_chunk_len(event: &QueueEvent) -> nat {
    match event {
        QueueEvent::Chunk(c) => c@.len(),
        QueueEvent::Closed => 0,
    }
}

/// The sample sequences of a sequence of chunks.
pub open spec fn views_of(chunks: Seq<Vec<u32>>) -> Seq<Seq<u32>> {
    Seq::new(chunks.len(), |i: int| chunks[i]@)
}

/// The accumulator thread's whole run over the chunks its queue
/// delivered, in order: every window emitted along the way — exactly one
/// per crossing of the window length by the fresh-sample count, each of
/// the full window length.
pub fn accumulate_windows(window_len: usize, chunks: &Vec<Vec<u32>>) -> (out: Vec<Vec<u32>>)
    requires
        window_len >= 1,
        forall|i: int|
            0 <= i < chunks@.len() ==> #[trigger] chunks@[i]@.len() <= usize::MAX - window_len,
    ensures
        out@.len() == run_emissions(views_of(chunks@), window_len as nat, 0),
        forall|i: int| 0 <= i < out@.len() ==> #[trigger] out@[i]@.len() == window_len as nat,
{
    let ghost deep = views_of(chunks@);
    let ghost w = window_len as nat;
    let mut acc = WindowAccumulator::new(window_len);
    let mut out: Vec<Vec<u32>> = Vec::new();
    let mut j: usize = 0;
    proof {
        assert(deep.skip(0) =~= deep);
    }
    while j < chunks.len()
        invariant
            j <= chunks@.len(),
            deep == views_of(chunks@),
            w == window_len as nat,
            window_len >= 1,
            forall|i: int|
                0 <= i < chunks@.len() ==> #[trigger] chunks@[i]@.len() <= usize::MAX
                    - window_len,
            acc.wf(),
            acc.window_len() == w,
            acc.pending() < w,
            out@.len() + run_emissions(deep.skip(j as int), w, acc.pending()) == run_emissions(
                deep,
                w,
                0,
            ),
            forall|i: int| 0 <= i < out@.len() ==> #[trigger] out@[i]@.len() == w,
        decreases chunks@.len() - j,
    {
        proof {
            assert(deep.skip(j as int)[0] == chunks@[j as int]@);
            assert(deep.skip(j as int).drop_first() =~= deep.skip(j as int + 1));
        }
        let emitted = acc.step(&chunks[j]);
        if let Some(window) = emitted {
            out.push(window);
        }
        j = j + 1;
    }
    proof {
        assert(deep.skip(chunks@.len() as int) =~= Seq::<Seq<u32>>::empty());
    }
    out
}

} // verus!
