//! Windowed moving average of raw analog samples.
use vstd::prelude::*;

verus! {

/// Number of raw samples averaged into one smoothed value.
pub const WINDOW: usize = 16;

/// Divisor that rescales the mean of a window (a 12-bit reading) to display
/// magnitude.
pub const SCALE: u64 = 16;

/// Sum of a sequence of samples.
pub open spec fn sum(s: Seq<u16>) -> int
    decreases s.len(),
{
    if s.len() == 0 {
        0
    } else {
        sum(s.drop_last()) + s.last()
    }
}

/// The smoothed value of a full window: its mean, divided by `SCALE`, both
/// divisions truncating.
pub open spec fn smoothed(window: Seq<u16>) -> int {
    sum(window) / (WINDOW as int) / (SCALE as int)
}

/// One sample pushed onto the unfinished window `pending`: the window that
/// remains, and the smoothed value where the sample completed a window.
pub open spec fn step(pending: Seq<u16>, raw: u16) -> (Seq<u16>, Option<u16>) {
    let window = pending.push(raw);
    if window.len() < WINDOW {
        (window, None)
    } else {
        (Seq::<u16>::empty(), Some(smoothed(window) as u16))
    }
}

/// A stream of samples pushed one by one onto `pending`: the window that
/// remains, and what each push yielded.
pub open spec fn run(pending: Seq<u16>, samples: Seq<u16>) -> (Seq<u16>, Seq<Option<u16>>)
    decreases samples.len(),
{
    if samples.len() == 0 {
        (pending, Seq::<Option<u16>>::empty())
    } else {
        let (rest, outs) = run(pending, samples.drop_last());
        let (next, out) = step(rest, samples.last());
        (next, outs.push(out))
    }
}

proof fn lemma_sum_bound(s: Seq<u16>)
    ensures
        0 <= sum(s) <= s.len() * 0xffff,
    decreases s.len(),
{
    if s.len() > 0 {
        lemma_sum_bound(s.drop_last());
    }
}

/// A fixed-capacity ring of raw samples and its write cursor.
pub struct Smoother {
    buf: [u16; 16],
    pos: usize,
}

impl View for Smoother {
    /// The samples of the current, unfinished window, oldest first.
    type V = Seq<u16>;

    closed spec fn view(&self) -> Seq<u16> {
        self.buf@.subrange(0, self.pos as int)
    }
}

impl Smoother {
    /// The cursor stays inside the buffer.
    pub closed spec fn wf(&self) -> bool {
        self.pos < WINDOW
    }

    /// An empty window.
    pub fn new() -> (res: Smoother)
        ensures
            res.wf(),
            res@ == Seq::<u16>::empty(),
    {
        let res = Smoother { buf: [0u16; 16], pos: 0 };
        assert(res@ =~= Seq::<u16>::empty());
        res
    }

    /// Adds one raw sample. The sample that completes a window yields that
    /// window's smoothed value, and the next sample starts a fresh window;
    /// any other sample yields nothing.
    pub fn push_sample(&mut self, raw: u16) -> (res: Option<u16>)
        requires
            old(self).wf(),
        ensures
            final(self).wf(),
            (final(self)@, res) == step(old(self)@, raw),
            res matches Some(v) ==> v < 0x1000,
    {
        let ghost window = self@.push(raw);
        self.buf[self.pos] = raw;
        self.pos = self.pos + 1;
        assert(self@ =~= window);
        if self.pos < WINDOW {
            return None;
        }
        let mut total: u64 = 0;
        let mut i: usize = 0;
        while i < WINDOW
            invariant
                i <= WINDOW,
                self.pos == WINDOW,
                self@ == window,
                total == sum(window.subrange(0, i as int)),
                total <= i * 0xffff,
            decreases WINDOW - i,
        {
            assert(window.subrange(0, i + 1).drop_last() =~= window.subrange(0, i as int));
            total = total + self.buf[i] as u64;
            i = i + 1;
        }
        assert(window.subrange(0, WINDOW as int) =~= window);
        proof {
            lemma_sum_bound(window);
        }
        let value = total / (WINDOW as u64) / SCALE;
        assert(value < 0x1000) by (nonlinear_arith)
            requires
                value == total / 16 / 16,
                total <= 16 * 0xffff,
        ;
        self.pos = 0;
        assert(self@ =~= Seq::<u16>::empty());
        Some(value as u16)
    }
}

proof fn lemma_sum_constant(s: Seq<u16>, v: u16)
    requires
        forall|i: int| 0 <= i < s.len() ==> s[i] == v,
    ensures
        sum(s) == s.len() * v,
    decreases s.len(),
{
    if s.len() > 0 {
        lemma_sum_constant(s.drop_last(), v);
        assert((s.len() - 1) * v + v == s.len() * v) by (nonlinear_arith);
    }
}

/// Fewer samples than a window, pushed onto an empty window, all yield
/// nothing and are all kept.
pub proof fn lemma_partial_window(samples: Seq<u16>)
    requires
        samples.len() < WINDOW,
    ensures
        run(Seq::<u16>::empty(), samples) == (samples, Seq::new(samples.len(), |i: int| None::<u16>)),
    decreases samples.len(),
{
    if samples.len() > 0 {
        lemma_partial_window(samples.drop_last());
        assert(samples.drop_last().push(samples.last()) =~= samples);
        assert(Seq::new((samples.len() - 1) as nat, |i: int| None::<u16>).push(None) =~= Seq::new(
            samples.len(),
            |i: int| None::<u16>,
        ));
    }
}

/// Sixteen equal samples `v`, pushed onto an empty window: the first fifteen
/// yield nothing, the last yields `v / 16`, and the window is empty again.
pub proof fn lemma_constant_window(v: u16)
    ensures
        run(Seq::<u16>::empty(), Seq::new(WINDOW as nat, |i: int| v)) == (
            Seq::<u16>::empty(),
            Seq::new((WINDOW - 1) as nat, |i: int| None::<u16>).push(Some(v / 16)),
        ),
{
    let samples = Seq::new(WINDOW as nat, |i: int| v);
    let head = samples.drop_last();
    assert(head =~= Seq::new((WINDOW - 1) as nat, |i: int| v));
    lemma_partial_window(head);
    assert(head.push(v) =~= samples);
    lemma_sum_constant(samples, v);
    assert(smoothed(samples) == v / 16);
}

/// Pushing `first` and then `second` is pushing `second` onto what `first`
/// left.
pub proof fn lemma_run_append(pending: Seq<u16>, first: Seq<u16>, second: Seq<u16>)
    ensures
        run(pending, first + second) == (
            run(run(pending, first).0, second).0,
            run(pending, first).1 + run(run(pending, first).0, second).1,
        ),
    decreases second.len(),
{
    if second.len() == 0 {
        assert(first + second =~= first);
        assert(run(pending, first).1 + Seq::<Option<u16>>::empty() =~= run(pending, first).1);
    } else {
        assert((first + second).drop_last() =~= first + second.drop_last());
        lemma_run_append(pending, first, second.drop_last());
        let mid = run(pending, first);
        let tail = run(mid.0, second.drop_last());
        assert(mid.1 + tail.1.push(step(tail.0, second.last()).1) =~= (mid.1 + tail.1).push(
            step(tail.0, second.last()).1,
        ));
    }
}

/// Once a window has yielded its value, the next samples start a fresh
/// window: what they yield does not depend on the samples before.
pub proof fn lemma_fresh_window(first: Seq<u16>, rest: Seq<u16>)
    requires
        first.len() == WINDOW,
    ensures
        run(Seq::<u16>::empty(), first).0 == Seq::<u16>::empty(),
        run(Seq::<u16>::empty(), first + rest) == (
            run(Seq::<u16>::empty(), rest).0,
            run(Seq::<u16>::empty(), first).1 + run(Seq::<u16>::empty(), rest).1,
        ),
{
    lemma_partial_window(first.drop_last());
    lemma_run_append(Seq::<u16>::empty(), first, rest);
}

} // verus!
