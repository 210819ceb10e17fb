use vstd::prelude::*;

use generic_array::typenum::U5;
use median::stack::Filter;

verus! {

/// Number of most recent samples the median is taken over.
pub const WINDOW: usize = 5;

/// The five-wide median filter of the `median` crate, held opaque.
#[verifier::external_body]
pub struct SampleWindow {
    inner: Filter<u64, U5>,
}

/// The samples a window holds, oldest first.
pub uninterp spec fn window_samples(w: SampleWindow) -> Seq<u64>;

/// The window after `v` is added to one holding `s`: the oldest sample leaves
/// once the window is full.
pub open spec fn slide(s: Seq<u64>, v: u64) -> Seq<u64> {
    if s.len() < WINDOW {
        s.push(v)
    } else {
        s.drop_first().push(v)
    }
}

/// How many samples of `s` are smaller than `x`.
pub open spec fn count_below(s: Seq<u64>, x: u64) -> nat
    decreases s.len(),
{
    if s.len() == 0 {
        0
    } else {
        count_below(s.drop_last(), x) + if s.last() < x {
            1nat
        } else {
            0nat
        }
    }
}

/// How many samples of `s` are at most `x`.
pub open spec fn count_at_most(s: Seq<u64>, x: u64) -> nat
    decreases s.len(),
{
    if s.len() == 0 {
        0
    } else {
        count_at_most(s.drop_last(), x) + if s.last() <= x {
            1nat
        } else {
            0nat
        }
    }
}

/// `x` stands at (zero-based) position `k` when `s` is sorted.
pub open spec fn is_kth_smallest(s: Seq<u64>, k: int, x: u64) -> bool {
    count_below(s, x) <= k < count_at_most(s, x)
}

/// `x` is the median of the non-empty `s`: its middle value when sorted, the
/// lower of the two middle values for an even count.
pub open spec fn is_median(s: Seq<u64>, x: u64) -> bool {
    is_kth_smallest(s, (s.len() - 1) / 2, x)
}

/// The window after each of `samples` is added, in order, to one holding `s`.
pub open spec fn slide_all(s: Seq<u64>, samples: Seq<u64>) -> Seq<u64>
    decreases samples.len(),
{
    if samples.len() == 0 {
        s
    } else {
        slide(slide_all(s, samples.drop_last()), samples.last())
    }
}

/// The last `WINDOW` elements of `s` (all of them when there are fewer).
pub open spec fn recent(s: Seq<u64>) -> Seq<u64> {
    if s.len() <= WINDOW {
        s
    } else {
        s.subrange(s.len() - WINDOW, s.len() as int)
    }
}

proof fn lemma_slide_all_recent(s: Seq<u64>, samples: Seq<u64>)
    requires
        s.len() <= WINDOW,
    ensures
        slide_all(s, samples) == recent(s + samples),
    decreases samples.len(),
{
    if samples.len() == 0 {
        assert(s + samples =~= s);
    } else {
        let p = samples.drop_last();
        let v = samples.last();
        lemma_slide_all_recent(s, p);
        let t = s + p;
        assert(s + samples =~= t.push(v));
        let u = t.push(v);
        if t.len() >= WINDOW {
            assert(recent(t).drop_first().push(v) =~= recent(u));
        } else {
            assert(recent(t).push(v) =~= recent(u));
        }
    }
}

/// However many samples a filter held before, once at least five more are
/// fed in it holds exactly the last five of them, so its median is the
/// median of the five most recent samples.
pub proof fn lemma_window_is_recent(s: Seq<u64>, samples: Seq<u64>)
    requires
        s.len() <= WINDOW,
        samples.len() >= WINDOW,
    ensures
        slide_all(s, samples) == samples.subrange(samples.len() - WINDOW, samples.len() as int),
        forall|x: u64|
            is_median(slide_all(s, samples), x) <==> is_kth_smallest(
                samples.subrange(samples.len() - WINDOW, samples.len() as int),
                2,
                x,
            ),
{
    lemma_slide_all_recent(s, samples);
    let t = s + samples;
    assert(t.subrange(t.len() - WINDOW, t.len() as int) =~= samples.subrange(
        samples.len() - WINDOW,
        samples.len() as int,
    ));
}

proof fn lemma_counts_ordered(s: Seq<u64>, x: u64, y: u64)
    requires
        x < y,
    ensures
        count_at_most(s, x) <= count_below(s, y),
    decreases s.len(),
{
    if s.len() > 0 {
        lemma_counts_ordered(s.drop_last(), x, y);
    }
}

/// A sample sequence has one median: asking a filter for it twice, with no
/// sample added between, gives the same value.
pub proof fn lemma_median_unique(s: Seq<u64>, x: u64, y: u64)
    requires
        is_median(s, x),
        is_median(s, y),
    ensures
        x == y,
{
    if x < y {
        lemma_counts_ordered(s, x, y);
    } else if y < x {
        lemma_counts_ordered(s, y, x);
    }
}

/// Relies on `median::stack::Filter::new`: the filter starts empty.
#[verifier::external_body]
fn window_new() -> (r: SampleWindow)
    ensures
        window_samples(r) == Seq::<u64>::empty(),
{
    SampleWindow { inner: Filter::new() }
}

/// Relies on `median::stack::Filter::consume`: the value overwrites the oldest
/// slot of the ring buffer once all five are filled.
#[verifier::external_body]
fn window_consume(w: &mut SampleWindow, v: u64)
    ensures
        window_samples(*final(w)) == slide(window_samples(*old(w)), v),
{
    w.inner.consume(v);
}

/// Relies on `median::stack::Filter::median`: the value at the filter's median
/// node, the lower middle of the sorted samples; it panics when empty.
#[verifier::external_body]
fn window_median(w: &SampleWindow) -> (r: u64)
    requires
        window_samples(*w).len() > 0,
    ensures
        is_median(window_samples(*w), r),
{
    w.inner.median()
}

/// Median filter over the last five raw samples of one sensor channel.
pub struct MedianFilter {
    window: SampleWindow,
    held: usize,
}

impl View for MedianFilter {
    type V = Seq<u64>;

    closed spec fn view(&self) -> Seq<u64> {
        window_samples(self.window)
    }
}

impl MedianFilter {
    /// The count of held samples is tracked, and never exceeds the window.
    pub closed spec fn wf(&self) -> bool {
        &&& self.held == window_samples(self.window).len()
        &&& self.held <= WINDOW
    }

    /// An empty filter.
    pub fn new() -> (r: MedianFilter)
        ensures
            r.wf(),
            r@ == Seq::<u64>::empty(),
    {
        MedianFilter { window: window_new(), held: 0 }
    }

    /// Number of samples held.
    pub fn len(&self) -> (r: usize)
        requires
            self.wf(),
        ensures
            r == self@.len(),
            r <= WINDOW,
    {
        self.held
    }

    /// Adds a sample; the oldest leaves once five are held.
    pub fn consume(&mut self, sample: u64)
        requires
            old(self).wf(),
        ensures
            final(self).wf(),
            final(self)@ == slide(old(self)@, sample),
    {
        window_consume(&mut self.window, sample);
        if self.held < WINDOW {
            self.held = self.held + 1;
        }
    }

    /// The median of the held samples, or `None` before the first sample.
    pub fn median(&self) -> (r: Option<u64>)
        requires
            self.wf(),
        ensures
            r.is_none() == (self@.len() == 0),
            forall|x: u64| r == Some(x) ==> is_median(self@, x),
    {
        if self.held == 0 {
            None
        } else {
            Some(window_median(&self.window))
        }
    }
}

} // verus!
