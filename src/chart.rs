//! The rolling window of latency samples that the chart output draws.
use vstd::prelude::*;
use std::collections::VecDeque;

verus! {

/// The number of samples that the chart keeps.
pub const CHART_POINTS: usize = 1000;

/// The window after pushing `v`: the oldest sample leaves, `v` comes last.
pub open spec fn chart_push(s: Seq<u64>, v: u64) -> Seq<u64> {
    s.drop_first().push(v)
}

/// The window after pushing each value of `vs` in order.
pub open spec fn chart_push_all(s: Seq<u64>, vs: Seq<u64>) -> Seq<u64>
    decreases vs.len(),
{
    if vs.len() == 0 {
        s
    } else {
        chart_push(chart_push_all(s, vs.drop_last()), vs.last())
    }
}

/// The last `width` samples of `s`, or all of them when there are fewer.
pub open spec fn last_samples(s: Seq<u64>, width: nat) -> Seq<u64> {
    if width >= s.len() {
        s
    } else {
        s.subrange(s.len() - width, s.len() as int)
    }
}

/// The width of the chart on a terminal of `columns` columns: two points per column,
/// less the space of the labels, at most the number of samples kept.
pub open spec fn chart_width_spec(columns: u16) -> int {
    let w = 2 * columns - 18;
    if w < 0 {
        0
    } else if w > CHART_POINTS {
        CHART_POINTS as int
    } else {
        w
    }
}

/// A fixed window of the most recent samples, oldest first. It starts filled with
/// zeros so that the chart has its full width from the first drawing.
pub struct ChartBuffer {
    samples: VecDeque<u64>,
}

impl View for ChartBuffer {
    type V = Seq<u64>;

    closed spec fn view(&self) -> Seq<u64> {
        self.samples@
    }
}

impl ChartBuffer {
    /// The window holds exactly `CHART_POINTS` samples.
    pub open spec fn wf(&self) -> bool {
        self@.len() == CHART_POINTS
    }

    /// A window of zeros.
    pub fn new() -> (r: ChartBuffer)
        ensures
            r.wf(),
            r@ == Seq::new(CHART_POINTS as nat, |i: int| 0u64),
    {
        let mut samples: VecDeque<u64> = VecDeque::new();
        let mut i: usize = 0;
        while i < CHART_POINTS
            invariant
                i <= CHART_POINTS,
                samples@ == Seq::new(i as nat, |k: int| 0u64),
            decreases CHART_POINTS - i,
        {
            samples.push_back(0);
            i = i + 1;
            assert(samples@ =~= Seq::new(i as nat, |k: int| 0u64));
        }
        ChartBuffer { samples }
    }

    /// Appends `v` and drops the oldest sample.
    pub fn push(&mut self, v: u64)
        requires
            old(self).wf(),
        ensures
            final(self).wf(),
            final(self)@ == chart_push(old(self)@, v),
    {
        self.samples.push_back(v);
        let _ = self.samples.pop_front();
        assert(self.samples@ =~= chart_push(old(self)@, v));
    }

    /// The last `width` samples, oldest first: the points that a chart of that width
    /// draws.
    pub fn window(&self, width: usize) -> (r: Vec<u64>)
        ensures
            r@ == last_samples(self@, width as nat),
    {
        let len = self.samples.len();
        let skip = if width >= len {
            0
        } else {
            len - width
        };
        let mut out: Vec<u64> = Vec::new();
        let mut i = skip;
        while i < len
            invariant
                len == self@.len(),
                skip <= i <= len,
                out@ == self@.subrange(skip as int, i as int),
            decreases len - i,
        {
            out.push(self.samples[i]);
            i = i + 1;
            assert(out@ =~= self@.subrange(skip as int, i as int));
        }
        assert(out@ =~= last_samples(self@, width as nat));
        out
    }
}

/// The number of points that a chart draws on a terminal of `columns` columns.
pub fn chart_width(columns: u16) -> (r: u16)
    ensures
        r == chart_width_spec(columns),
{
    let w: u32 = 2 * (columns as u32);
    if w < 18 {
        0
    } else if w - 18 > CHART_POINTS as u32 {
        CHART_POINTS as u16
    } else {
        (w - 18) as u16
    }
}

/// Pushing appends in order and keeps the size: after pushing `vs` into a full window,
/// it is the concatenation of both with the `vs.len()` oldest samples left out; so once
/// more than `CHART_POINTS` values were pushed, it holds exactly the `CHART_POINTS`
/// most recent ones, in the order in which they came.
pub proof fn lemma_keeps_most_recent(s: Seq<u64>, vs: Seq<u64>)
    requires
        s.len() == CHART_POINTS,
    ensures
        chart_push_all(s, vs) == (s + vs).subrange(vs.len() as int, vs.len() + CHART_POINTS),
        vs.len() >= CHART_POINTS ==> chart_push_all(s, vs) == vs.subrange(
            vs.len() - CHART_POINTS,
            vs.len() as int,
        ),
    decreases vs.len(),
{
    if vs.len() > 0 {
        let init = vs.drop_last();
        lemma_keeps_most_recent(s, init);
        assert(chart_push_all(s, vs) =~= (s + vs).subrange(
            vs.len() as int,
            vs.len() + CHART_POINTS,
        ));
    }
    if vs.len() >= CHART_POINTS {
        assert(chart_push_all(s, vs) =~= vs.subrange(vs.len() - CHART_POINTS, vs.len() as int));
    }
}

} // verus!
