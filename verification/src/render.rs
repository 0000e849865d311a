//! Render scheduling: the shared pixel buffer, the static partition of the
//! pixel index space across workers, and the start/stop state machine.
//!
//! The concurrency itself (threads, joining, the shared flag) lives with
//! the caller; what is verified here is the arithmetic and the discipline:
//! the flat index maps bijectively to pixel coordinates, the partition
//! covers every pixel exactly once, and a start request launches a new
//! pass directly only when no pass is running — otherwise the running pass
//! must be joined first, so two passes never write the buffer concurrently.

use vstd::prelude::*;
use vstd::pervasive::VecAdditionalExecFns;
use vstd::arithmetic::div_mod::{lemma_fundamental_div_mod, lemma_mod_bound};
use vstd::arithmetic::mul::lemma_mul_is_commutative;
use crate::color::Color;

verus! {

#[derive(Clone, Copy, PartialEq, Eq, Structural, Debug)]
pub struct SchedState {
    /// A pass is in flight.
    pub running: bool,
    /// Counts the passes ever started; a restart gets a fresh generation.
    pub generation: u64,
}

#[derive(Clone, Copy, PartialEq, Eq, Structural, Debug)]
pub enum SchedEvent {
    /// The caller asks for a (re)start with new parameters.
    Start,
    /// The in-flight pass reports completion or cancellation.
    Finish,
}

#[derive(Clone, Copy, PartialEq, Eq, Structural, Debug)]
pub enum SchedAction {
    /// Join the running pass to quiescence, then launch the new one.
    JoinThenLaunch,
    /// Launch directly: nothing is running.
    Launch,
    /// Record the pass as finished; nothing to launch.
    Record,
}

pub open spec fn sched_step_spec(st: SchedState, ev: SchedEvent) -> (SchedState, SchedAction) {
    match ev {
        SchedEvent::Start => (
            SchedState { running: true, generation: (st.generation + 1) as u64 },
            if st.running {
                SchedAction::JoinThenLaunch
            } else {
                SchedAction::Launch
            },
        ),
        SchedEvent::Finish => (
            SchedState { running: false, generation: st.generation },
            SchedAction::Record,
        ),
    }
}

/// Drive the scheduler: the returned action is what the caller must do
/// before the new state holds.
pub fn sched_step(st: &SchedState, ev: SchedEvent) -> (res: (SchedState, SchedAction))
    requires
        st.generation < u64::MAX,
    ensures
        res == sched_step_spec(*st, ev),
{
    match ev {
        SchedEvent::Start => (
            SchedState { running: true, generation: st.generation + 1 },
            if st.running {
                SchedAction::JoinThenLaunch
            } else {
                SchedAction::Launch
            },
        ),
        SchedEvent::Finish => (
            SchedState { running: false, generation: st.generation },
            SchedAction::Record,
        ),
    }
}

/// At most one pass can be writing at a time: a start launches a new pass
/// without joining exactly when the scheduler is idle, and always joins
/// the running pass first otherwise; afterwards exactly one pass runs, and
/// a finish leaves none.
pub proof fn lemma_single_writer(st: SchedState)
    ensures
        sched_step_spec(st, SchedEvent::Start).1 == SchedAction::Launch <==> !st.running,
        sched_step_spec(st, SchedEvent::Start).1 == SchedAction::JoinThenLaunch <==> st.running,
        sched_step_spec(st, SchedEvent::Start).0.running,
        !sched_step_spec(st, SchedEvent::Finish).0.running,
        sched_step_spec(st, SchedEvent::Start).0.generation == st.generation + 1
            || st.generation == u64::MAX,
        sched_step_spec(st, SchedEvent::Finish).0.generation == st.generation,
{
}

/// Row and column of a flat pixel index, row-major.
pub fn pixel_coords(ii: usize, width: usize) -> (res: (usize, usize))
    requires
        width > 0,
    ensures
        res.0 == ii / width,
        res.1 == ii % width,
        res.1 < width,
        res.0 * width + res.1 == ii,
{
    proof {
        lemma_fundamental_div_mod(ii as int, width as int);
        lemma_mod_bound(ii as int, width as int);
        lemma_mul_is_commutative(ii as int / width as int, width as int);
    }
    (ii / width, ii % width)
}

/// The shared frame: one color per pixel, row-major, `i * width + j`.
pub struct FrameBuffer {
    pub pixels: Vec<Color>,
    pub width: usize,
    pub height: usize,
}

impl FrameBuffer {
    pub open spec fn wf(&self) -> bool {
        self.pixels@.len() == self.width * self.height
    }

    /// A buffer of `width * height` copies of `fill`.
    pub fn new(width: usize, height: usize, fill: Color) -> (res: FrameBuffer)
        requires
            (width as int) * (height as int) <= usize::MAX,
        ensures
            res.wf(),
            res.width == width,
            res.height == height,
            forall|k: int| 0 <= k < res.pixels@.len() ==> res.pixels@[k] == fill,
    {
        let n: usize = width * height;
        let mut pixels: Vec<Color> = Vec::new();
        let mut i: usize = 0;
        while i < n
            invariant
                i <= n,
                pixels@.len() == i,
                forall|k: int| 0 <= k < i ==> pixels@[k] == fill,
            decreases n - i,
        {
            pixels.push(fill);
            i = i + 1;
        }
        FrameBuffer { pixels, width, height }
    }

    /// Write one pixel.
    pub fn set_pixel(&mut self, i: usize, j: usize, c: Color)
        requires
            old(self).wf(),
            i < old(self).height,
            j < old(self).width,
        ensures
            final(self).wf(),
            final(self).width == old(self).width,
            final(self).height == old(self).height,
            final(self).pixels@ == old(self).pixels@.update(
                i * old(self).width + j,
                c,
            ),
    {
        let n: usize = self.pixels.len();
        proof {
            assert((i as int) * (self.width as int) + (j as int) < (self.width as int) * (
            self.height as int)) by (nonlinear_arith)
                requires
                    (i as int) < (self.height as int),
                    (j as int) < (self.width as int),
                    (self.width as int) >= 0;
            assert((i as int) * (self.width as int) + (j as int) < n as int);
        }
        let idx: usize = i * self.width + j;
        self.pixels.set(idx, c);
    }

    /// Read one pixel.
    pub fn get_pixel(&self, i: usize, j: usize) -> (res: Color)
        requires
            self.wf(),
            i < self.height,
            j < self.width,
        ensures
            res == self.pixels@[i * self.width + j],
    {
        let n: usize = self.pixels.len();
        proof {
            assert((i as int) * (self.width as int) + (j as int) < (self.width as int) * (
            self.height as int)) by (nonlinear_arith)
                requires
                    (i as int) < (self.height as int),
                    (j as int) < (self.width as int),
                    (self.width as int) >= 0;
            assert((i as int) * (self.width as int) + (j as int) < n as int);
        }
        let idx: usize = i * self.width + j;
        self.pixels[idx]
    }

    /// A copy of the whole buffer, safe to take mid-render.
    pub fn snapshot(&self) -> (res: Vec<Color>)
        ensures
            res@ == self.pixels@,
    {
        let mut out: Vec<Color> = Vec::new();
        let mut i: usize = 0;
        while i < self.pixels.len()
            invariant
                i <= self.pixels@.len(),
                out@.len() == i,
                forall|k: int| 0 <= k < i ==> out@[k] == self.pixels@[k],
            decreases self.pixels@.len() - i,
        {
            out.push(self.pixels[i]);
            i = i + 1;
        }
        proof {
            assert(out@ =~= self.pixels@);
        }
        out
    }
}

/// Split `[0, len)` into `workers` consecutive ranges, as even as possible.
pub fn chunk_ranges(len: usize, workers: usize) -> (res: Vec<(usize, usize)>)
    requires
        1 <= workers,
    ensures
        res@.len() == workers,
        res@[0].0 == 0,
        res@[workers as int - 1].1 == len,
        forall|k: int| 0 <= k < workers ==> (#[trigger] res@[k]).0 <= res@[k].1 <= len,
        forall|k: int| 0 <= k < workers - 1 ==> (#[trigger] res@[k]).1 == res@[k + 1].0,
{
    let base: usize = len / workers;
    let rem: usize = len % workers;
    proof {
        lemma_fundamental_div_mod(len as int, workers as int);
        lemma_mod_bound(len as int, workers as int);
    }
    let mut res: Vec<(usize, usize)> = Vec::new();
    let mut start: usize = 0;
    let mut k: usize = 0;
    while k < workers
        invariant
            k <= workers,
            res@.len() == k,
            workers >= 1,
            base == len as int / workers as int,
            rem == len as int % workers as int,
            len == (workers as int) * (base as int) + rem,
            rem < workers,
            start == (k as int) * (base as int) + (if k <= rem {
                k as int
            } else {
                rem as int
            }),
            start <= len,
            k > 0 ==> res@[0].0 == 0,
            k > 0 ==> res@[k as int - 1].1 == start,
            forall|j: int| 0 <= j < k ==> (#[trigger] res@[j]).0 <= res@[j].1 <= len,
            forall|j: int| 0 <= j < k - 1 ==> (#[trigger] res@[j]).1 == res@[j + 1].0,
        decreases workers - k,
    {
        let size: usize = if k < rem {
            proof {
                assert(2 * (base as int) <= (workers as int) * (base as int)) by (nonlinear_arith)
                    requires
                        2 <= (workers as int),
                        0 <= (base as int);
            }
            base + 1
        } else {
            base
        };
        proof {
            assert(((k as int) + 1) * (base as int) == (k as int) * (base as int) + (base as int))
                by (nonlinear_arith);
            assert(((k as int) + 1) * (base as int) <= (workers as int) * (base as int))
                by (nonlinear_arith)
                requires
                    (k as int) + 1 <= (workers as int),
                    (base as int) >= 0;
            if k < rem {
                assert(start as int + size as int == ((k as int) + 1) * (base as int) + ((
                k as int) + 1));
            } else {
                assert(start as int + size as int == ((k as int) + 1) * (base as int) + (
                rem as int));
            }
            assert(start as int + size as int <= len as int);
        }
        res.push((start, start + size));
        start = start + size;
        k = k + 1;
    }
    res
}

/// Consecutive ranges are ordered: an earlier chunk ends no later than a
/// later one begins. With `lemma_chunk_coverage` below this makes the
/// partition exact: each index lies in one chunk and, chunks being
/// half-open and ordered, in only one.
pub proof fn lemma_chunks_ordered(ranges: Seq<(usize, usize)>, a: int, b: int)
    requires
        forall|k: int| 0 <= k < ranges.len() ==> (#[trigger] ranges[k]).0 <= ranges[k].1,
        forall|k: int| 0 <= k < ranges.len() - 1 ==> (#[trigger] ranges[k]).1 == ranges[k + 1].0,
        0 <= a < b < ranges.len(),
    ensures
        ranges[a].1 <= ranges[b].0,
    decreases b - a,
{
    if a + 1 == b {
        assert(ranges[a].1 == ranges[b].0);
    } else {
        lemma_chunks_ordered(ranges, a + 1, b);
        assert(ranges[a].1 == ranges[a + 1].0);
    }
}

/// Every index below `len` falls inside some chunk: the partition covers
/// the whole pixel space, so a pass that renders each chunk writes every
/// pixel at least once.
pub proof fn lemma_chunk_coverage(ranges: Seq<(usize, usize)>, len: usize, i: int)
    requires
        ranges.len() >= 1,
        ranges[0].0 == 0,
        ranges[ranges.len() - 1].1 == len,
        forall|k: int| 0 <= k < ranges.len() ==> (#[trigger] ranges[k]).0 <= ranges[k].1,
        forall|k: int| 0 <= k < ranges.len() - 1 ==> (#[trigger] ranges[k]).1 == ranges[k + 1].0,
        0 <= i < len,
    ensures
        exists|k: int|
            0 <= k < ranges.len() && (#[trigger] ranges[k]).0 <= i && i < ranges[k].1,
    decreases ranges.len(),
{
    let n = ranges.len() as int;
    if i >= ranges[n - 1].0 {
        assert(ranges[n - 1].0 <= i && i < ranges[n - 1].1);
    } else {
        assert(n >= 2);
        let sub = ranges.drop_last();
        assert(sub.len() == n - 1);
        assert(forall|k: int| 0 <= k < sub.len() ==> sub[k] == ranges[k]);
        assert(sub[n - 2].1 == ranges[n - 1].0);
        lemma_chunk_coverage(sub, ranges[n - 1].0, i);
        let w = choose|k: int| 0 <= k < sub.len() && (#[trigger] sub[k]).0 <= i && i < sub[k].1;
        assert(ranges[w].0 <= i && i < ranges[w].1);
    }
}

} // verus!
