//! The stage schedule and the histogram of a Metropolis-Hastings walker
//! that is animated one stage at a time.
//!
//! A progress counter advances once per animation tick. Every
//! `frames_per_tick` ticks the walker does one stage: it proposes a point,
//! then judges it, then commits it to the histogram if it was accepted,
//! and then the counter starts over.

use vstd::prelude::*;

verus! {

/// Quotient of `a / b` rounded toward zero, as machine division computes it.
pub open spec fn trunc_div(a: int, b: int) -> int {
    let q = abs(a) / abs(b);
    if (a >= 0) == (b >= 0) { q } else { -q }
}

/// The absolute value of `a`.
pub open spec fn abs(a: int) -> int {
    if a >= 0 { a } else { -a }
}

/// Remainder of `a / b` with the sign of `a`, as machine division computes it.
pub open spec fn trunc_rem(a: int, b: int) -> int {
    let r = abs(a) % abs(b);
    if a >= 0 { r } else { -r }
}

/// What one tick of the animation does.
#[derive(Debug, Clone, Copy, PartialEq, Eq, Structural)]
pub enum Stage {
    /// Nothing: the counter is between two stages.
    Wait,
    /// Draw a new trial point.
    Propose,
    /// Decide whether the trial point is accepted.
    Judge,
    /// Add an accepted trial point to the histogram and move the walker there.
    Commit,
    /// Start the cycle over.
    Restart,
}

/// The stage of a tick at counter value `progress`: a stage happens when
/// `progress` is a multiple of `frames`, and which one is told by the quotient.
pub open spec fn stage_at(progress: int, frames: int) -> Stage {
    if trunc_rem(progress, frames) != 0 {
        Stage::Wait
    } else {
        let q = trunc_div(progress, frames);
        if q == 0 {
            Stage::Propose
        } else if q == 1 {
            Stage::Judge
        } else if q == 2 {
            Stage::Commit
        } else {
            Stage::Restart
        }
    }
}

/// The counter after a tick at `progress`: it goes back to `-1` on a
/// restart and then moves on by one.
pub open spec fn next_progress(progress: int, frames: int) -> int {
    if stage_at(progress, frames) == Stage::Restart {
        0
    } else {
        progress + 1
    }
}

/// The stage that a tick at `progress_index` performs.
pub fn tick_stage(progress_index: i32, frames_per_tick: i32) -> (s: Stage)
    requires
        frames_per_tick != 0,
        !(progress_index == i32::MIN && frames_per_tick == -1),
    ensures
        s == stage_at(progress_index as int, frames_per_tick as int),
{
    let pa: u32 = if progress_index >= 0 { progress_index as u32 } else { (-(progress_index as i64)) as u32 };
    let fa: u32 = if frames_per_tick >= 0 { frames_per_tick as u32 } else { (-(frames_per_tick as i64)) as u32 };
    if pa % fa != 0 {
        Stage::Wait
    } else {
        let qa = pa / fa;
        if (progress_index >= 0) != (frames_per_tick >= 0) && qa != 0 {
            // a negative quotient
            Stage::Restart
        } else if qa == 0 {
            Stage::Propose
        } else if qa == 1 {
            Stage::Judge
        } else if qa == 2 {
            Stage::Commit
        } else {
            Stage::Restart
        }
    }
}

/// The sum of the histogram's counts.
pub open spec fn total(counts: Seq<usize>) -> int
    decreases counts.len(),
{
    if counts.len() == 0 {
        0
    } else {
        total(counts.drop_last()) + counts.last()
    }
}

/// The state of the walker that is not floating point: the progress
/// counter, whether the last trial point was accepted, and the histogram of
/// accepted points.
pub struct MhChain {
    progress_index: i32,
    accept: bool,
    hist_counts: Vec<usize>,
    /// How many accepted points have been committed so far.
    commits: Ghost<nat>,
}

/// What a `MhChain` holds, as mathematical values.
pub struct ChainView {
    pub progress: int,
    pub accept: bool,
    pub counts: Seq<usize>,
    /// The number of accepted points committed since the chain was made.
    pub commits: nat,
}

impl ChainView {
    /// What holds of every chain at every moment: the counter lies in
    /// `-1 ..= i32::MAX`, and the histogram holds exactly one count for
    /// each accepted point committed so far.
    pub open spec fn wf(self) -> bool {
        &&& -1 <= self.progress <= i32::MAX
        &&& total(self.counts) == self.commits
    }
}

impl View for MhChain {
    type V = ChainView;

    closed spec fn view(&self) -> ChainView {
        ChainView {
            progress: self.progress_index as int,
            accept: self.accept,
            counts: self.hist_counts@,
            commits: self.commits@,
        }
    }
}

/// A histogram of zeros has total zero.
proof fn lemma_total_zeros(n: nat)
    ensures
        total(Seq::new(n, |i: int| 0usize)) == 0,
    decreases n,
{
    if n > 0 {
        lemma_total_zeros((n - 1) as nat);
        assert(Seq::new(n, |i: int| 0usize).drop_last() =~= Seq::new((n - 1) as nat, |i: int| 0usize));
    }
}

impl MhChain {
    /// The counter never goes below `-1`, where every cycle starts, and
    /// the histogram counts every committed point once.
    #[verifier::type_invariant]
    spec fn inv(self) -> bool {
        &&& self.progress_index >= -1
        &&& total(self.hist_counts@) == self.commits@
    }

    /// A chain before its first tick: the counter at `-1`, no point
    /// accepted and `n_bins` empty histogram bins.
    pub fn new(n_bins: usize) -> (c: Self)
        ensures
            c@.progress == -1,
            !c@.accept,
            c@.counts == Seq::new(n_bins as nat, |i: int| 0usize),
            c@.commits == 0,
            c@.wf(),
    {
        let mut hist_counts: Vec<usize> = Vec::new();
        let mut k: usize = 0;
        while k < n_bins
            invariant
                k <= n_bins,
                hist_counts@ == Seq::new(k as nat, |i: int| 0usize),
            decreases n_bins - k,
        {
            hist_counts.push(0);
            k = k + 1;
        }
        proof {
            lemma_total_zeros(n_bins as nat);
        }
        MhChain { progress_index: -1, accept: false, hist_counts, commits: Ghost(0) }
    }

    /// The progress counter.
    pub fn progress_index(&self) -> (p: i32)
        ensures
            p == self@.progress,
            self@.wf(),
    {
        proof {
            use_type_invariant(self);
        }
        self.progress_index
    }

    /// Whether the last judged point was accepted.
    pub fn accepted(&self) -> (a: bool)
        ensures
            a == self@.accept,
    {
        self.accept
    }

    /// The histogram of accepted points.
    pub fn hist_counts(&self) -> (c: &Vec<usize>)
        ensures
            c@ == self@.counts,
            self@.wf(),
    {
        proof {
            use_type_invariant(self);
        }
        &self.hist_counts
    }

    /// One animation tick: returns the stage to perform at the current
    /// counter value, and moves the counter on (back to the start of the
    /// cycle after a restart).
    pub fn advance(&mut self, frames_per_tick: i32) -> (s: Stage)
        requires
            frames_per_tick != 0,
            stage_at(old(self)@.progress, frames_per_tick as int) != Stage::Restart
                ==> old(self)@.progress < i32::MAX,
        ensures
            old(self)@.wf(),
            s == stage_at(old(self)@.progress, frames_per_tick as int),
            final(self)@.progress == next_progress(old(self)@.progress, frames_per_tick as int),
            s != Stage::Restart ==> final(self)@.progress == old(self)@.progress + 1,
            s == Stage::Restart ==> final(self)@.progress == 0,
            final(self)@.accept == old(self)@.accept,
            final(self)@.counts == old(self)@.counts,
            final(self)@.commits == old(self)@.commits,
            final(self)@.wf(),
    {
        proof {
            use_type_invariant(&*self);
        }
        let s = tick_stage(self.progress_index, frames_per_tick);
        if s == Stage::Restart {
            self.progress_index = 0;
        } else {
            self.progress_index = self.progress_index + 1;
        }
        proof {
            use_type_invariant(&*self);
        }
        s
    }

    /// Judges the trial point: it is accepted when it is more likely than
    /// the walker's point (`uphill`), or else when the uniform draw fell
    /// below the ratio of the two likelihoods (`lucky`).
    pub fn judge(&mut self, uphill: bool, lucky: bool)
        ensures
            final(self)@.accept == (uphill || lucky),
            final(self)@.progress == old(self)@.progress,
            final(self)@.counts == old(self)@.counts,
            final(self)@.commits == old(self)@.commits,
            final(self)@.wf(),
    {
        proof {
            use_type_invariant(&*self);
        }
        self.accept = uphill || lucky;
        proof {
            use_type_invariant(&*self);
        }
    }

    /// Commits the trial point: when it was accepted, adds one to the count
    /// of `bin` and returns `true` (the walker moves to the trial point);
    /// otherwise changes nothing and returns `false`.
    pub fn commit(&mut self, bin: usize) -> (moved: bool)
        requires
            old(self)@.accept ==> bin < old(self)@.counts.len(),
            old(self)@.accept ==> old(self)@.counts[bin as int] < usize::MAX,
        ensures
            moved == old(self)@.accept,
            final(self)@.progress == old(self)@.progress,
            final(self)@.accept == old(self)@.accept,
            moved ==> final(self)@.counts == old(self)@.counts.update(
                bin as int,
                (old(self)@.counts[bin as int] + 1) as usize,
            ),
            moved ==> total(final(self)@.counts) == total(old(self)@.counts) + 1,
            moved ==> final(self)@.commits == old(self)@.commits + 1,
            !moved ==> final(self)@.counts == old(self)@.counts,
            !moved ==> final(self)@.commits == old(self)@.commits,
            final(self)@.wf(),
    {
        proof {
            use_type_invariant(&*self);
        }
        if self.accept {
            let mut taken = MhChain::new(0);
            std::mem::swap(&mut taken, self);
            let MhChain { progress_index, accept, mut hist_counts, commits } = taken;
            let c = hist_counts[bin];
            hist_counts.set(bin, c + 1);
            proof {
                lemma_total_update(old(self)@.counts, bin as int, (c + 1) as usize);
            }
            *self = MhChain {
                progress_index,
                accept,
                hist_counts,
                commits: Ghost((commits@ + 1) as nat),
            };
            proof {
                use_type_invariant(&*self);
            }
            true
        } else {
            false
        }
    }
}

/// Changing one count changes the total by the difference.
pub proof fn lemma_total_update(counts: Seq<usize>, i: int, v: usize)
    requires
        0 <= i < counts.len(),
    ensures
        total(counts.update(i, v)) == total(counts) - counts[i] + v,
    decreases counts.len(),
{
    let u = counts.update(i, v);
    if i == counts.len() - 1 {
        assert(u.drop_last() =~= counts.drop_last());
    } else {
        lemma_total_update(counts.drop_last(), i, v);
        assert(u.drop_last() =~= counts.drop_last().update(i, v));
    }
}

/// Outside a restart the counter moves on by exactly one per tick; a
/// restart puts it at the start of the next cycle.
pub proof fn lemma_counter_steps_by_one(progress: int, frames: int)
    ensures
        stage_at(progress, frames) != Stage::Restart ==> next_progress(progress, frames) == progress + 1,
        stage_at(progress, frames) == Stage::Restart ==> next_progress(progress, frames) == 0,
{
}

/// For any counter value from `-1` on and any positive number of frames,
/// in plain arithmetic: nothing happens unless the counter is a multiple of
/// `frames`; at `0` the walker proposes, at `frames` it judges, at
/// `2 * frames` it commits; every multiple from `3 * frames` on restarts the
/// cycle (as does `-1` when `frames` is `1`).
pub proof fn lemma_stage_schedule(progress: int, frames: int)
    requires
        1 <= frames,
        -1 <= progress,
    ensures
        (stage_at(progress, frames) == Stage::Wait) <==> (progress >= 0 && progress % frames != 0) || (
        progress == -1 && frames != 1),
        (stage_at(progress, frames) == Stage::Propose) <==> progress == 0,
        (stage_at(progress, frames) == Stage::Judge) <==> progress == frames,
        (stage_at(progress, frames) == Stage::Commit) <==> progress == 2 * frames,
        (stage_at(progress, frames) == Stage::Restart) <==> (progress >= 3 * frames && progress % frames
            == 0) || (frames == 1 && progress == -1),
{
    if progress == -1 {
        if frames == 1 {
            assert(1int % 1 == 0 && 1int / 1 == 1);
        } else {
            assert(1int % frames == 1) by {
                vstd::arithmetic::div_mod::lemma_small_mod(1, frames as nat);
            }
        }
    } else {
        let q = progress / frames;
        let r = progress % frames;
        vstd::arithmetic::div_mod::lemma_fundamental_div_mod(progress, frames);
        vstd::arithmetic::div_mod::lemma_mod_bound(progress, frames);
        assert(0 <= q) by (nonlinear_arith)
            requires progress == frames * q + r, 0 <= r < frames, 0 <= progress;
        assert(r == 0 ==> (progress == 0 <==> q == 0)) by (nonlinear_arith)
            requires progress == frames * q + r, 1 <= frames;
        assert(r == 0 ==> (progress == frames <==> q == 1)) by (nonlinear_arith)
            requires progress == frames * q + r, 1 <= frames;
        assert(r == 0 ==> (progress == 2 * frames <==> q == 2)) by (nonlinear_arith)
            requires progress == frames * q + r, 1 <= frames;
        assert(r == 0 ==> (progress >= 3 * frames <==> q >= 3)) by (nonlinear_arith)
            requires progress == frames * q + r, 1 <= frames;
        assert(progress == 0 || progress == frames || progress == 2 * frames ==> r == 0) by (nonlinear_arith)
            requires progress == frames * q + r, 0 <= r < frames, 0 <= q;
    }
}

/// With a fixed number of frames per stage, one cycle of the counter runs
/// from `0` to `3 * frames`: the walker proposes at `0`, judges at
/// `frames`, commits at `2 * frames` and restarts at `3 * frames`, waits
/// in between, and the counter stays in `0 ..= 3 * frames` after each tick.
pub proof fn lemma_stage_cycle(progress: int, frames: int)
    requires
        1 <= frames,
        -1 <= progress <= 3 * frames,
    ensures
        (stage_at(progress, frames) == Stage::Propose) <==> progress == 0,
        (stage_at(progress, frames) == Stage::Judge) <==> progress == frames,
        (stage_at(progress, frames) == Stage::Commit) <==> progress == 2 * frames,
        (stage_at(progress, frames) == Stage::Restart) <==> (progress == 3 * frames || (
        frames == 1 && progress == -1)),
        0 <= next_progress(progress, frames) <= 3 * frames,
{
    if progress == -1 {
        if frames == 1 {
            assert(1int % 1 == 0 && 1int / 1 == 1);
        } else {
            assert(1int % frames == 1) by {
                vstd::arithmetic::div_mod::lemma_small_mod(1, frames as nat);
            }
        }
    } else {
        let q = progress / frames;
        let r = progress % frames;
        vstd::arithmetic::div_mod::lemma_fundamental_div_mod(progress, frames);
        vstd::arithmetic::div_mod::lemma_mod_bound(progress, frames);
        assert(0 <= q <= 3) by (nonlinear_arith)
            requires progress == frames * q + r, 0 <= r < frames, 0 <= progress <= 3 * frames;
        assert(r == 0 <==> progress == q * frames) by (nonlinear_arith)
            requires progress == frames * q + r, 0 <= r < frames;
        assert(r == 0 ==> (progress == 0 <==> q == 0)) by (nonlinear_arith)
            requires progress == frames * q + r, 1 <= frames;
        assert(r == 0 ==> (progress == frames <==> q == 1)) by (nonlinear_arith)
            requires progress == frames * q + r, 1 <= frames;
        assert(r == 0 ==> (progress == 2 * frames <==> q == 2)) by (nonlinear_arith)
            requires progress == frames * q + r, 1 <= frames;
        assert(r == 0 ==> (progress == 3 * frames <==> q == 3)) by (nonlinear_arith)
            requires progress == frames * q + r, 1 <= frames;
        assert(progress == 0 || progress == frames || progress == 2 * frames || progress == 3 * frames ==> r == 0) by (nonlinear_arith)
            requires progress == frames * q + r, 0 <= r < frames, 0 <= q <= 3;
    }
}

} // verus!
