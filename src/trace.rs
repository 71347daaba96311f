use vstd::prelude::*;
use crate::factory::DCFactory;

verus! {

/// The side of a surface that a ray struck.
#[derive(Clone, Copy, Debug, PartialEq, Eq, Structural)]
pub enum SurfaceSide {
    Front,
    Back,
    NonApplicable,
}

/// What a ray met when it was cast into the scene.
#[derive(Clone, Copy, Debug, PartialEq, Eq, Structural)]
pub enum RayOutcome {
    /// The ray left the scene in a direction that the sky binner maps to `bin`.
    Escaped { bin: usize },
    /// The ray struck an object whose two sides use the given material indices.
    Hit { side: SurfaceSide, front_material: usize, back_material: usize },
}

/// What the tracer does with a ray.
#[derive(Clone, Copy, Debug, PartialEq, Eq, Structural)]
pub enum TraceStep {
    /// The path is deeper than allowed: it contributes nothing further.
    Truncated,
    /// Add the path's weight over its denominator to sky patch `bin`.
    Deposit { bin: usize },
    /// The side struck is ambiguous: the branch contributes nothing.
    Dropped,
    /// Scatter off the surface using the material at index `material`.
    Shade { material: usize },
}

/// Where a branch stands in the recursion: its bounce depth and the product
/// of sample counts that its contribution is divided by.
#[derive(Clone, Copy, Debug, PartialEq, Eq, Structural)]
pub struct TraceState {
    pub depth: usize,
    pub denom: u64,
}

/// The step taken by a ray at `depth` that met `outcome`.
pub open spec fn step_of(max_depth: nat, depth: nat, outcome: RayOutcome) -> TraceStep {
    if depth > max_depth {
        TraceStep::Truncated
    } else {
        match outcome {
            RayOutcome::Escaped { bin } => TraceStep::Deposit { bin },
            RayOutcome::Hit { side, front_material, back_material } => match side {
                SurfaceSide::Front => TraceStep::Shade { material: front_material },
                SurfaceSide::Back => TraceStep::Shade { material: back_material },
                SurfaceSide::NonApplicable => TraceStep::Dropped,
            },
        }
    }
}

/// The state of a sub-ray spawned from `s` by a bounce of `n` sub-rays.
pub open spec fn child_of(s: TraceState, n: nat) -> (int, int) {
    (s.depth + 1, s.denom * n)
}

/// The integer square root: the `r` with `r * r <= m < (r + 1) * (r + 1)`.
pub open spec fn is_int_sqrt(m: nat, r: nat) -> bool {
    r * r <= m && m < (r + 1) * (r + 1)
}

/// Integer square root of `m`, found by bisection.
pub fn int_sqrt(m: u64) -> (r: u64)
    ensures
        is_int_sqrt(m as nat, r as nat),
        r < 0x1_0000_0000,
{
    let mut lo: u64 = 0;
    let mut hi: u64 = 0x1_0000_0000;
    assert(hi * hi > m) by (nonlinear_arith)
        requires
            hi == 0x1_0000_0000u64,
            m <= u64::MAX,
    ;
    while hi - lo > 1
        invariant
            lo < hi <= 0x1_0000_0000,
            lo * lo <= m,
            m < hi * hi,
        decreases hi - lo,
    {
        let mid: u64 = lo + (hi - lo) / 2;
        assert(mid * mid <= u64::MAX) by (nonlinear_arith)
            requires
                mid < 0x1_0000_0000u64,
        ;
        if mid * mid <= m {
            lo = mid;
        } else {
            hi = mid;
        }
    }
    assert(hi == lo + 1);
    lo
}

/// The number of sub-rays for a weighted sample count `w >= 0`, given
/// `s = floor(sqrt(4 * w))`: `round(sqrt(w))`, never below one.
pub open spec fn count_from_root(s: nat) -> nat {
    if s < 1 {
        1
    } else {
        (s + 1) / 2
    }
}

/// How many sub-rays a bounce spawns.
///
/// An emitting surface spawns none. Otherwise the count is
/// `max(1, round(sqrt(w)))` with `w = n_ambient_samples * weight`. The
/// caller hands in `quad_weighted = floor(4 * w)` (zero where `w` is
/// negative): the integer square root of that is `floor(2 * sqrt(w))`, and
/// half of one more than it, rounded down, is `sqrt(w)` rounded to nearest.
pub fn branch_count(emits_light: bool, quad_weighted: u64) -> (r: u64)
    ensures
        emits_light ==> r == 0,
        !emits_light ==> exists|s: nat|
            is_int_sqrt(quad_weighted as nat, s) && r == count_from_root(s),
{
    if emits_light {
        0
    } else {
        let s = int_sqrt(quad_weighted);
        let r: u64 = if s < 1 { 1 } else { (s + 1) / 2 };
        assert(is_int_sqrt(quad_weighted as nat, s as nat) && r == count_from_root(s as nat));
        r
    }
}

impl DCFactory {
    /// Whether a branch at this state is past the depth budget.
    pub fn is_truncated(&self, state: &TraceState) -> (r: bool)
        ensures
            r == (state.depth > self.max_depth),
    {
        state.depth > self.max_depth
    }

    /// What to do with a ray cast at `state` that met `outcome`.
    pub fn next_step(&self, state: &TraceState, outcome: &RayOutcome) -> (r: TraceStep)
        requires
            outcome matches RayOutcome::Escaped { bin } ==> bin < self.n_bins,
        ensures
            r == step_of(self.max_depth as nat, state.depth as nat, *outcome),
            r matches TraceStep::Deposit { bin } ==> bin < self.n_bins,
    {
        if state.depth > self.max_depth {
            return TraceStep::Truncated;
        }
        match *outcome {
            RayOutcome::Escaped { bin } => TraceStep::Deposit { bin },
            RayOutcome::Hit { side, front_material, back_material } => match side {
                SurfaceSide::Front => TraceStep::Shade { material: front_material },
                SurfaceSide::Back => TraceStep::Shade { material: back_material },
                SurfaceSide::NonApplicable => TraceStep::Dropped,
            },
        }
    }

    /// The state of a first-bounce ray from a sensor: depth zero, divided
    /// by the number of first-bounce samples.
    pub fn first_bounce(&self) -> (r: TraceState)
        ensures
            r.depth == 0,
            r.denom == self.n_ambient_samples,
    {
        TraceState { depth: 0, denom: self.n_ambient_samples as u64 }
    }

    /// The state of each of the `n` sub-rays spawned by a bounce at `state`:
    /// one level deeper, its denominator multiplied by `n`.
    pub fn child(&self, state: &TraceState, n: u64) -> (r: TraceState)
        requires
            state.depth < usize::MAX,
            state.denom * n <= u64::MAX,
        ensures
            (r.depth as int, r.denom as int) == child_of(*state, n as nat),
    {
        TraceState { depth: state.depth + 1, denom: state.denom * n }
    }

    /// Whether a sub-ray is traced further. A sub-ray whose weight is under
    /// the threshold (`below_limit`) goes on only when the roulette draw
    /// accepted it (`accepted`: the uniform draw was at most the weight over
    /// the threshold); with roulette off, every sub-ray goes on.
    pub fn continues_branch(&self, below_limit: bool, accepted: bool) -> (r: bool)
        ensures
            r == (!(self.limit_weight_nano > 0 && below_limit) || accepted),
    {
        if self.roulette_enabled() && below_limit {
            accepted
        } else {
            true
        }
    }
}

/// Depth cutoff: the sub-rays of a bounce made at or past the depth budget
/// contribute nothing, whatever they meet, and never scatter.
pub proof fn lemma_depth_cutoff(max_depth: nat, state: TraceState, n: nat, outcome: RayOutcome)
    requires
        state.depth >= max_depth,
    ensures
        step_of(max_depth, child_of(state, n).0 as nat, outcome) == TraceStep::Truncated,
{
}

/// With a depth budget of zero, a first-bounce ray scatters at most once:
/// every sub-ray of its first intersection, whatever the branch count and
/// whatever it meets, is truncated, so nothing is traced past that
/// intersection.
pub proof fn lemma_zero_budget_stops_at_first_hit(
    f: DCFactory,
    n: nat,
    outcome: RayOutcome,
)
    requires
        f.max_depth == 0,
    ensures
        ({
            let first = TraceState { depth: 0, denom: f.n_ambient_samples as u64 };
            step_of(f.max_depth as nat, child_of(first, n).0 as nat, outcome)
                == TraceStep::Truncated
        }),
{
}

/// Escape binning: a ray within the depth budget that escapes in a direction
/// of patch `bin` deposits into `bin` and into no other patch.
pub proof fn lemma_escape_deposits_in_its_bin(max_depth: nat, depth: nat, bin: usize, other: usize)
    requires
        depth <= max_depth,
        other != bin,
    ensures
        step_of(max_depth, depth, RayOutcome::Escaped { bin }) == (TraceStep::Deposit { bin }),
        step_of(max_depth, depth, RayOutcome::Escaped { bin }) != (TraceStep::Deposit { bin: other }),
{
}

} // verus!
