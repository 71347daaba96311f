use vstd::prelude::*;

verus! {

/// Sensible default for the number of first-bounce samples.
pub const DEFAULT_AMBIENT_SAMPLES: usize = 10;

/// Default number of shadow samples; kept as configuration only.
pub const DEFAULT_SHADOW_SAMPLES: usize = 900;

/// Default weight threshold under which Russian roulette applies, in units
/// of one billionth (10_000 billionths is 1e-5).
pub const DEFAULT_LIMIT_WEIGHT_NANO: u64 = 10_000;

/// Recursion depth used when a full daylight-coefficient matrix is built.
pub const MATRIX_MAX_DEPTH: usize = 3;

/// First-bounce fan-out used when a full daylight-coefficient matrix is built.
pub const MATRIX_AMBIENT_SAMPLES: usize = 3000;

/// Configuration of the daylight-coefficient tracer.
///
/// `n_bins` is the number of sky patches that the sky subdivision `mf`
/// yields; it is fixed when the factory is made. The weight threshold is
/// held as an integer count of billionths.
pub struct DCFactory {
    pub mf: usize,
    pub n_bins: usize,
    pub max_depth: usize,
    pub n_shadow_samples: usize,
    pub n_ambient_samples: usize,
    pub limit_weight_nano: u64,
}

impl DCFactory {
    /// A factory for sky subdivision `mf`, whose sky binner has `n_bins`
    /// patches, with every other setting at its default.
    pub fn new(mf: usize, n_bins: usize) -> (r: DCFactory)
        ensures
            r.mf == mf,
            r.n_bins == n_bins,
            r.max_depth == 0,
            r.n_shadow_samples == DEFAULT_SHADOW_SAMPLES,
            r.n_ambient_samples == DEFAULT_AMBIENT_SAMPLES,
            r.limit_weight_nano == DEFAULT_LIMIT_WEIGHT_NANO,
    {
        DCFactory {
            mf,
            n_bins,
            max_depth: 0,
            n_shadow_samples: DEFAULT_SHADOW_SAMPLES,
            n_ambient_samples: DEFAULT_AMBIENT_SAMPLES,
            limit_weight_nano: DEFAULT_LIMIT_WEIGHT_NANO,
        }
    }

    /// The configuration used to build a whole matrix: depth three and
    /// three thousand first-bounce samples, the rest as in `new`.
    pub fn for_matrix(mf: usize, n_bins: usize) -> (r: DCFactory)
        ensures
            r.mf == mf,
            r.n_bins == n_bins,
            r.max_depth == MATRIX_MAX_DEPTH,
            r.n_shadow_samples == DEFAULT_SHADOW_SAMPLES,
            r.n_ambient_samples == MATRIX_AMBIENT_SAMPLES,
            r.limit_weight_nano == DEFAULT_LIMIT_WEIGHT_NANO,
    {
        DCFactory {
            max_depth: MATRIX_MAX_DEPTH,
            n_ambient_samples: MATRIX_AMBIENT_SAMPLES,
            ..DCFactory::new(mf, n_bins)
        }
    }

    /// Whether Russian roulette is enabled at all (a positive threshold).
    pub fn roulette_enabled(&self) -> (r: bool)
        ensures
            r == (self.limit_weight_nano > 0),
    {
        self.limit_weight_nano > 0
    }
}

} // verus!
