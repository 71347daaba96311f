//! Control logic of a daylight-coefficient path tracer.
//!
//! The tracer estimates, for each sensor ray, how much of the light that
//! reaches it comes from each patch of a subdivided sky. This library holds
//! the decisions of that tracer: its configuration, what happens to a ray
//! given what it met, how many sub-rays a bounce spawns, how the sample
//! denominator grows along a path, and the progress of a sensor's pass.
//! The geometry, the materials and the energy arithmetic stay with the caller.

mod factory;
mod progress;
mod trace;

pub use factory::DCFactory;
pub use progress::progress_percent;
pub use trace::{
    branch_count, int_sqrt, RayOutcome, SurfaceSide, TraceState, TraceStep,
};
