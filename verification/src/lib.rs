//! Splitting an error value into one variant to intercept ("peeled") and the
//! rest to keep propagating ("residual").
//!
//! The [`Peel`] trait is the capability: a consuming, total classification of a
//! value into exactly one of two arms. A blanket impl lifts the capability from
//! an error type onto any `Result` carrying that error, so callers can peel a
//! `Result` directly and let the intercepted case short-circuit via `?`.
//! [`Peeled`] is a ready-made two-variant sum type satisfying the capability.

mod peel;
mod peeled;

pub use peel::Peel;
pub use peel::lemma_lift_failure_peeled;
pub use peel::lemma_lift_failure_residual;
pub use peel::lemma_lift_success;
pub use peeled::Peeled;
pub use peeled::lemma_peeled_roundtrip;
