use vstd::prelude::*;

verus! {

/// Peel off a specific variant from an enum type.
///
/// `peel()` consumes the value and returns `Ok` with the residual for
/// non-peeled variants, or `Err` with the peeled payload for the intercepted
/// variant. The classification is total: every value lands in exactly one arm,
/// and the payload is carried over verbatim, never dropped or duplicated.
///
/// Which source variants map to which arm is the implementer's policy. Each
/// implementer records that policy once, as the mathematical function
/// `peel_spec`, and `peel` is bound to return exactly what it says.
pub trait Peel: Sized {
    /// The intercepted shape: what the peeled variant carries.
    type Peeled;

    /// Everything else, normalized: what keeps propagating.
    type Residual;

    /// The implementer's classification policy as a total function.
    ///
    /// The default is an unconstrained placeholder: a verified implementer
    /// overrides it, since `peel` must return exactly what it says.
    open spec fn peel_spec(self) -> Result<Self::Residual, Self::Peeled> {
        arbitrary()
    }

    /// Classifies `self` into exactly one arm, as `peel_spec` dictates.
    fn peel(self) -> (r: Result<Self::Residual, Self::Peeled>)
        ensures
            r == self.peel_spec(),
    ;
}

/// Blanket impl: peeling a `Result<T, E>` where `E: Peel`
/// produces `Result<Result<T, E::Residual>, E::Peeled>`.
///
/// A success is always folded into the residual arm, re-wrapped as a success
/// of the residual-typed `Result`; a failure is classified by `E`'s own
/// `peel`, and a peeled outcome is returned directly, not wrapped again.
impl<T, E: Peel> Peel for Result<T, E> {
    type Peeled = E::Peeled;
    type Residual = Result<T, E::Residual>;

    open spec fn peel_spec(self) -> Result<Result<T, E::Residual>, E::Peeled> {
        match self {
            Ok(v) => Ok(Ok(v)),
            Err(e) => match e.peel_spec() {
                Ok(residual) => Ok(Err(residual)),
                Err(peeled) => Err(peeled),
            },
        }
    }

    fn peel(self) -> (r: Result<Result<T, E::Residual>, E::Peeled>)
        ensures
            r == self.peel_spec(),
    {
        match self {
            Ok(v) => Ok(Ok(v)),
            Err(e) => match e.peel() {
                Ok(residual) => Ok(Err(residual)),
                Err(peeled) => Err(peeled),
            },
        }
    }
}

/// Lift success law: peeling a success container always yields the residual
/// arm, carrying the success value re-wrapped unchanged; a success is never
/// treated as peeled.
pub proof fn lemma_lift_success<T, E: Peel>(v: T)
    ensures
        Ok::<T, E>(v).peel_spec() == Ok::<Result<T, E::Residual>, E::Peeled>(
            Ok::<T, E::Residual>(v),
        ),
{
}

/// Lift failure/residual law: when the carried error peels to a residual,
/// peeling the failure container yields the residual arm, carrying that
/// residual re-wrapped as a failure.
pub proof fn lemma_lift_failure_residual<T, E: Peel>(e: E, residual: E::Residual)
    requires
        e.peel_spec() == Ok::<E::Residual, E::Peeled>(residual),
    ensures
        Err::<T, E>(e).peel_spec() == Ok::<Result<T, E::Residual>, E::Peeled>(
            Err::<T, E::Residual>(residual),
        ),
{
}

/// Lift failure/peeled law: when the carried error peels to the intercepted
/// payload, peeling the failure container yields that payload directly,
/// flattened rather than wrapped in the container again.
pub proof fn lemma_lift_failure_peeled<T, E: Peel>(e: E, peeled: E::Peeled)
    requires
        e.peel_spec() == Err::<E::Residual, E::Peeled>(peeled),
    ensures
        Err::<T, E>(e).peel_spec() == Err::<Result<T, E::Residual>, E::Peeled>(peeled),
{
}

} // verus!
