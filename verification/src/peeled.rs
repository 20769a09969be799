use vstd::prelude::*;
use vstd::pervasive::cloned;

use crate::peel::Peel;

verus! {

/// The result of peeling an enum: either the residual (non-peeled) variants,
/// or the peeled-off variant. Exactly one of the two, fixed at construction;
/// there is no third state and no uninitialized state.
#[derive(Debug, PartialEq, Eq)]
pub enum Peeled<P, R> {
    Peeled(P),
    Residual(R),
}

/// The sum type's tag is the classification, so peeling is an identity-like
/// unwrap: `Residual(r)` peels to the residual arm carrying `r`, and
/// `Peeled(p)` peels to the peeled arm carrying `p`.
impl<P, R> Peel for Peeled<P, R> {
    type Peeled = P;
    type Residual = R;

    open spec fn peel_spec(self) -> Result<R, P> {
        match self {
            Peeled::Residual(residual) => Ok(residual),
            Peeled::Peeled(peeled) => Err(peeled),
        }
    }

    fn peel(self) -> (r: Result<R, P>)
        ensures
            r == self.peel_spec(),
    {
        match self {
            Peeled::Residual(residual) => Ok(residual),
            Peeled::Peeled(peeled) => Err(peeled),
        }
    }
}

/// Structural clone: the copy carries the same variant tag, and its payload is
/// a clone of the original's payload.
impl<P: Clone, R: Clone> Clone for Peeled<P, R> {
    fn clone(&self) -> (res: Self)
        ensures
            *self matches Peeled::Peeled(p) ==> (res matches Peeled::Peeled(q) && cloned::<P>(
                p,
                q,
            )),
            *self matches Peeled::Residual(r) ==> (res matches Peeled::Residual(s) && cloned::<R>(
                r,
                s,
            )),
    {
        match self {
            Peeled::Peeled(peeled) => Peeled::Peeled(peeled.clone()),
            Peeled::Residual(residual) => Peeled::Residual(residual.clone()),
        }
    }
}

/// Identity round-trip law: constructing either variant and peeling it returns
/// the very payload in the matching arm, for every payload value.
pub proof fn lemma_peeled_roundtrip<P, R>(peeled: P, residual: R)
    ensures
        Peeled::<P, R>::Peeled(peeled).peel_spec() == Err::<R, P>(peeled),
        Peeled::<P, R>::Residual(residual).peel_spec() == Ok::<R, P>(residual),
{
}

} // verus!
