//! Trusted layer over `atomic_take::AtomicTake`, the take-once slot that
//! guards each registered callback.

use atomic_take::AtomicTake;
use vstd::prelude::*;

verus! {

#[verifier::external_type_specification]
#[verifier::external_body]
#[verifier::reject_recursive_types(T)]
pub struct ExAtomicTake<T>(AtomicTake<T>);

/// What a guard currently holds: the callback identifier it was built with,
/// or `None` once that identifier has been taken out.
pub uninterp spec fn guard_slot(g: AtomicTake<u64>) -> Option<u64>;

/// Relies on `atomic_take::AtomicTake::new`: the fresh guard holds exactly
/// the value it was built with.
#[verifier::external_body]
pub(crate) fn guard_new(id: u64) -> (g: AtomicTake<u64>)
    ensures
        guard_slot(g) == Some(id),
{
    AtomicTake::new(id)
}

/// Relies on `atomic_take::AtomicTake::take`: exactly one take receives the
/// stored value; the guard is empty afterwards, so every later take returns
/// `None`.
#[verifier::external_body]
pub(crate) fn guard_take(g: &mut AtomicTake<u64>) -> (r: Option<u64>)
    ensures
        r == guard_slot(*old(g)),
        guard_slot(*final(g)) is None,
{
    g.take()
}

} // verus!
