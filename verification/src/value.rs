//! The boundary value model: an opaque host value, and the outcome of
//! invoking a host callable on one.

use vstd::prelude::*;

verus! {

/// A value that crossed the boundary from the dynamically-typed host.
///
/// The host has two distinct representations of absence, a null sentinel
/// and an undefined sentinel; both are modelled here as their own variant,
/// because the constructors of the wrapper types treat them specially.
/// A host boolean is modelled with its truth value, because predicates
/// handed to the wrappers are judged by whether they returned a boolean.
/// Every other host value is an opaque handle that this library never
/// inspects: `Data` carries the host-side identity of such a value.
#[derive(Clone, Copy, PartialEq, Eq, Structural, Debug)]
pub enum Value {
    Null,
    Undefined,
    Bool(bool),
    Data(u64),
}

/// A value counts as absent at the boundary when it is the host's null
/// sentinel or its undefined sentinel; constructors collapse both into
/// the empty or failure variant.
pub open spec fn is_absent(v: Value) -> bool {
    v is Null || v is Undefined
}

/// The outcome of invoking a host callable: either it returned a value,
/// or the invocation failed (the callable threw or trapped). A failure is
/// never propagated by the wrappers; each operation collapses it into a
/// defined result of its own.
#[derive(Clone, Copy, PartialEq, Eq, Structural, Debug)]
pub enum CallOutcome {
    Returned(Value),
    Failed,
}

/// A predicate invocation counts as satisfied exactly when the callable
/// returned the host's true value; a failure or a non-boolean result
/// counts as not satisfied.
pub open spec fn outcome_is_true(o: CallOutcome) -> bool {
    o == CallOutcome::Returned(Value::Bool(true))
}

/// A predicate invocation counts as refuted exactly when the callable
/// returned the host's false value; a failure or a non-boolean result
/// counts as not refuted.
pub open spec fn outcome_is_false(o: CallOutcome) -> bool {
    o == CallOutcome::Returned(Value::Bool(false))
}

} // verus!
