//! An option-shaped wrapper over one opaque boundary value.

use vstd::prelude::*;

use crate::value::CallOutcome;
use crate::value::Value;
use crate::value::is_absent;
use crate::value::outcome_is_false;
use crate::value::outcome_is_true;
use vstd::pervasive::unreached;

verus! {

/// How a freshly constructed option wrapper reads a boundary value:
/// the null and undefined sentinels collapse to the empty variant,
/// every other value (including false, zero and the like) is present.
pub open spec fn opt_norm(v: Value) -> Option<Value> {
    if is_absent(v) {
        None
    } else {
        Some(v)
    }
}

/// The option produced by mapping a present payload, as a function of the
/// invocation outcome: a returned value is normalized as construction
/// would normalize it, and an invocation failure collapses to empty.
pub open spec fn opt_of_outcome(o: CallOutcome) -> Option<Value> {
    match o {
        CallOutcome::Returned(u) => opt_norm(u),
        CallOutcome::Failed => None,
    }
}

/// A wrapper representing "a boundary value may or may not be present".
///
/// Instances are immutable: every combinator that produces an option
/// produces a new instance, and every accessor takes the instance by
/// shared reference, so repeated calls on one instance always agree.
pub struct OptionJs {
    value: Option<Value>,
}

impl View for OptionJs {
    type V = Option<Value>;

    closed spec fn view(&self) -> Option<Value> {
        self.value
    }
}

impl OptionJs {
    /// Every option wrapper that this library hands out is normalized:
    /// a present payload is never an absence sentinel.
    pub open spec fn wf(self) -> bool {
        self@ matches Some(v) ==> !is_absent(v)
    }

    /// Wraps a boundary value: empty when the value is the null or the
    /// undefined sentinel, present otherwise.
    pub fn new(value: Value) -> (r: Self)
        ensures
            r@ == opt_norm(value),
            r.wf(),
    {
        let value = match value {
            Value::Null | Value::Undefined => None,
            _ => Some(value),
        };
        Self { value }
    }

    /// True exactly when a value is present.
    pub fn is_some(&self) -> (r: bool)
        ensures
            r == (self@ is Some),
    {
        self.value.is_some()
    }

    /// True exactly when no value is present.
    pub fn is_none(&self) -> (r: bool)
        ensures
            r == (self@ is None),
    {
        self.value.is_none()
    }

    /// True exactly when a value is present and the given predicate
    /// accepted it: the invocation must have returned the host's true
    /// value. An invocation failure, or a result that is not a boolean,
    /// counts against the predicate rather than surfacing to the caller.
    pub fn is_some_and<F: Fn(Value) -> CallOutcome>(&self, f: F) -> (r: bool)
        requires
            self@ matches Some(v) ==> call_requires(f, (v,)),
        ensures
            self@ is None ==> !r,
            self@ matches Some(v) ==> exists|o: CallOutcome|
                call_ensures(f, (v,), o) && r == outcome_is_true(o),
    {
        match self.value {
            Some(v) => {
                let o = f(v);
                let r = match o {
                    CallOutcome::Returned(Value::Bool(b)) => b,
                    _ => false,
                };
                proof {
                    assert(call_ensures(f, (v,), o) && r == outcome_is_true(o));
                }
                r
            },
            None => false,
        }
    }

    /// True when empty; on a present value, true exactly when the given
    /// predicate refuted it, that is, the invocation returned the host's
    /// false value. An invocation failure, or a result that is not a
    /// boolean, yields false, even though an empty option alone would
    /// have yielded true.
    pub fn is_none_or<F: Fn(Value) -> CallOutcome>(&self, f: F) -> (r: bool)
        requires
            self@ matches Some(v) ==> call_requires(f, (v,)),
        ensures
            self@ is None ==> r,
            self@ matches Some(v) ==> exists|o: CallOutcome|
                call_ensures(f, (v,), o) && r == outcome_is_false(o),
    {
        match self.value {
            Some(v) => {
                let o = f(v);
                let r = match o {
                    CallOutcome::Returned(Value::Bool(b)) => !b,
                    _ => false,
                };
                proof {
                    assert(call_ensures(f, (v,), o) && r == outcome_is_false(o));
                }
                r
            },
            None => true,
        }
    }

    /// The present value, or the given default when empty.
    pub fn unwrap_or(&self, default: Value) -> (r: Value)
        ensures
            self@ matches Some(v) ==> r == v,
            self@ is None ==> r == default,
    {
        match self.value {
            Some(v) => v,
            None => default,
        }
    }

    /// The present value, or the value the given producer computes when
    /// empty. A producer failure has no default to fall back to, so it is
    /// fatal rather than recovered: the producer's own contract must rule
    /// it out whenever the option may be empty.
    pub fn unwrap_or_else<F: Fn() -> CallOutcome>(&self, f: F) -> (r: Value)
        requires
            self@ is None ==> call_requires(f, ()),
            self@ is None ==> forall|o: CallOutcome| call_ensures(f, (), o) ==> o is Returned,
        ensures
            self@ matches Some(v) ==> r == v,
            self@ is None ==> call_ensures(f, (), CallOutcome::Returned(r)),
    {
        match self.value {
            Some(v) => v,
            None => {
                let o = f();
                match o {
                    CallOutcome::Returned(u) => u,
                    CallOutcome::Failed => unreached(),
                }
            },
        }
    }

    /// The present value, or the host's null sentinel when empty.
    pub fn unwrap_or_default(&self) -> (r: Value)
        ensures
            self@ matches Some(v) ==> r == v,
            self@ is None ==> r == Value::Null,
    {
        match self.value {
            Some(v) => v,
            None => Value::Null,
        }
    }

    /// Applies the given transform to the present value and wraps what it
    /// returned as a fresh construction would, so an absent result is
    /// normalized to empty; an empty input, or an invocation failure,
    /// yields the empty option without surfacing the failure.
    pub fn map<F: Fn(Value) -> CallOutcome>(&self, f: F) -> (r: OptionJs)
        requires
            self@ matches Some(v) ==> call_requires(f, (v,)),
        ensures
            r.wf(),
            self@ is None ==> r@ is None,
            self@ matches Some(v) ==> exists|o: CallOutcome|
                call_ensures(f, (v,), o) && r@ == opt_of_outcome(o),
    {
        match self.value {
            Some(v) => {
                let o = f(v);
                let r = match o {
                    CallOutcome::Returned(u) => OptionJs::new(u),
                    CallOutcome::Failed => OptionJs::new(Value::Null),
                };
                proof {
                    assert(call_ensures(f, (v,), o) && r@ == opt_of_outcome(o));
                }
                r
            },
            None => OptionJs::new(Value::Null),
        }
    }
}

/// Law: wrapping a value that is not an absence sentinel yields a present
/// option holding exactly that value; with the contract of `unwrap_or`,
/// `OptionJs::new(v).unwrap_or(d)` is `v` for every default `d`.
pub proof fn lemma_new_present(v: Value)
    requires
        !is_absent(v),
    ensures
        opt_norm(v) == Some(v),
{
}

/// Law: wrapping the null sentinel or the undefined sentinel yields the
/// empty option, so `is_none` returns true on it.
pub proof fn lemma_new_absent(v: Value)
    requires
        is_absent(v),
    ensures
        opt_norm(v) is None,
{
}

/// Law: mapping a present option through a callable that returns its
/// argument unchanged reproduces the present value. A present payload is
/// never an absence sentinel, so the identity outcome normalizes back to
/// the same present option; with the contracts of `map` and `unwrap_or`,
/// the mapped option unwraps to the original value for every default.
pub proof fn lemma_map_identity(v: Value)
    requires
        !is_absent(v),
    ensures
        opt_of_outcome(CallOutcome::Returned(v)) == Some(v),
{
}

} // verus!
