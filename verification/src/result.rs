//! A result-shaped wrapper over one opaque boundary value.

use vstd::prelude::*;

use crate::option::OptionJs;
use crate::option::opt_norm;
use crate::value::CallOutcome;
use crate::value::Value;
use crate::value::is_absent;
use crate::value::outcome_is_true;

verus! {

/// How a freshly constructed result wrapper reads a boundary value: the
/// null and undefined sentinels collapse to a failure holding the null
/// sentinel, every other value is a success. A result can therefore
/// never be constructed directly in the failure variant with a
/// caller-chosen payload.
pub open spec fn res_norm(v: Value) -> Result<Value, Value> {
    if is_absent(v) {
        Err(Value::Null)
    } else {
        Ok(v)
    }
}

/// The result produced from an invocation outcome: a returned value is
/// normalized as construction would normalize it, and an invocation
/// failure collapses to the degenerate failure, a construction from the
/// null sentinel.
pub open spec fn res_of_outcome(o: CallOutcome) -> Result<Value, Value> {
    match o {
        CallOutcome::Returned(u) => res_norm(u),
        CallOutcome::Failed => res_norm(Value::Null),
    }
}

/// As `res_of_outcome`, except that an invocation failure falls back to a
/// construction from the given default instead of the null sentinel.
pub open spec fn res_of_outcome_or(o: CallOutcome, default: Value) -> Result<Value, Value> {
    match o {
        CallOutcome::Returned(u) => res_norm(u),
        CallOutcome::Failed => res_norm(default),
    }
}

/// The option that projecting a result on its success side yields: the
/// success payload wrapped as an option construction would wrap it, and
/// empty on failure.
pub open spec fn ok_proj(rv: Result<Value, Value>) -> Option<Value> {
    match rv {
        Ok(v) => opt_norm(v),
        Err(_) => None,
    }
}

/// The option that projecting a result on its failure side yields: the
/// failure payload wrapped as an option construction would wrap it, and
/// empty on success.
pub open spec fn err_proj(rv: Result<Value, Value>) -> Option<Value> {
    match rv {
        Ok(_) => None,
        Err(e) => opt_norm(e),
    }
}

/// A wrapper representing "an operation produced a success value or a
/// failure value".
///
/// Instances are immutable, like the option wrapper: combinators produce
/// new instances and accessors take the instance by shared reference, so
/// repeated calls on one instance always agree.
pub struct ResultJs {
    value: Result<Value, Value>,
}

impl View for ResultJs {
    type V = Result<Value, Value>;

    closed spec fn view(&self) -> Result<Value, Value> {
        self.value
    }
}

impl ResultJs {
    /// Every result wrapper that this library hands out is normalized: a
    /// success payload is never an absence sentinel, and a failure payload
    /// is always the null sentinel, since every combinator builds its
    /// result by a fresh construction.
    pub open spec fn wf(self) -> bool {
        &&& self@ matches Ok(v) ==> !is_absent(v)
        &&& self@ matches Err(e) ==> e == Value::Null
    }

    /// Wraps a boundary value: a failure holding the null sentinel when
    /// the value is the null or the undefined sentinel, a success
    /// otherwise.
    pub fn new(value: Value) -> (r: Self)
        ensures
            r@ == res_norm(value),
            r.wf(),
    {
        let value = match value {
            Value::Null | Value::Undefined => Err(Value::Null),
            _ => Ok(value),
        };
        Self { value }
    }

    /// True exactly when the result is a success.
    pub fn is_ok(&self) -> (r: bool)
        ensures
            r == (self@ is Ok),
    {
        self.value.is_ok()
    }

    /// True exactly when the result is a failure.
    pub fn is_err(&self) -> (r: bool)
        ensures
            r == (self@ is Err),
    {
        self.value.is_err()
    }

    /// True exactly when the result is a success and the given predicate
    /// accepted its payload: the invocation must have returned the host's
    /// true value. An invocation failure, or a result that is not a
    /// boolean, counts against the predicate rather than surfacing.
    pub fn is_ok_and<F: Fn(Value) -> CallOutcome>(&self, f: F) -> (r: bool)
        requires
            self@ matches Ok(v) ==> call_requires(f, (v,)),
        ensures
            self@ is Err ==> !r,
            self@ matches Ok(v) ==> exists|o: CallOutcome|
                call_ensures(f, (v,), o) && r == outcome_is_true(o),
    {
        match self.value {
            Ok(v) => {
                let o = f(v);
                let r = match o {
                    CallOutcome::Returned(Value::Bool(b)) => b,
                    _ => false,
                };
                proof {
                    assert(call_ensures(f, (v,), o) && r == outcome_is_true(o));
                }
                r
            },
            Err(_) => false,
        }
    }

    /// True exactly when the result is a failure and the given predicate
    /// accepted its payload, under the same collapse policy as
    /// `is_ok_and`.
    pub fn is_err_and<F: Fn(Value) -> CallOutcome>(&self, f: F) -> (r: bool)
        requires
            self@ matches Err(e) ==> call_requires(f, (e,)),
        ensures
            self@ is Ok ==> !r,
            self@ matches Err(e) ==> exists|o: CallOutcome|
                call_ensures(f, (e,), o) && r == outcome_is_true(o),
    {
        match self.value {
            Ok(_) => false,
            Err(e) => {
                let o = f(e);
                let r = match o {
                    CallOutcome::Returned(Value::Bool(b)) => b,
                    _ => false,
                };
                proof {
                    assert(call_ensures(f, (e,), o) && r == outcome_is_true(o));
                }
                r
            },
        }
    }

    /// Projects the success side into an option: a success payload becomes
    /// a present option, a failure becomes the empty option.
    pub fn ok(self) -> (r: OptionJs)
        ensures
            r@ == ok_proj(self@),
            r.wf(),
    {
        match self.value {
            Ok(v) => OptionJs::new(v),
            Err(_) => OptionJs::new(Value::Null),
        }
    }

    /// Projects the failure side into an option, symmetrically to `ok`.
    /// A failure payload is always the null sentinel on a normalized
    /// result, so on such a result this projection is always empty.
    pub fn err(self) -> (r: OptionJs)
        ensures
            r@ == err_proj(self@),
            r.wf(),
    {
        match self.value {
            Ok(_) => OptionJs::new(Value::Null),
            Err(e) => OptionJs::new(e),
        }
    }

    /// Applies the given transform to the success payload and wraps what
    /// it returned as a fresh construction would. A failure input does not
    /// keep its payload: it collapses to the degenerate failure, as does
    /// an invocation failure.
    pub fn map_ok<F: Fn(Value) -> CallOutcome>(&self, f: F) -> (r: ResultJs)
        requires
            self@ matches Ok(v) ==> call_requires(f, (v,)),
        ensures
            r.wf(),
            self@ is Err ==> r@ == res_norm(Value::Null),
            self@ matches Ok(v) ==> exists|o: CallOutcome|
                call_ensures(f, (v,), o) && r@ == res_of_outcome(o),
    {
        match self.value {
            Ok(v) => {
                let o = f(v);
                let r = match o {
                    CallOutcome::Returned(u) => ResultJs::new(u),
                    CallOutcome::Failed => ResultJs::new(Value::Null),
                };
                proof {
                    assert(call_ensures(f, (v,), o) && r@ == res_of_outcome(o));
                }
                r
            },
            Err(_) => ResultJs::new(Value::Null),
        }
    }

    /// Applies the given transform to the failure payload and wraps what
    /// it returned as a fresh construction would, so the transformed
    /// failure comes back on the success side unless it is an absence
    /// sentinel. A success input collapses to the degenerate failure, as
    /// does an invocation failure.
    pub fn map_err<F: Fn(Value) -> CallOutcome>(&self, f: F) -> (r: ResultJs)
        requires
            self@ matches Err(e) ==> call_requires(f, (e,)),
        ensures
            r.wf(),
            self@ is Ok ==> r@ == res_norm(Value::Null),
            self@ matches Err(e) ==> exists|o: CallOutcome|
                call_ensures(f, (e,), o) && r@ == res_of_outcome(o),
    {
        match self.value {
            Ok(_) => ResultJs::new(Value::Null),
            Err(e) => {
                let o = f(e);
                let r = match o {
                    CallOutcome::Returned(u) => ResultJs::new(u),
                    CallOutcome::Failed => ResultJs::new(Value::Null),
                };
                proof {
                    assert(call_ensures(f, (e,), o) && r@ == res_of_outcome(o));
                }
                r
            },
        }
    }

    /// Applies the given transform to the success payload and returns the
    /// plain value it produced, the null sentinel if the invocation
    /// failed, or the given default if the result is a failure.
    pub fn map_or<F: Fn(Value) -> CallOutcome>(&self, default: Value, f: F) -> (r: Value)
        requires
            self@ matches Ok(v) ==> call_requires(f, (v,)),
        ensures
            self@ is Err ==> r == default,
            self@ matches Ok(v) ==> exists|o: CallOutcome|
                call_ensures(f, (v,), o) && r == value_of_outcome(o),
    {
        match self.value {
            Ok(v) => {
                let o = f(v);
                let r = match o {
                    CallOutcome::Returned(u) => u,
                    CallOutcome::Failed => Value::Null,
                };
                proof {
                    assert(call_ensures(f, (v,), o) && r == value_of_outcome(o));
                }
                r
            },
            Err(_) => default,
        }
    }

    /// Applies the given transform to the failure payload and wraps what
    /// it returned as a fresh construction would; an invocation failure
    /// falls back to a fresh construction from the given default, and so
    /// does a success input.
    pub fn map_err_or<F: Fn(Value) -> CallOutcome>(&self, f: F, default: Value) -> (r: ResultJs)
        requires
            self@ matches Err(e) ==> call_requires(f, (e,)),
        ensures
            r.wf(),
            self@ is Ok ==> r@ == res_norm(default),
            self@ matches Err(e) ==> exists|o: CallOutcome|
                call_ensures(f, (e,), o) && r@ == res_of_outcome_or(o, default),
    {
        match self.value {
            Ok(_) => ResultJs::new(default),
            Err(e) => {
                let o = f(e);
                let r = match o {
                    CallOutcome::Returned(u) => ResultJs::new(u),
                    CallOutcome::Failed => ResultJs::new(default),
                };
                proof {
                    assert(call_ensures(f, (e,), o) && r@ == res_of_outcome_or(o, default));
                }
                r
            },
        }
    }
}

/// The plain value produced from an invocation outcome where no wrapping
/// follows: the returned value itself, or the null sentinel on an
/// invocation failure.
pub open spec fn value_of_outcome(o: CallOutcome) -> Value {
    match o {
        CallOutcome::Returned(u) => u,
        CallOutcome::Failed => Value::Null,
    }
}

/// Law: the success projection of a normalized result is a present option
/// exactly when the result is a success; with the contracts of `ok`,
/// `is_some` and `is_ok`, `ResultJs::new(v).ok().is_some()` agrees with
/// `ResultJs::new(v).is_ok()` for every boundary value `v`.
pub proof fn lemma_ok_projection(rv: Result<Value, Value>)
    requires
        rv matches Ok(v) ==> !is_absent(v),
    ensures
        (ok_proj(rv) is Some) == (rv is Ok),
{
}

/// Law: a directly constructed result is a failure exactly on the null
/// and undefined sentinels, and its failure payload is then always the
/// null sentinel, never a caller-chosen value.
pub proof fn lemma_new_err(v: Value)
    ensures
        (res_norm(v) is Err) == is_absent(v),
        res_norm(v) matches Err(e) ==> e == Value::Null,
{
}

} // verus!
