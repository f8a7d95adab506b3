//! The runtime value model and the coercion of boolean-position inputs.
use vstd::prelude::*;

verus! {

/// A runtime value. `Boolean(None)` is the boolean "unknown"; `Null` is the
/// untyped absence marker, accepted wherever a boolean is expected.
#[derive(Debug, Clone, PartialEq, Eq, Hash)]
pub enum DataValue {
    Null,
    Boolean(Option<bool>),
    Int64(Option<i64>),
    Utf8(Option<String>),
}

/// Failures of evaluation and of operator reconstruction.
#[derive(Debug, Clone, Copy, PartialEq, Eq, Hash)]
pub enum EvaluatorError {
    /// A value other than `Boolean` or `Null` stood at a boolean position.
    TypeMismatch,
    /// A wire tag names no known operator.
    UnknownTag,
}

/// Whether `v` may stand at a boolean position.
pub open spec fn is_boolean_input(v: DataValue) -> bool {
    v is Boolean || v is Null
}

/// The tri-state carried by a boolean-position input (`None` is unknown).
pub open spec fn tri_of(v: DataValue) -> Option<bool> {
    match v {
        DataValue::Boolean(t) => t,
        _ => None,
    }
}

/// Reads a boolean-position input as a tri-state, with `Null` read as unknown.
pub fn tri_state(v: &DataValue) -> (r: Result<Option<bool>, EvaluatorError>)
    ensures
        is_boolean_input(*v) ==> r == Ok::<Option<bool>, EvaluatorError>(tri_of(*v)),
        !is_boolean_input(*v) ==> r == Err::<Option<bool>, EvaluatorError>(EvaluatorError::TypeMismatch),
{
    match v {
        DataValue::Boolean(t) => Ok(*t),
        DataValue::Null => Ok(None),
        _ => Err(EvaluatorError::TypeMismatch),
    }
}

} // verus!
