//! The operator capabilities and the five boolean operators.
use vstd::prelude::*;

use crate::logic::{and3, eq3, neq3, not3, or3};
use crate::value::{is_boolean_input, tri_of, tri_state, DataValue, EvaluatorError};

verus! {

/// What a unary operator applied to `v` yields, given the tri-state `t` it
/// computes from a boolean-position input.
pub open spec fn unary_result(v: DataValue, t: Option<bool>) -> Result<DataValue, EvaluatorError> {
    if is_boolean_input(v) {
        Ok(DataValue::Boolean(t))
    } else {
        Err(EvaluatorError::TypeMismatch)
    }
}

/// What a binary operator applied to `l` and `r` yields, given the tri-state
/// `t` it computes when both are boolean-position inputs.
pub open spec fn binary_result(l: DataValue, r: DataValue, t: Option<bool>) -> Result<
    DataValue,
    EvaluatorError,
> {
    if is_boolean_input(l) && is_boolean_input(r) {
        Ok(DataValue::Boolean(t))
    } else {
        Err(EvaluatorError::TypeMismatch)
    }
}

/// A pure, stateless operator of one argument.
pub trait UnaryEvaluator {
    /// The result of applying the operator to `value`.
    spec fn spec_unary_eval(&self, value: DataValue) -> Result<DataValue, EvaluatorError>;

    fn unary_eval(&self, value: &DataValue) -> (r: Result<DataValue, EvaluatorError>)
        ensures
            r == self.spec_unary_eval(*value),
    ;
}

/// A pure, stateless operator of two arguments.
pub trait BinaryEvaluator {
    /// The result of applying the operator to `left` and `right`.
    spec fn spec_binary_eval(&self, left: DataValue, right: DataValue) -> Result<
        DataValue,
        EvaluatorError,
    >;

    fn binary_eval(&self, left: &DataValue, right: &DataValue) -> (r: Result<
        DataValue,
        EvaluatorError,
    >)
        ensures
            r == self.spec_binary_eval(*left, *right),
    ;
}

/// Three-valued NOT.
#[derive(Debug, Clone, Copy, PartialEq, Eq, Hash, Default)]
pub struct BooleanNotUnaryEvaluator;

/// Three-valued AND: false absorbs.
#[derive(Debug, Clone, Copy, PartialEq, Eq, Hash, Default)]
pub struct BooleanAndBinaryEvaluator;

/// Three-valued OR: true absorbs.
#[derive(Debug, Clone, Copy, PartialEq, Eq, Hash, Default)]
pub struct BooleanOrBinaryEvaluator;

/// Three-valued equality: unknown when either side is unknown.
#[derive(Debug, Clone, Copy, PartialEq, Eq, Hash, Default)]
pub struct BooleanEqBinaryEvaluator;

/// Three-valued inequality: unknown when either side is unknown.
#[derive(Debug, Clone, Copy, PartialEq, Eq, Hash, Default)]
pub struct BooleanNotEqBinaryEvaluator;

impl UnaryEvaluator for BooleanNotUnaryEvaluator {
    open spec fn spec_unary_eval(&self, value: DataValue) -> Result<DataValue, EvaluatorError> {
        unary_result(value, not3(tri_of(value)))
    }

    fn unary_eval(&self, value: &DataValue) -> (r: Result<DataValue, EvaluatorError>) {
        match tri_state(value) {
            Ok(t) => {
                let v = match t {
                    Some(x) => Some(!x),
                    None => None,
                };
                Ok(DataValue::Boolean(v))
            },
            Err(e) => Err(e),
        }
    }
}

impl BinaryEvaluator for BooleanAndBinaryEvaluator {
    open spec fn spec_binary_eval(&self, left: DataValue, right: DataValue) -> Result<
        DataValue,
        EvaluatorError,
    > {
        binary_result(left, right, and3(tri_of(left), tri_of(right)))
    }

    fn binary_eval(&self, left: &DataValue, right: &DataValue) -> (r: Result<
        DataValue,
        EvaluatorError,
    >) {
        let a = match tri_state(left) {
            Ok(t) => t,
            Err(e) => return Err(e),
        };
        let b = match tri_state(right) {
            Ok(t) => t,
            Err(e) => return Err(e),
        };
        let v = match (a, b) {
            (Some(x), Some(y)) => Some(x && y),
            (Some(false), _) | (_, Some(false)) => Some(false),
            _ => None,
        };
        Ok(DataValue::Boolean(v))
    }
}

impl BinaryEvaluator for BooleanOrBinaryEvaluator {
    open spec fn spec_binary_eval(&self, left: DataValue, right: DataValue) -> Result<
        DataValue,
        EvaluatorError,
    > {
        binary_result(left, right, or3(tri_of(left), tri_of(right)))
    }

    fn binary_eval(&self, left: &DataValue, right: &DataValue) -> (r: Result<
        DataValue,
        EvaluatorError,
    >) {
        let a = match tri_state(left) {
            Ok(t) => t,
            Err(e) => return Err(e),
        };
        let b = match tri_state(right) {
            Ok(t) => t,
            Err(e) => return Err(e),
        };
        let v = match (a, b) {
            (Some(x), Some(y)) => Some(x || y),
            (Some(true), _) | (_, Some(true)) => Some(true),
            _ => None,
        };
        Ok(DataValue::Boolean(v))
    }
}

impl BinaryEvaluator for BooleanEqBinaryEvaluator {
    open spec fn spec_binary_eval(&self, left: DataValue, right: DataValue) -> Result<
        DataValue,
        EvaluatorError,
    > {
        binary_result(left, right, eq3(tri_of(left), tri_of(right)))
    }

    fn binary_eval(&self, left: &DataValue, right: &DataValue) -> (r: Result<
        DataValue,
        EvaluatorError,
    >) {
        let a = match tri_state(left) {
            Ok(t) => t,
            Err(e) => return Err(e),
        };
        let b = match tri_state(right) {
            Ok(t) => t,
            Err(e) => return Err(e),
        };
        let v = match (a, b) {
            (Some(x), Some(y)) => Some(x == y),
            _ => None,
        };
        Ok(DataValue::Boolean(v))
    }
}

impl BinaryEvaluator for BooleanNotEqBinaryEvaluator {
    open spec fn spec_binary_eval(&self, left: DataValue, right: DataValue) -> Result<
        DataValue,
        EvaluatorError,
    > {
        binary_result(left, right, neq3(tri_of(left), tri_of(right)))
    }

    fn binary_eval(&self, left: &DataValue, right: &DataValue) -> (r: Result<
        DataValue,
        EvaluatorError,
    >) {
        let a = match tri_state(left) {
            Ok(t) => t,
            Err(e) => return Err(e),
        };
        let b = match tri_state(right) {
            Ok(t) => t,
            Err(e) => return Err(e),
        };
        let v = match (a, b) {
            (Some(x), Some(y)) => Some(x != y),
            _ => None,
        };
        Ok(DataValue::Boolean(v))
    }
}

} // verus!
