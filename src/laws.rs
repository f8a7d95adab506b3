//! Algebraic laws of the boolean operators, proved over their contracts.
use vstd::prelude::*;

use crate::evaluator::{
    BinaryEvaluator, BooleanAndBinaryEvaluator, BooleanEqBinaryEvaluator,
    BooleanNotEqBinaryEvaluator, BooleanNotUnaryEvaluator, BooleanOrBinaryEvaluator,
    UnaryEvaluator,
};
use crate::operator::{operator_of_tag, tag_of, BooleanOperator};
use crate::value::{is_boolean_input, DataValue, EvaluatorError};

verus! {

/// The boolean value carrying tri-state `t`.
pub open spec fn boolean(t: Option<bool>) -> DataValue {
    DataValue::Boolean(t)
}

/// A successful evaluation to the boolean carrying `t`.
pub open spec fn yields(t: Option<bool>) -> Result<DataValue, EvaluatorError> {
    Ok(DataValue::Boolean(t))
}

/// NOT, AND and OR follow their truth tables on every combination of true,
/// false and unknown.
pub proof fn lemma_truth_tables(
    not: BooleanNotUnaryEvaluator,
    and: BooleanAndBinaryEvaluator,
    or: BooleanOrBinaryEvaluator,
)
    ensures
        not.spec_unary_eval(boolean(Some(true))) == yields(Some(false)),
        not.spec_unary_eval(boolean(Some(false))) == yields(Some(true)),
        not.spec_unary_eval(boolean(None)) == yields(None),
        and.spec_binary_eval(boolean(Some(true)), boolean(Some(true))) == yields(Some(true)),
        and.spec_binary_eval(boolean(Some(true)), boolean(Some(false))) == yields(Some(false)),
        and.spec_binary_eval(boolean(Some(true)), boolean(None)) == yields(None),
        and.spec_binary_eval(boolean(Some(false)), boolean(Some(true))) == yields(Some(false)),
        and.spec_binary_eval(boolean(Some(false)), boolean(Some(false))) == yields(Some(false)),
        and.spec_binary_eval(boolean(Some(false)), boolean(None)) == yields(Some(false)),
        and.spec_binary_eval(boolean(None), boolean(Some(true))) == yields(None),
        and.spec_binary_eval(boolean(None), boolean(Some(false))) == yields(Some(false)),
        and.spec_binary_eval(boolean(None), boolean(None)) == yields(None),
        or.spec_binary_eval(boolean(Some(true)), boolean(Some(true))) == yields(Some(true)),
        or.spec_binary_eval(boolean(Some(true)), boolean(Some(false))) == yields(Some(true)),
        or.spec_binary_eval(boolean(Some(true)), boolean(None)) == yields(Some(true)),
        or.spec_binary_eval(boolean(Some(false)), boolean(Some(true))) == yields(Some(true)),
        or.spec_binary_eval(boolean(Some(false)), boolean(Some(false))) == yields(Some(false)),
        or.spec_binary_eval(boolean(Some(false)), boolean(None)) == yields(None),
        or.spec_binary_eval(boolean(None), boolean(Some(true))) == yields(Some(true)),
        or.spec_binary_eval(boolean(None), boolean(Some(false))) == yields(None),
        or.spec_binary_eval(boolean(None), boolean(None)) == yields(None),
{
}

/// `Null` is interchangeable with the boolean unknown as input to every
/// operator, on either side, whatever the other operand is.
pub proof fn lemma_null_is_unknown(
    not: BooleanNotUnaryEvaluator,
    and: BooleanAndBinaryEvaluator,
    or: BooleanOrBinaryEvaluator,
    eq: BooleanEqBinaryEvaluator,
    ne: BooleanNotEqBinaryEvaluator,
    other: DataValue,
)
    ensures
        not.spec_unary_eval(DataValue::Null) == not.spec_unary_eval(boolean(None)),
        and.spec_binary_eval(DataValue::Null, other) == and.spec_binary_eval(boolean(None), other),
        and.spec_binary_eval(other, DataValue::Null) == and.spec_binary_eval(other, boolean(None)),
        or.spec_binary_eval(DataValue::Null, other) == or.spec_binary_eval(boolean(None), other),
        or.spec_binary_eval(other, DataValue::Null) == or.spec_binary_eval(other, boolean(None)),
        eq.spec_binary_eval(DataValue::Null, other) == eq.spec_binary_eval(boolean(None), other),
        eq.spec_binary_eval(other, DataValue::Null) == eq.spec_binary_eval(other, boolean(None)),
        ne.spec_binary_eval(DataValue::Null, other) == ne.spec_binary_eval(boolean(None), other),
        ne.spec_binary_eval(other, DataValue::Null) == ne.spec_binary_eval(other, boolean(None)),
{
}

/// AND and OR give the same result with their operands swapped.
pub proof fn lemma_commutative(
    and: BooleanAndBinaryEvaluator,
    or: BooleanOrBinaryEvaluator,
    a: DataValue,
    b: DataValue,
)
    ensures
        and.spec_binary_eval(a, b) == and.spec_binary_eval(b, a),
        or.spec_binary_eval(a, b) == or.spec_binary_eval(b, a),
{
}

/// AND and OR are associative on boolean-position inputs: grouping the
/// operands either way succeeds and gives the same result.
pub proof fn lemma_associative(
    and: BooleanAndBinaryEvaluator,
    or: BooleanOrBinaryEvaluator,
    a: DataValue,
    b: DataValue,
    c: DataValue,
)
    requires
        is_boolean_input(a),
        is_boolean_input(b),
        is_boolean_input(c),
    ensures
        and.spec_binary_eval(a, b) is Ok,
        and.spec_binary_eval(b, c) is Ok,
        and.spec_binary_eval(and.spec_binary_eval(a, b)->Ok_0, c) == and.spec_binary_eval(
            a,
            and.spec_binary_eval(b, c)->Ok_0,
        ),
        or.spec_binary_eval(a, b) is Ok,
        or.spec_binary_eval(b, c) is Ok,
        or.spec_binary_eval(or.spec_binary_eval(a, b)->Ok_0, c) == or.spec_binary_eval(
            a,
            or.spec_binary_eval(b, c)->Ok_0,
        ),
{
}

/// Negating a boolean twice gives it back; unknown stays unknown.
pub proof fn lemma_double_negation(not: BooleanNotUnaryEvaluator, t: Option<bool>)
    ensures
        not.spec_unary_eval(boolean(t)) is Ok,
        not.spec_unary_eval(not.spec_unary_eval(boolean(t))->Ok_0) == yields(t),
{
}

/// EQ is true on two equal defined operands; EQ and NOT-EQ are unknown when
/// either operand is unknown; on two defined operands NOT-EQ is the complement
/// of EQ.
pub proof fn lemma_equality(
    eq: BooleanEqBinaryEvaluator,
    ne: BooleanNotEqBinaryEvaluator,
    x: DataValue,
    p: bool,
    q: bool,
)
    requires
        is_boolean_input(x),
    ensures
        eq.spec_binary_eval(boolean(Some(p)), boolean(Some(p))) == yields(Some(true)),
        eq.spec_binary_eval(x, boolean(None)) == yields(None),
        eq.spec_binary_eval(boolean(None), x) == yields(None),
        eq.spec_binary_eval(x, DataValue::Null) == yields(None),
        ne.spec_binary_eval(x, boolean(None)) == yields(None),
        ne.spec_binary_eval(boolean(None), x) == yields(None),
        ne.spec_binary_eval(x, DataValue::Null) == yields(None),
        eq.spec_binary_eval(boolean(Some(p)), boolean(Some(q))) == yields(Some(p == q)),
        ne.spec_binary_eval(boolean(Some(p)), boolean(Some(q))) == yields(Some(p != q)),
{
}

/// On boolean-position inputs NOT-EQ agrees with NOT applied to EQ.
pub proof fn lemma_not_eq_is_negated_eq(
    not: BooleanNotUnaryEvaluator,
    eq: BooleanEqBinaryEvaluator,
    ne: BooleanNotEqBinaryEvaluator,
    a: DataValue,
    b: DataValue,
)
    requires
        is_boolean_input(a),
        is_boolean_input(b),
    ensures
        eq.spec_binary_eval(a, b) is Ok,
        ne.spec_binary_eval(a, b) == not.spec_unary_eval(eq.spec_binary_eval(a, b)->Ok_0),
{
}

/// Writing an operator's tag and reading it back gives the same operator,
/// and no two operators share a tag.
pub proof fn lemma_tag_round_trip(op: BooleanOperator, other: BooleanOperator)
    ensures
        operator_of_tag(tag_of(op)) == Some(op),
        tag_of(op) == tag_of(other) ==> op == other,
{
    reveal_strlit("BooleanNotUnaryEvaluator");
    reveal_strlit("BooleanAndBinaryEvaluator");
    reveal_strlit("BooleanOrBinaryEvaluator");
    reveal_strlit("BooleanEqBinaryEvaluator");
    reveal_strlit("BooleanNotEqBinaryEvaluator");
    assert(forall|a: BooleanOperator, b: BooleanOperator|
        a != b ==> (tag_of(a).len() != tag_of(b).len() || tag_of(a)[7] != tag_of(b)[7]));
}

} // verus!
