use bool_evaluator::evaluator::{
    BinaryEvaluator, BooleanAndBinaryEvaluator, BooleanEqBinaryEvaluator,
    BooleanNotEqBinaryEvaluator, BooleanNotUnaryEvaluator, BooleanOrBinaryEvaluator,
    UnaryEvaluator,
};
use bool_evaluator::operator::BooleanOperator;
use bool_evaluator::value::{tri_state, DataValue, EvaluatorError};

const T: DataValue = DataValue::Boolean(Some(true));
const F: DataValue = DataValue::Boolean(Some(false));
const U: DataValue = DataValue::Boolean(None);

fn all_inputs() -> Vec<DataValue> {
    vec![T, F, U, DataValue::Null]
}

fn ok(t: Option<bool>) -> Result<DataValue, EvaluatorError> {
    Ok(DataValue::Boolean(t))
}

fn and(a: &DataValue, b: &DataValue) -> DataValue {
    BooleanAndBinaryEvaluator.binary_eval(a, b).unwrap()
}

fn or(a: &DataValue, b: &DataValue) -> DataValue {
    BooleanOrBinaryEvaluator.binary_eval(a, b).unwrap()
}

#[test]
fn and_false_absorbs_unknown() {
    assert_eq!(BooleanAndBinaryEvaluator.binary_eval(&F, &U), ok(Some(false)));
}

#[test]
fn or_true_absorbs_null() {
    assert_eq!(BooleanOrBinaryEvaluator.binary_eval(&T, &DataValue::Null), ok(Some(true)));
}

#[test]
fn and_unknown_unknown() {
    assert_eq!(BooleanAndBinaryEvaluator.binary_eval(&U, &U), ok(None));
}

#[test]
fn eq_unknown_true() {
    assert_eq!(BooleanEqBinaryEvaluator.binary_eval(&U, &T), ok(None));
}

#[test]
fn not_null() {
    assert_eq!(BooleanNotUnaryEvaluator.unary_eval(&DataValue::Null), ok(None));
}

#[test]
fn not_eq_true_false() {
    assert_eq!(BooleanNotEqBinaryEvaluator.binary_eval(&T, &F), ok(Some(true)));
}

#[test]
fn not_truth_table() {
    assert_eq!(BooleanNotUnaryEvaluator.unary_eval(&T), ok(Some(false)));
    assert_eq!(BooleanNotUnaryEvaluator.unary_eval(&F), ok(Some(true)));
    assert_eq!(BooleanNotUnaryEvaluator.unary_eval(&U), ok(None));
}

#[test]
fn and_truth_table() {
    let rows = [
        (T, T, Some(true)),
        (T, F, Some(false)),
        (T, U, None),
        (F, T, Some(false)),
        (F, F, Some(false)),
        (F, U, Some(false)),
        (U, T, None),
        (U, F, Some(false)),
        (U, U, None),
    ];
    for (a, b, want) in rows.iter() {
        assert_eq!(BooleanAndBinaryEvaluator.binary_eval(a, b), ok(*want));
    }
}

#[test]
fn or_truth_table() {
    let rows = [
        (T, T, Some(true)),
        (T, F, Some(true)),
        (T, U, Some(true)),
        (F, T, Some(true)),
        (F, F, Some(false)),
        (F, U, None),
        (U, T, Some(true)),
        (U, F, None),
        (U, U, None),
    ];
    for (a, b, want) in rows.iter() {
        assert_eq!(BooleanOrBinaryEvaluator.binary_eval(a, b), ok(*want));
    }
}

#[test]
fn null_acts_as_unknown() {
    let n = DataValue::Null;
    assert_eq!(
        BooleanNotUnaryEvaluator.unary_eval(&n),
        BooleanNotUnaryEvaluator.unary_eval(&U)
    );
    for x in all_inputs().iter() {
        assert_eq!(and(&n, x), and(&U, x));
        assert_eq!(and(x, &n), and(x, &U));
        assert_eq!(or(&n, x), or(&U, x));
        assert_eq!(or(x, &n), or(x, &U));
        assert_eq!(
            BooleanEqBinaryEvaluator.binary_eval(&n, x),
            BooleanEqBinaryEvaluator.binary_eval(&U, x)
        );
        assert_eq!(
            BooleanNotEqBinaryEvaluator.binary_eval(x, &n),
            BooleanNotEqBinaryEvaluator.binary_eval(x, &U)
        );
    }
}

#[test]
fn and_or_commute() {
    for a in all_inputs().iter() {
        for b in all_inputs().iter() {
            assert_eq!(and(a, b), and(b, a));
            assert_eq!(or(a, b), or(b, a));
        }
    }
}

#[test]
fn and_or_associate() {
    for a in all_inputs().iter() {
        for b in all_inputs().iter() {
            for c in all_inputs().iter() {
                assert_eq!(and(&and(a, b), c), and(a, &and(b, c)));
                assert_eq!(or(&or(a, b), c), or(a, &or(b, c)));
            }
        }
    }
}

#[test]
fn double_negation() {
    for x in [T, F, U].iter() {
        let once = BooleanNotUnaryEvaluator.unary_eval(x).unwrap();
        assert_eq!(BooleanNotUnaryEvaluator.unary_eval(&once), Ok(x.clone()));
    }
}

#[test]
fn equality_rules() {
    assert_eq!(BooleanEqBinaryEvaluator.binary_eval(&T, &T), ok(Some(true)));
    assert_eq!(BooleanEqBinaryEvaluator.binary_eval(&F, &F), ok(Some(true)));
    assert_eq!(BooleanEqBinaryEvaluator.binary_eval(&T, &F), ok(Some(false)));
    assert_eq!(BooleanNotEqBinaryEvaluator.binary_eval(&F, &F), ok(Some(false)));
    for x in all_inputs().iter() {
        assert_eq!(BooleanEqBinaryEvaluator.binary_eval(x, &U), ok(None));
        assert_eq!(BooleanEqBinaryEvaluator.binary_eval(&DataValue::Null, x), ok(None));
        assert_eq!(BooleanNotEqBinaryEvaluator.binary_eval(x, &U), ok(None));
        assert_eq!(BooleanNotEqBinaryEvaluator.binary_eval(&DataValue::Null, x), ok(None));
    }
}

#[test]
fn not_eq_matches_negated_eq() {
    for a in all_inputs().iter() {
        for b in all_inputs().iter() {
            let e = BooleanEqBinaryEvaluator.binary_eval(a, b).unwrap();
            assert_eq!(
                BooleanNotEqBinaryEvaluator.binary_eval(a, b),
                BooleanNotUnaryEvaluator.unary_eval(&e)
            );
        }
    }
}

#[test]
fn non_boolean_input_is_rejected() {
    let i = DataValue::Int64(Some(3));
    let s = DataValue::Utf8(Some(String::from("yes")));
    let mismatch = Err(EvaluatorError::TypeMismatch);
    assert_eq!(BooleanNotUnaryEvaluator.unary_eval(&i), mismatch);
    assert_eq!(BooleanAndBinaryEvaluator.binary_eval(&F, &i), mismatch);
    assert_eq!(BooleanOrBinaryEvaluator.binary_eval(&s, &T), mismatch);
    assert_eq!(BooleanEqBinaryEvaluator.binary_eval(&U, &s), mismatch);
    assert_eq!(BooleanNotEqBinaryEvaluator.binary_eval(&DataValue::Int64(None), &T), mismatch);
    assert_eq!(tri_state(&i), Err(EvaluatorError::TypeMismatch));
}

#[test]
fn tri_state_reads_null_as_unknown() {
    assert_eq!(tri_state(&DataValue::Null), Ok(None));
    assert_eq!(tri_state(&T), Ok(Some(true)));
    assert_eq!(tri_state(&F), Ok(Some(false)));
}

#[test]
fn tags_round_trip() {
    let ops = [
        BooleanOperator::Not,
        BooleanOperator::And,
        BooleanOperator::Or,
        BooleanOperator::Eq,
        BooleanOperator::NotEq,
    ];
    for op in ops.iter() {
        assert_eq!(BooleanOperator::from_tag(op.tag()), Ok(*op));
        for other in ops.iter() {
            if op != other {
                assert_ne!(op.tag(), other.tag());
            }
        }
    }
    assert_eq!(BooleanOperator::And.tag(), "BooleanAndBinaryEvaluator");
}

#[test]
fn unknown_tag_is_rejected() {
    assert_eq!(BooleanOperator::from_tag("BooleanXorBinaryEvaluator"), Err(EvaluatorError::UnknownTag));
    assert_eq!(BooleanOperator::from_tag(""), Err(EvaluatorError::UnknownTag));
    assert_eq!(BooleanOperator::from_tag("BooleanAndBinaryEvaluato"), Err(EvaluatorError::UnknownTag));
}
