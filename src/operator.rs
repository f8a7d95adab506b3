//! The closed set of boolean operators and their stable wire tags.
use vstd::prelude::*;

use crate::value::EvaluatorError;

verus! {

/// The kinds of boolean operator, each named on the wire by its tag.
#[derive(Debug, Clone, Copy, PartialEq, Eq, Hash)]
pub enum BooleanOperator {
    Not,
    And,
    Or,
    Eq,
    NotEq,
}

/// The tag that identifies `op` in serialized form.
pub open spec fn tag_of(op: BooleanOperator) -> Seq<char> {
    match op {
        BooleanOperator::Not => "BooleanNotUnaryEvaluator"@,
        BooleanOperator::And => "BooleanAndBinaryEvaluator"@,
        BooleanOperator::Or => "BooleanOrBinaryEvaluator"@,
        BooleanOperator::Eq => "BooleanEqBinaryEvaluator"@,
        BooleanOperator::NotEq => "BooleanNotEqBinaryEvaluator"@,
    }
}

/// The operator whose tag is `s`, if any.
pub open spec fn operator_of_tag(s: Seq<char>) -> Option<BooleanOperator> {
    if s == tag_of(BooleanOperator::Not) {
        Some(BooleanOperator::Not)
    } else if s == tag_of(BooleanOperator::And) {
        Some(BooleanOperator::And)
    } else if s == tag_of(BooleanOperator::Or) {
        Some(BooleanOperator::Or)
    } else if s == tag_of(BooleanOperator::Eq) {
        Some(BooleanOperator::Eq)
    } else if s == tag_of(BooleanOperator::NotEq) {
        Some(BooleanOperator::NotEq)
    } else {
        None
    }
}

/// Character-wise equality of two strings.
fn same_text(a: &str, b: &str) -> (r: bool)
    ensures
        r == (a@ == b@),
{
    let n = a.unicode_len();
    if n != b.unicode_len() {
        return false;
    }
    let mut i: usize = 0;
    while i < n
        invariant
            n == a@.len(),
            n == b@.len(),
            i <= n,
            forall|j: int| 0 <= j < i ==> a@[j] == b@[j],
        decreases n - i,
    {
        if a.get_char(i) != b.get_char(i) {
            return false;
        }
        i = i + 1;
    }
    assert(a@ =~= b@);
    true
}

impl BooleanOperator {
    /// The stable tag of this operator.
    pub fn tag(&self) -> (r: &'static str)
        ensures
            r@ == tag_of(*self),
    {
        match self {
            BooleanOperator::Not => "BooleanNotUnaryEvaluator",
            BooleanOperator::And => "BooleanAndBinaryEvaluator",
            BooleanOperator::Or => "BooleanOrBinaryEvaluator",
            BooleanOperator::Eq => "BooleanEqBinaryEvaluator",
            BooleanOperator::NotEq => "BooleanNotEqBinaryEvaluator",
        }
    }

    /// The operator named by `tag`; `UnknownTag` when no operator has it.
    pub fn from_tag(tag: &str) -> (r: Result<BooleanOperator, EvaluatorError>)
        ensures
            r == (match operator_of_tag(tag@) {
                Some(op) => Ok::<BooleanOperator, EvaluatorError>(op),
                None => Err::<BooleanOperator, EvaluatorError>(EvaluatorError::UnknownTag),
            }),
    {
        if same_text(tag, BooleanOperator::Not.tag()) {
            Ok(BooleanOperator::Not)
        } else if same_text(tag, BooleanOperator::And.tag()) {
            Ok(BooleanOperator::And)
        } else if same_text(tag, BooleanOperator::Or.tag()) {
            Ok(BooleanOperator::Or)
        } else if same_text(tag, BooleanOperator::Eq.tag()) {
            Ok(BooleanOperator::Eq)
        } else if same_text(tag, BooleanOperator::NotEq.tag()) {
            Ok(BooleanOperator::NotEq)
        } else {
            Err(EvaluatorError::UnknownTag)
        }
    }
}

} // verus!
