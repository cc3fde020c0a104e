//! Disclosure rules and their validation.

use vstd::prelude::*;
use crate::model::{PredicateKind, PredicateSpec, StructuralError, VerificationRule};
use crate::names::{occurs, occurs_within, position, position_within};

verus! {

/// The operands fit the predicate's kind: an equality has one operand, the
/// constant; a range has `min <= max`; a membership has a set that is not
/// empty; and only an equality has operands beside its kind.
pub open spec fn operands_well_typed(p: PredicateSpec) -> bool {
    match p.kind {
        PredicateKind::Equality => p.public_operands@.len() == 1,
        PredicateKind::Range { min, max } => min <= max && p.public_operands@.len() == 0,
        PredicateKind::Membership { set } => set@.len() > 0 && p.public_operands@.len() == 0,
        PredicateKind::PureReveal => p.public_operands@.len() == 0,
    }
}

/// What is wrong with the rule's predicate at position `i`, if anything:
/// its attribute is not in the schema, else its operands are ill-typed, else
/// an earlier predicate names the same attribute.
pub open spec fn defect_at(rule: VerificationRule, i: int) -> Option<StructuralError> {
    let p = rule.predicates@[i];
    if !occurs(rule.issuer.schema@, p.attribute@) {
        Some(StructuralError::UnknownAttribute { index: i as usize })
    } else if !operands_well_typed(p) {
        Some(StructuralError::IllTypedOperands { index: i as usize })
    } else if occurs_within(rule.predicates@, i, p.attribute@) {
        Some(StructuralError::DuplicatePredicate { index: i as usize })
    } else {
        None
    }
}

/// The first `n` predicates of the rule are free of defects.
pub open spec fn sound_up_to(rule: VerificationRule, n: int) -> bool {
    forall|i: int| 0 <= i < n ==> (#[trigger] defect_at(rule, i)) is None
}

/// Every predicate of the rule is free of defects.
pub open spec fn well_formed(rule: VerificationRule) -> bool {
    sound_up_to(rule, rule.predicates@.len() as int)
}

/// The first defect of the rule, in the order of its predicates.
pub open spec fn first_defect(rule: VerificationRule) -> Option<StructuralError> {
    if well_formed(rule) {
        None
    } else {
        defect_at(
            rule,
            choose|i: int|
                0 <= i < rule.predicates@.len() && sound_up_to(rule, i) && defect_at(rule, i)
                    is Some,
        )
    }
}

impl StructuralError {
    /// The position of the predicate that the error is about.
    pub open spec fn index_view(&self) -> int {
        match *self {
            StructuralError::UnknownAttribute { index } => index as int,
            StructuralError::IllTypedOperands { index } => index as int,
            StructuralError::DuplicatePredicate { index } => index as int,
            StructuralError::MissingAttribute { index } => index as int,
        }
    }

    /// The position of the predicate that the error is about.
    pub fn index(&self) -> (i: usize)
        ensures
            i == self.index_view(),
    {
        match *self {
            StructuralError::UnknownAttribute { index } => index,
            StructuralError::IllTypedOperands { index } => index,
            StructuralError::DuplicatePredicate { index } => index,
            StructuralError::MissingAttribute { index } => index,
        }
    }
}

/// Whether the operands of `p` fit its kind.
pub fn check_operands(p: &PredicateSpec) -> (ok: bool)
    ensures
        ok == operands_well_typed(*p),
{
    match &p.kind {
        PredicateKind::Equality => p.public_operands.len() == 1,
        PredicateKind::Range { min, max } => *min <= *max && p.public_operands.len() == 0,
        PredicateKind::Membership { set } => set.len() > 0 && p.public_operands.len() == 0,
        PredicateKind::PureReveal => p.public_operands.len() == 0,
    }
}

/// Examines the predicate at position `i` of the rule.
pub fn check_predicate(rule: &VerificationRule, i: usize) -> (found: Option<StructuralError>)
    requires
        i < rule.predicates@.len(),
    ensures
        found == defect_at(*rule, i as int),
{
    let p = &rule.predicates[i];
    if position(&rule.issuer.schema, &p.attribute).is_none() {
        Some(StructuralError::UnknownAttribute { index: i })
    } else if !check_operands(p) {
        Some(StructuralError::IllTypedOperands { index: i })
    } else if position_within(&rule.predicates, i, &p.attribute).is_some() {
        Some(StructuralError::DuplicatePredicate { index: i })
    } else {
        None
    }
}

/// Validates a rule before anything is decoded. The rule is accepted exactly
/// when every predicate names an attribute of the schema, has operands that
/// fit its kind, and is the only predicate on its attribute. Otherwise the
/// error is the defect of the first defective predicate.
pub fn validate(rule: &VerificationRule) -> (r: Result<(), StructuralError>)
    ensures
        r is Ok <==> well_formed(*rule),
        r matches Err(e) ==> {
            &&& 0 <= e.index_view() < rule.predicates@.len()
            &&& sound_up_to(*rule, e.index_view())
            &&& defect_at(*rule, e.index_view()) == Some(e)
        },
        r == match first_defect(*rule) {
            Some(e) => Err::<(), StructuralError>(e),
            None => Ok::<(), StructuralError>(()),
        },
{
    let mut i: usize = 0;
    while i < rule.predicates.len()
        invariant
            i <= rule.predicates@.len(),
            sound_up_to(*rule, i as int),
        decreases rule.predicates@.len() - i,
    {
        match check_predicate(rule, i) {
            Some(e) => {
                proof {
                    lemma_first_defect(*rule, i as int);
                }
                return Err(e);
            },
            None => {},
        }
        i = i + 1;
    }
    Ok(())
}

/// The least defective position is the one that `first_defect` reports.
pub proof fn lemma_first_defect(rule: VerificationRule, i: int)
    requires
        0 <= i < rule.predicates@.len(),
        sound_up_to(rule, i),
        defect_at(rule, i) is Some,
    ensures
        !well_formed(rule),
        first_defect(rule) == defect_at(rule, i),
{
    let k = choose|k: int|
        0 <= k < rule.predicates@.len() && sound_up_to(rule, k) && defect_at(rule, k) is Some;
    if k < i {
        assert(defect_at(rule, k) is None);
    }
    if i < k {
        assert(defect_at(rule, i) is None);
    }
}

} // verus!
