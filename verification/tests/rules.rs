use disclosure_proofs::model::{
    AttributeKind, AttributeTemplate, IssuerParams, PredicateKind, PredicateSpec, StructuralError,
    VerificationRule,
};
use disclosure_proofs::names::{all_distinct, position, position_within};
use disclosure_proofs::rule::{check_operands, check_predicate, validate};

fn template(name: &str, kind: AttributeKind) -> AttributeTemplate {
    AttributeTemplate { name: name.to_string(), kind }
}

fn issuer() -> IssuerParams {
    IssuerParams {
        key_version: 1,
        public_key: vec![7u8; 32],
        schema: vec![
            template("age_bracket", AttributeKind::Revealed),
            template("income", AttributeKind::Hidden),
            template("country", AttributeKind::Hidden),
            template("member_id", AttributeKind::Hidden),
        ],
    }
}

fn pure_reveal(name: &str) -> PredicateSpec {
    PredicateSpec {
        attribute: name.to_string(),
        kind: PredicateKind::PureReveal,
        public_operands: vec![],
    }
}

fn range(name: &str, min: u64, max: u64) -> PredicateSpec {
    PredicateSpec {
        attribute: name.to_string(),
        kind: PredicateKind::Range { min, max },
        public_operands: vec![],
    }
}

fn equality(name: &str, operands: Vec<u64>) -> PredicateSpec {
    PredicateSpec {
        attribute: name.to_string(),
        kind: PredicateKind::Equality,
        public_operands: operands,
    }
}

fn membership(name: &str, set: Vec<u64>) -> PredicateSpec {
    PredicateSpec {
        attribute: name.to_string(),
        kind: PredicateKind::Membership { set },
        public_operands: vec![],
    }
}

fn rule(predicates: Vec<PredicateSpec>) -> VerificationRule {
    VerificationRule { predicates, issuer: issuer() }
}

#[test]
fn validate_accepts_a_rule_with_one_predicate_of_each_kind() {
    let r = rule(vec![
        pure_reveal("age_bracket"),
        range("income", 0, 50000),
        equality("country", vec![86]),
        membership("member_id", vec![1, 2, 3]),
    ]);
    assert_eq!(validate(&r), Ok(()));
}

#[test]
fn validate_accepts_the_empty_rule() {
    assert_eq!(validate(&rule(vec![])), Ok(()));
}

#[test]
fn validate_rejects_an_attribute_outside_the_schema() {
    let r = rule(vec![pure_reveal("age_bracket"), range("salary", 0, 10)]);
    assert_eq!(validate(&r), Err(StructuralError::UnknownAttribute { index: 1 }));
}

#[test]
fn validate_rejects_a_range_with_min_above_max() {
    let r = rule(vec![range("income", 50001, 50000)]);
    assert_eq!(validate(&r), Err(StructuralError::IllTypedOperands { index: 0 }));
}

#[test]
fn validate_accepts_a_range_of_one_value() {
    let r = rule(vec![range("income", 50000, 50000)]);
    assert_eq!(validate(&r), Ok(()));
}

#[test]
fn validate_rejects_an_equality_without_its_constant() {
    let r = rule(vec![pure_reveal("age_bracket"), equality("country", vec![])]);
    assert_eq!(validate(&r), Err(StructuralError::IllTypedOperands { index: 1 }));
}

#[test]
fn validate_rejects_an_equality_with_two_constants() {
    let r = rule(vec![equality("country", vec![1, 2])]);
    assert_eq!(validate(&r), Err(StructuralError::IllTypedOperands { index: 0 }));
}

#[test]
fn validate_rejects_an_empty_membership_set() {
    let r = rule(vec![membership("member_id", vec![])]);
    assert_eq!(validate(&r), Err(StructuralError::IllTypedOperands { index: 0 }));
}

#[test]
fn validate_rejects_operands_on_a_pure_revelation() {
    let mut p = pure_reveal("age_bracket");
    p.public_operands = vec![1];
    assert_eq!(validate(&rule(vec![p])), Err(StructuralError::IllTypedOperands { index: 0 }));
}

#[test]
fn validate_rejects_a_second_predicate_on_one_attribute() {
    let r = rule(vec![
        range("income", 0, 50000),
        pure_reveal("age_bracket"),
        range("income", 60000, 100000),
    ]);
    assert_eq!(validate(&r), Err(StructuralError::DuplicatePredicate { index: 2 }));
}

#[test]
fn validate_rejects_a_second_predicate_of_another_kind_on_one_attribute() {
    let r = rule(vec![range("income", 0, 50000), equality("income", vec![3])]);
    assert_eq!(validate(&r), Err(StructuralError::DuplicatePredicate { index: 1 }));
}

#[test]
fn validate_reports_the_first_defective_predicate() {
    let r = rule(vec![
        pure_reveal("age_bracket"),
        range("income", 9, 1),
        pure_reveal("nowhere"),
    ]);
    assert_eq!(validate(&r), Err(StructuralError::IllTypedOperands { index: 1 }));
}

#[test]
fn validate_puts_an_unknown_attribute_before_its_operands() {
    let r = rule(vec![range("nowhere", 9, 1)]);
    assert_eq!(validate(&r), Err(StructuralError::UnknownAttribute { index: 0 }));
}

#[test]
fn validate_puts_ill_typed_operands_before_a_duplicate() {
    let r = rule(vec![range("income", 0, 1), range("income", 9, 1)]);
    assert_eq!(validate(&r), Err(StructuralError::IllTypedOperands { index: 1 }));
}

#[test]
fn check_predicate_examines_one_position() {
    let r = rule(vec![range("income", 0, 1), range("income", 0, 1)]);
    assert_eq!(check_predicate(&r, 0), None);
    assert_eq!(check_predicate(&r, 1), Some(StructuralError::DuplicatePredicate { index: 1 }));
}

#[test]
fn check_operands_by_kind() {
    assert!(check_operands(&equality("country", vec![5])));
    assert!(!check_operands(&equality("country", vec![])));
    assert!(check_operands(&range("income", 0, 0)));
    assert!(!check_operands(&range("income", 1, 0)));
    assert!(check_operands(&membership("member_id", vec![4])));
    assert!(!check_operands(&membership("member_id", vec![])));
    assert!(check_operands(&pure_reveal("age_bracket")));
}

#[test]
fn structural_error_index() {
    assert_eq!(StructuralError::UnknownAttribute { index: 3 }.index(), 3);
    assert_eq!(StructuralError::IllTypedOperands { index: 4 }.index(), 4);
    assert_eq!(StructuralError::DuplicatePredicate { index: 5 }.index(), 5);
    assert_eq!(StructuralError::MissingAttribute { index: 6 }.index(), 6);
}

#[test]
fn position_finds_the_first_bearer_of_a_name() {
    let schema = vec![
        template("a", AttributeKind::Hidden),
        template("b", AttributeKind::Hidden),
        template("a", AttributeKind::Revealed),
    ];
    assert_eq!(position(&schema, &"a".to_string()), Some(0));
    assert_eq!(position(&schema, &"b".to_string()), Some(1));
    assert_eq!(position(&schema, &"c".to_string()), None);
    assert_eq!(position_within(&schema, 1, &"b".to_string()), None);
    assert_eq!(position_within(&schema, 2, &"b".to_string()), Some(1));
    assert_eq!(position_within(&schema, 0, &"a".to_string()), None);
}

#[test]
fn all_distinct_tells_repeated_names() {
    let twice = vec![
        template("a", AttributeKind::Hidden),
        template("b", AttributeKind::Hidden),
        template("a", AttributeKind::Revealed),
    ];
    assert!(!all_distinct(&twice));
    let once = vec![template("a", AttributeKind::Hidden), template("b", AttributeKind::Hidden)];
    assert!(all_distinct(&once));
    let none: Vec<AttributeTemplate> = vec![];
    assert!(all_distinct(&none));
}
