//! What holds of every verification, whatever the proof system answers.

use vstd::prelude::*;
use crate::assembly::{all_hold, answer_at, judged, outcome_of, prepared, revealed_of, shape_admits};
use crate::decode::{decode_result, malformed_field};
use crate::predicate::holds;
use crate::model::{
    DecodeError, Diagnostic, RawRequest, RevealedAttribute, VerificationOutcome,
    VerificationRequest, VerificationRule,
};

verus! {

/// A request that passes the structural stage, whose shape lets every
/// predicate of the rule hold, and all of whose proofs the proof system
/// accepts, passes verification.
pub proof fn accepted_proofs_pass(rule: VerificationRule, raw: RawRequest, answers: Seq<bool>)
    requires
        prepared(rule, raw) is Ok,
        shape_admits(rule, prepared(rule, raw)->Ok_0),
        forall|i: int| 0 <= i < rule.predicates@.len() ==> answer_at(answers, i),
    ensures
        outcome_of(rule, raw, true, answers, true) == VerificationOutcome::accepted_view(),
{
    let request = prepared(rule, raw)->Ok_0;
    assert forall|i: int| 0 <= i < rule.predicates@.len() implies holds(
        #[trigger] rule.predicates@[i],
        request,
        answer_at(answers, i),
    ) by {
        assert(holds(rule.predicates@[i], request, true));
    }
}

/// One predicate that does not hold fails the verification, whatever the
/// other predicates, the group test and the signature proof give.
pub proof fn falsified_predicate_fails(
    rule: VerificationRule,
    raw: RawRequest,
    in_group: bool,
    answers: Seq<bool>,
    signature_ok: bool,
    i: int,
)
    requires
        0 <= i < rule.predicates@.len(),
        prepared(rule, raw) matches Ok(request) ==> !holds(
            rule.predicates@[i],
            request,
            answer_at(answers, i),
        ),
    ensures
        !outcome_of(rule, raw, in_group, answers, signature_ok).passed,
        outcome_of(rule, raw, in_group, answers, signature_ok).diagnostic is Some,
{
}

/// A proof that the proof system rejects fails the verification: no
/// predicate holds on a rejected proof unless it is a pure revelation.
pub proof fn rejected_proof_fails(
    rule: VerificationRule,
    raw: RawRequest,
    in_group: bool,
    answers: Seq<bool>,
    signature_ok: bool,
    i: int,
)
    requires
        0 <= i < rule.predicates@.len(),
        !(rule.predicates@[i].kind is PureReveal),
        !answer_at(answers, i),
    ensures
        !outcome_of(rule, raw, in_group, answers, signature_ok).passed,
{
    falsified_predicate_fails(rule, raw, in_group, answers, signature_ok, i);
}

/// A signature proof that does not verify fails the verification, even if
/// every predicate holds by itself.
pub proof fn unbound_signature_fails(
    rule: VerificationRule,
    raw: RawRequest,
    in_group: bool,
    answers: Seq<bool>,
)
    ensures
        !outcome_of(rule, raw, in_group, answers, false).passed,
        prepared(rule, raw) is Ok ==> outcome_of(rule, raw, in_group, answers, false)
            == VerificationOutcome::rejected_view(Diagnostic::CryptographicFailure),
{
}

/// A commitment outside the group fails the verification, whatever the
/// proofs give.
pub proof fn commitment_outside_group_fails(
    rule: VerificationRule,
    raw: RawRequest,
    answers: Seq<bool>,
    signature_ok: bool,
)
    ensures
        !outcome_of(rule, raw, false, answers, signature_ok).passed,
{
}

/// The order in which predicates are evaluated is immaterial: two rules
/// that hold the same predicates with the same answers, each predicate of one
/// standing somewhere in the other, are judged alike.
pub proof fn predicate_order_is_immaterial(
    a: VerificationRule,
    b: VerificationRule,
    request: VerificationRequest,
    answers_a: Seq<bool>,
    answers_b: Seq<bool>,
    to: Seq<int>,
    from: Seq<int>,
    in_group: bool,
    signature_ok: bool,
)
    requires
        to.len() == a.predicates@.len(),
        from.len() == b.predicates@.len(),
        forall|i: int|
            0 <= i < a.predicates@.len() ==> {
                &&& 0 <= #[trigger] to[i] < b.predicates@.len()
                &&& b.predicates@[to[i]] == a.predicates@[i]
                &&& answer_at(answers_b, to[i]) == answer_at(answers_a, i)
            },
        forall|j: int|
            0 <= j < b.predicates@.len() ==> {
                &&& 0 <= #[trigger] from[j] < a.predicates@.len()
                &&& a.predicates@[from[j]] == b.predicates@[j]
                &&& answer_at(answers_a, from[j]) == answer_at(answers_b, j)
            },
    ensures
        all_hold(a, request, answers_a) == all_hold(b, request, answers_b),
        judged(a, request, in_group, answers_a, signature_ok) == judged(
            b,
            request,
            in_group,
            answers_b,
            signature_ok,
        ),
{
    if all_hold(a, request, answers_a) {
        assert forall|j: int| 0 <= j < b.predicates@.len() implies holds(
            #[trigger] b.predicates@[j],
            request,
            answer_at(answers_b, j),
        ) by {
            let i = from[j];
            assert(holds(a.predicates@[i], request, answer_at(answers_a, i)));
        }
    }
    if all_hold(b, request, answers_b) {
        assert forall|i: int| 0 <= i < a.predicates@.len() implies holds(
            #[trigger] a.predicates@[i],
            request,
            answer_at(answers_a, i),
        ) by {
            let j = to[i];
            assert(holds(b.predicates@[j], request, answer_at(answers_b, j)));
        }
    }
}

/// Two extractions from one request give one result.
pub proof fn extraction_is_repeatable(
    raw: RawRequest,
    first: Result<Vec<RevealedAttribute>, DecodeError>,
    second: Result<Vec<RevealedAttribute>, DecodeError>,
)
    requires
        first == revealed_of(raw),
        second == revealed_of(raw),
    ensures
        first == second,
{
}

/// Extraction verifies nothing: a request that decodes yields the
/// attributes it reveals, also where its signature proof does not verify and
/// the verification of it fails under every rule.
pub proof fn extraction_needs_no_valid_proof(
    rule: VerificationRule,
    raw: RawRequest,
    in_group: bool,
    answers: Seq<bool>,
)
    requires
        malformed_field(raw) is None,
    ensures
        revealed_of(raw) == Ok::<Vec<RevealedAttribute>, DecodeError>(raw.revealed_attributes),
        !outcome_of(rule, raw, in_group, answers, false).passed,
{
}

/// A malformed request fails to decode, yields no attributes, and never
/// passes a verification.
pub proof fn malformed_request_never_passes(
    rule: VerificationRule,
    raw: RawRequest,
    in_group: bool,
    answers: Seq<bool>,
    signature_ok: bool,
)
    requires
        malformed_field(raw) is Some,
    ensures
        decode_result(raw) == Err::<VerificationRequest, DecodeError>(
            DecodeError::Malformed { field: malformed_field(raw)->0 },
        ),
        revealed_of(raw) is Err,
        !outcome_of(rule, raw, in_group, answers, signature_ok).passed,
        outcome_of(rule, raw, in_group, answers, signature_ok).diagnostic is Some,
{
}

} // verus!
