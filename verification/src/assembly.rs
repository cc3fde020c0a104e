//! Result assembly: verification of a request against a rule, and the
//! extraction of revealed attributes.

use vstd::prelude::*;
use crate::decode::{decode, decode_result};
use crate::model::{
    DecodeError, Diagnostic, RawRequest, RevealedAttribute, StructuralError, VerificationOutcome,
    VerificationRequest, VerificationRule,
};
use crate::names::{occurs, position};
use crate::predicate::{
    covered, holds, is_covered, obligation, predicate_holds, Obligation, ProofSystem,
};
use crate::rule::{first_defect, validate, well_formed};

verus! {

impl VerificationOutcome {
    /// The outcome of a verification that passed.
    pub open spec fn accepted_view() -> VerificationOutcome {
        VerificationOutcome { passed: true, diagnostic: None }
    }

    /// The outcome of a verification that failed for the reason `d`.
    pub open spec fn rejected_view(d: Diagnostic) -> VerificationOutcome {
        VerificationOutcome { passed: false, diagnostic: Some(d) }
    }

    /// The outcome of a verification that passed.
    pub fn accepted() -> (out: VerificationOutcome)
        ensures
            out == Self::accepted_view(),
    {
        VerificationOutcome { passed: true, diagnostic: None }
    }

    /// The outcome of a verification that failed for the reason `d`.
    pub fn rejected(d: Diagnostic) -> (out: VerificationOutcome)
        ensures
            out == Self::rejected_view(d),
    {
        VerificationOutcome { passed: false, diagnostic: Some(d) }
    }
}

impl Diagnostic {
    /// The text that describes the failure to a caller.
    pub open spec fn message_view(&self) -> Seq<char> {
        match *self {
            Diagnostic::Structure(_) => "structural failure: the rule is malformed or the request does not cover it"@,
            Diagnostic::Decode(_) => "decode failure: the request is malformed"@,
            Diagnostic::CryptographicFailure => "cryptographic failure: a proof does not verify"@,
        }
    }

    /// The text that describes the failure to a caller.
    pub fn message(&self) -> (text: String)
        ensures
            text@ == self.message_view(),
    {
        match *self {
            Diagnostic::Structure(_) => "structural failure: the rule is malformed or the request does not cover it".to_owned(),
            Diagnostic::Decode(_) => "decode failure: the request is malformed".to_owned(),
            Diagnostic::CryptographicFailure => "cryptographic failure: a proof does not verify".to_owned(),
        }
    }
}

/// The first `n` predicates of the rule are covered by the request.
pub open spec fn covered_up_to(rule: VerificationRule, request: VerificationRequest, n: int) -> bool {
    forall|i: int| 0 <= i < n ==> covered(#[trigger] rule.predicates@[i], request)
}

/// The request holds a value or a commitment for every attribute that the
/// rule has a predicate on.
pub open spec fn covers(rule: VerificationRule, request: VerificationRequest) -> bool {
    covered_up_to(rule, request, rule.predicates@.len() as int)
}

/// Position `i` is that of the first predicate that the request does not
/// cover.
pub open spec fn is_first_uncovered(rule: VerificationRule, request: VerificationRequest, i: int) -> bool {
    &&& 0 <= i < rule.predicates@.len()
    &&& covered_up_to(rule, request, i)
    &&& !covered(rule.predicates@[i], request)
}

/// The first predicate of the rule that the request does not cover.
pub open spec fn first_uncovered(rule: VerificationRule, request: VerificationRequest) -> int {
    choose|i: int| is_first_uncovered(rule, request, i)
}

/// What the structural stage gives, before any proof is looked at: the
/// decoded request, or the first of these failures: a defect of the rule, a
/// malformed field of the request, a predicate that the request does not
/// cover.
pub open spec fn prepared(rule: VerificationRule, raw: RawRequest) -> Result<
    VerificationRequest,
    Diagnostic,
> {
    match first_defect(rule) {
        Some(e) => Err(Diagnostic::Structure(e)),
        None => match decode_result(raw) {
            Err(e) => Err(Diagnostic::Decode(e)),
            Ok(request) => if covers(rule, request) {
                Ok(request)
            } else {
                Err(
                    Diagnostic::Structure(
                        StructuralError::MissingAttribute {
                            index: first_uncovered(rule, request) as usize,
                        },
                    ),
                )
            },
        },
    }
}

/// The proof system's answer for the predicate at position `i`; a missing
/// answer counts as a rejection.
pub open spec fn answer_at(answers: Seq<bool>, i: int) -> bool {
    0 <= i < answers.len() && answers[i]
}

/// Every predicate of the rule holds, given the proof system's answers in
/// the order of the predicates.
pub open spec fn all_hold(rule: VerificationRule, request: VerificationRequest, answers: Seq<bool>) -> bool {
    forall|i: int|
        0 <= i < rule.predicates@.len() ==> holds(
            #[trigger] rule.predicates@[i],
            request,
            answer_at(answers, i),
        )
}

/// The request's shape lets every predicate of the rule hold: each would
/// hold if the proof system accepted its proof.
pub open spec fn shape_admits(rule: VerificationRule, request: VerificationRequest) -> bool {
    forall|i: int|
        0 <= i < rule.predicates@.len() ==> holds(#[trigger] rule.predicates@[i], request, true)
}

/// The outcome of the cryptographic stage, given what the proof system
/// answered: the verification passes exactly when the referenced commitments
/// lie in the group, every predicate holds and the signature proof verifies.
pub open spec fn judged(
    rule: VerificationRule,
    request: VerificationRequest,
    in_group: bool,
    answers: Seq<bool>,
    signature_ok: bool,
) -> VerificationOutcome {
    if in_group && all_hold(rule, request, answers) && signature_ok {
        VerificationOutcome::accepted_view()
    } else {
        VerificationOutcome::rejected_view(Diagnostic::CryptographicFailure)
    }
}

/// The whole verification as a function of the rule, the raw request and
/// the proof system's answers.
pub open spec fn outcome_of(
    rule: VerificationRule,
    raw: RawRequest,
    in_group: bool,
    answers: Seq<bool>,
    signature_ok: bool,
) -> VerificationOutcome {
    match prepared(rule, raw) {
        Err(d) => VerificationOutcome::rejected_view(d),
        Ok(request) => judged(rule, request, in_group, answers, signature_ok),
    }
}

/// The first predicate of the rule for which the request holds neither a
/// value nor a commitment.
pub fn find_uncovered(rule: &VerificationRule, request: &VerificationRequest) -> (found: Option<
    usize,
>)
    ensures
        found is None <==> covers(*rule, *request),
        found matches Some(i) ==> is_first_uncovered(*rule, *request, i as int) && i
            == first_uncovered(*rule, *request),
{
    let mut i: usize = 0;
    while i < rule.predicates.len()
        invariant
            i <= rule.predicates@.len(),
            covered_up_to(*rule, *request, i as int),
        decreases rule.predicates@.len() - i,
    {
        if !is_covered(&rule.predicates[i], request) {
            proof {
                lemma_first_uncovered(*rule, *request, i as int);
            }
            return Some(i);
        }
        i = i + 1;
    }
    None
}

/// There is one first uncovered predicate at most.
pub proof fn lemma_first_uncovered(rule: VerificationRule, request: VerificationRequest, i: int)
    requires
        is_first_uncovered(rule, request, i),
    ensures
        !covers(rule, request),
        first_uncovered(rule, request) == i,
{
    let k = first_uncovered(rule, request);
    assert(is_first_uncovered(rule, request, k));
    if k < i {
        assert(covered(rule.predicates@[k], request));
    }
    if i < k {
        assert(covered(rule.predicates@[i], request));
    }
}

/// The structural stage: validates the rule, decodes the request, and makes
/// sure that the request covers every predicate of the rule.
pub fn prepare(rule: &VerificationRule, raw: RawRequest) -> (r: Result<
    VerificationRequest,
    Diagnostic,
>)
    ensures
        r == prepared(*rule, raw),
        r matches Ok(request) ==> well_formed(*rule) && request.well_formed() && covers(
            *rule,
            request,
        ),
{
    match validate(rule) {
        Err(e) => Err(Diagnostic::Structure(e)),
        Ok(_) => match decode(raw) {
            Err(e) => Err(Diagnostic::Decode(e)),
            Ok(request) => match find_uncovered(rule, &request) {
                Some(index) => Err(
                    Diagnostic::Structure(StructuralError::MissingAttribute { index }),
                ),
                None => Ok(request),
            },
        },
    }
}

/// The cryptographic stage, from the proof system's answers: `in_group`
/// for the referenced commitments, `answers[i]` for the proof bound to the
/// rule's predicate at position `i` (a missing answer counts as a
/// rejection), `signature_ok` for the signature proof. Every predicate is
/// evaluated, also after one has failed.
pub fn judge(
    rule: &VerificationRule,
    request: &VerificationRequest,
    in_group: bool,
    answers: &Vec<bool>,
    signature_ok: bool,
) -> (out: VerificationOutcome)
    ensures
        out == judged(*rule, *request, in_group, answers@, signature_ok),
{
    let mut all: bool = true;
    let mut i: usize = 0;
    while i < rule.predicates.len()
        invariant
            i <= rule.predicates@.len(),
            all == (forall|k: int|
                0 <= k < i ==> holds(
                    #[trigger] rule.predicates@[k],
                    *request,
                    answer_at(answers@, k),
                )),
        decreases rule.predicates@.len() - i,
    {
        let answer = i < answers.len() && answers[i];
        let verdict = predicate_holds(&rule.predicates[i], request, answer);
        all = all && verdict;
        i = i + 1;
    }
    if in_group && all && signature_ok {
        VerificationOutcome::accepted()
    } else {
        VerificationOutcome::rejected(Diagnostic::CryptographicFailure)
    }
}

/// The verification of a raw request against a rule, from the proof
/// system's answers. Structural failures come first and are reported as
/// such; otherwise the outcome is that of `judge`.
pub fn verify_with_answers(
    rule: &VerificationRule,
    raw: RawRequest,
    in_group: bool,
    answers: &Vec<bool>,
    signature_ok: bool,
) -> (out: VerificationOutcome)
    ensures
        out == outcome_of(*rule, raw, in_group, answers@, signature_ok),
{
    match prepare(rule, raw) {
        Err(d) => VerificationOutcome::rejected(d),
        Ok(request) => judge(rule, &request, in_group, answers, signature_ok),
    }
}

/// A commitment is referenced when a proof component is bound to its
/// attribute.
pub open spec fn referenced(request: VerificationRequest, i: int) -> bool {
    occurs(request.proof_components@, request.commitments@[i].name@)
}

/// Asks the proof system whether every referenced commitment lies in the
/// group. Commitments that no proof component refers to are not examined, so
/// a request without referenced commitments passes this stage. With
/// referenced commitments the verdict is that of `group_verdict` on what
/// the proof system answered.
pub fn referenced_commitments_in_group<P: ProofSystem>(
    system: &P,
    request: &VerificationRequest,
) -> (ok: bool)
    requires
        request.well_formed(),
    ensures
        (forall|i: int| 0 <= i < request.commitments@.len() ==> !referenced(*request, i)) ==> ok,
{
    let answers = collect_group_answers(system, request);
    assert forall|i: int| 0 <= i < answers@.len() && (#[trigger] answers@[i]) == Some(
        false,
    ) implies referenced(*request, i) by {
        assert(answers@[i] is Some);
    }
    group_verdict(&answers)
}

/// No answer is a rejection: each commitment was either not examined or
/// found to lie in the group.
pub open spec fn none_rejected(answers: Seq<Option<bool>>) -> bool {
    forall|i: int| 0 <= i < answers.len() ==> #[trigger] answers[i] != Some(false)
}

/// Asks the proof system about each referenced commitment, in the order of
/// the request's commitments. The answer is `None` exactly for the
/// commitments that no proof component refers to: those are not examined.
pub fn collect_group_answers<P: ProofSystem>(
    system: &P,
    request: &VerificationRequest,
) -> (answers: Vec<Option<bool>>)
    requires
        request.well_formed(),
    ensures
        answers@.len() == request.commitments@.len(),
        forall|i: int|
            0 <= i < answers@.len() ==> ((#[trigger] answers@[i]) is Some <==> referenced(
                *request,
                i,
            )),
{
    let mut answers: Vec<Option<bool>> = Vec::new();
    let mut i: usize = 0;
    while i < request.commitments.len()
        invariant
            i <= request.commitments@.len(),
            answers@.len() == i,
            request.well_formed(),
            forall|k: int|
                0 <= k < i ==> ((#[trigger] answers@[k]) is Some <==> referenced(*request, k)),
        decreases request.commitments@.len() - i,
    {
        let c = &request.commitments[i];
        let answer = if position(&request.proof_components, &c.name).is_some() {
            Some(system.commitment_in_group(&c.commitment))
        } else {
            None
        };
        answers.push(answer);
        i = i + 1;
    }
    answers
}

/// The verdict of the group stage from the proof system's answers: it
/// passes exactly when no examined commitment was rejected. Every answer is
/// looked at, also after a rejection.
pub fn group_verdict(answers: &Vec<Option<bool>>) -> (ok: bool)
    ensures
        ok == none_rejected(answers@),
{
    let mut ok: bool = true;
    let mut i: usize = 0;
    while i < answers.len()
        invariant
            i <= answers@.len(),
            ok == (forall|k: int| 0 <= k < i ==> #[trigger] answers@[k] != Some(false)),
        decreases answers@.len() - i,
    {
        let accepted = match answers[i] {
            Some(answer) => answer,
            None => true,
        };
        ok = ok && accepted;
        i = i + 1;
    }
    ok
}

/// Asks the proof system about the proof bound to each predicate of the
/// rule, in the order of the predicates. Where a predicate asks for no
/// proof, or the request lacks what the proof would be about, the proof
/// system is not asked and the answer is `false`.
pub fn collect_answers<P: ProofSystem>(
    system: &P,
    rule: &VerificationRule,
    request: &VerificationRequest,
) -> (answers: Vec<bool>)
    requires
        request.well_formed(),
    ensures
        answers@.len() == rule.predicates@.len(),
        forall|i: int|
            0 <= i < rule.predicates@.len() && !holds(#[trigger] rule.predicates@[i], *request, true)
                ==> !answers@[i],
{
    let mut answers: Vec<bool> = Vec::new();
    let mut i: usize = 0;
    while i < rule.predicates.len()
        invariant
            i <= rule.predicates@.len(),
            answers@.len() == i,
            request.well_formed(),
            forall|k: int|
                0 <= k < i && !holds(#[trigger] rule.predicates@[k], *request, true)
                    ==> !answers@[k],
        decreases rule.predicates@.len() - i,
    {
        let p = &rule.predicates[i];
        let answer = match obligation(p, request) {
            Obligation::Proof { commitment, proof } => system.verify_predicate_proof(
                p,
                &request.commitments[commitment].commitment,
                &request.proof_components[proof].proof,
            ),
            _ => false,
        };
        answers.push(answer);
        i = i + 1;
    }
    answers
}

/// Verifies a raw request against a rule on the given proof system.
///
/// A structural failure is reported as it is and no proof is looked at.
/// Otherwise the referenced commitments are tested for group membership; if
/// one fails, no proof is verified. Otherwise every predicate and the
/// signature proof are verified, none skipped, and the verification passes
/// exactly when all of them did. Whatever the proof system answers, the
/// outcome is `outcome_of` for some answers, and a request that cannot meet
/// a predicate by its shape does not pass.
pub fn verify_proof<P: ProofSystem>(system: &P, rule: &VerificationRule, raw: RawRequest) -> (out:
    VerificationOutcome)
    ensures
        prepared(*rule, raw) matches Err(d) ==> out == VerificationOutcome::rejected_view(d),
        prepared(*rule, raw) matches Ok(request) ==> exists|
            in_group: bool,
            answers: Seq<bool>,
            signature_ok: bool,
        | #[trigger] judged(*rule, request, in_group, answers, signature_ok) == out,
        out.passed <==> out.diagnostic is None,
        out.passed ==> (prepared(*rule, raw) matches Ok(request) && shape_admits(*rule, request)),
{
    match prepare(rule, raw) {
        Err(d) => VerificationOutcome::rejected(d),
        Ok(request) => {
            if !referenced_commitments_in_group(system, &request) {
                let out = VerificationOutcome::rejected(Diagnostic::CryptographicFailure);
                assert(judged(
                    *rule,
                    request,
                    false,
                    Seq::new(rule.predicates@.len(), |i: int| true),
                    true,
                ) == out);
                return out;
            }
            let answers = collect_answers(system, rule, &request);
            let signature_ok = system.verify_signature_proof(&request, &rule.issuer);
            let out = judge(rule, &request, true, &answers, signature_ok);
            assert(judged(*rule, request, true, answers@, signature_ok) == out);
            out
        },
    }
}

/// The attributes that a raw request reveals, or why it cannot be decoded.
pub open spec fn revealed_of(raw: RawRequest) -> Result<Vec<RevealedAttribute>, DecodeError> {
    match decode_result(raw) {
        Ok(request) => Ok(raw.revealed_attributes),
        Err(e) => Err(e),
    }
}

/// Decodes a raw request and hands back the attributes it reveals,
/// unchanged. No rule is consulted and no proof is verified: the result
/// depends on the request's structure alone, and fails exactly when decoding
/// does.
pub fn get_revealed_attrs_from_verification_request(raw: RawRequest) -> (r: Result<
    Vec<RevealedAttribute>,
    DecodeError,
>)
    ensures
        r == revealed_of(raw),
{
    match decode(raw) {
        Ok(request) => Ok(request.revealed_attributes),
        Err(e) => Err(e),
    }
}

} // verus!
