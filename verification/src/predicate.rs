//! The predicate engine: what each predicate of a rule asks of a request.

use vstd::prelude::*;
use crate::model::{
    Commitment, IssuerParams, PredicateKind, PredicateSpec, ProofComponent, VerificationRequest,
};
use crate::names::{is_first_position, occurs, position};
use crate::rule::{check_operands, operands_well_typed};

verus! {

/// The proof system that a verification runs on. The engines hand it
/// predicates whose operands fit their kind and parts whose lengths have been
/// checked, and combine what it answers; nothing is assumed of the answers.
pub trait ProofSystem {
    /// Whether the commitment is an element of the group.
    fn commitment_in_group(&self, commitment: &Commitment) -> (ok: bool)
        requires
            commitment.sized(),
    ;

    /// Whether `proof` shows that the value bound by `commitment` meets the
    /// predicate.
    fn verify_predicate_proof(
        &self,
        predicate: &PredicateSpec,
        commitment: &Commitment,
        proof: &ProofComponent,
    ) -> (ok: bool)
        requires
            !is_pure_reveal(*predicate),
            operands_well_typed(*predicate),
            commitment.sized(),
            proof.sized(),
    ;

    /// Whether the request's signature proof ties all its commitments and
    /// revealed values to one credential signed under `issuer`.
    fn verify_signature_proof(&self, request: &VerificationRequest, issuer: &IssuerParams) -> (ok:
        bool)
        requires
            request.well_formed(),
    ;
}

/// What a predicate asks of a request once names have been looked up.
#[derive(Clone, Copy, Debug, PartialEq, Eq, Structural)]
pub enum Obligation {
    /// Nothing is left to prove: the predicate holds by the request's shape.
    Met,
    /// The request cannot meet the predicate, whatever its proofs say.
    Unmet,
    /// The predicate holds if the proof component at position `proof`
    /// verifies against the commitment at position `commitment`.
    Proof { commitment: usize, proof: usize },
}

/// The predicate asks for a value in the clear.
pub open spec fn is_pure_reveal(p: PredicateSpec) -> bool {
    p.kind is PureReveal
}

/// The request holds a value or a commitment for the predicate's attribute.
pub open spec fn covered(p: PredicateSpec, request: VerificationRequest) -> bool {
    occurs(request.revealed_attributes@, p.attribute@) || occurs(
        request.commitments@,
        p.attribute@,
    )
}

/// The obligation `o` is the one that predicate `p` places on `request`.
/// A pure revelation is met when the attribute is revealed and not also
/// committed, and unmet otherwise. Every other predicate needs operands that
/// fit its kind, the attribute's commitment and a proof component bound to
/// the attribute, the first of each; without any of these it is unmet.
pub open spec fn is_obligation(p: PredicateSpec, request: VerificationRequest, o: Obligation) -> bool {
    let name = p.attribute@;
    if is_pure_reveal(p) {
        o == if occurs(request.revealed_attributes@, name) && !occurs(request.commitments@, name) {
            Obligation::Met
        } else {
            Obligation::Unmet
        }
    } else if operands_well_typed(p) && occurs(request.commitments@, name) && occurs(
        request.proof_components@,
        name,
    ) {
        o matches Obligation::Proof { commitment, proof } && is_first_position(
            request.commitments@,
            name,
            commitment as int,
        ) && is_first_position(request.proof_components@, name, proof as int)
    } else {
        o == Obligation::Unmet
    }
}

/// The verdict on a predicate, given its obligation and what the proof
/// system said of the proof (which counts only where a proof is asked for).
pub open spec fn verdict_of(o: Obligation, proof_verifies: bool) -> bool {
    match o {
        Obligation::Met => true,
        Obligation::Unmet => false,
        Obligation::Proof { .. } => proof_verifies,
    }
}

/// Whether the predicate is one of pure revelation.
pub fn pure_reveal(p: &PredicateSpec) -> (r: bool)
    ensures
        r == is_pure_reveal(*p),
{
    match &p.kind {
        PredicateKind::PureReveal => true,
        _ => false,
    }
}

/// Whether the request holds a value or a commitment for the attribute.
pub fn is_covered(p: &PredicateSpec, request: &VerificationRequest) -> (r: bool)
    ensures
        r == covered(*p, *request),
{
    position(&request.revealed_attributes, &p.attribute).is_some() || position(
        &request.commitments,
        &p.attribute,
    ).is_some()
}

/// Looks up what the predicate asks of the request.
pub fn obligation(p: &PredicateSpec, request: &VerificationRequest) -> (o: Obligation)
    ensures
        is_obligation(*p, *request, o),
{
    let committed = position(&request.commitments, &p.attribute);
    if pure_reveal(p) {
        let revealed = position(&request.revealed_attributes, &p.attribute);
        if revealed.is_some() && committed.is_none() {
            Obligation::Met
        } else {
            Obligation::Unmet
        }
    } else if !check_operands(p) {
        Obligation::Unmet
    } else {
        let bound = position(&request.proof_components, &p.attribute);
        match (committed, bound) {
            (Some(c), Some(b)) => Obligation::Proof { commitment: c, proof: b },
            _ => Obligation::Unmet,
        }
    }
}

/// The verdict on a predicate from its obligation and the proof system's
/// answer.
pub fn predicate_verdict(o: Obligation, proof_verifies: bool) -> (ok: bool)
    ensures
        ok == verdict_of(o, proof_verifies),
{
    match o {
        Obligation::Met => true,
        Obligation::Unmet => false,
        Obligation::Proof { .. } => proof_verifies,
    }
}

/// Whether predicate `p` holds of `request`, where `answer` is what the
/// proof system said of the proof bound to it. A pure revelation holds when
/// the attribute is revealed and not also committed. Any other predicate
/// holds when its operands fit its kind, the attribute is committed, a proof
/// component is bound to it, and the proof system accepted that proof.
pub open spec fn holds(p: PredicateSpec, request: VerificationRequest, answer: bool) -> bool {
    if is_pure_reveal(p) {
        occurs(request.revealed_attributes@, p.attribute@) && !occurs(
            request.commitments@,
            p.attribute@,
        )
    } else {
        operands_well_typed(p) && occurs(request.commitments@, p.attribute@) && occurs(
            request.proof_components@,
            p.attribute@,
        ) && answer
    }
}

/// The verdict computed through a predicate's obligation is `holds`.
pub proof fn lemma_verdict_is_holds(
    p: PredicateSpec,
    request: VerificationRequest,
    o: Obligation,
    answer: bool,
)
    requires
        is_obligation(p, request, o),
    ensures
        verdict_of(o, answer) == holds(p, request, answer),
{
}

/// Whether the predicate holds of the request, given the proof system's
/// answer on the proof bound to it.
pub fn predicate_holds(p: &PredicateSpec, request: &VerificationRequest, answer: bool) -> (ok: bool)
    ensures
        ok == holds(*p, *request, answer),
{
    let o = obligation(p, request);
    proof {
        lemma_verdict_is_holds(*p, *request, o, answer);
    }
    predicate_verdict(o, answer)
}

/// Verifies one predicate against a decoded request. The proof system is
/// asked only where the predicate's obligation is a proof, and is handed
/// the attribute's commitment and the proof component bound to it. The
/// verdict is `holds` for whatever the proof system answered: a pure
/// revelation is decided by the request's shape alone, and no answer makes
/// up for operands, a commitment or a proof component that are wanting.
pub fn verify_predicate<P: ProofSystem>(
    system: &P,
    p: &PredicateSpec,
    request: &VerificationRequest,
) -> (ok: bool)
    requires
        request.well_formed(),
    ensures
        ok ==> holds(*p, *request, true),
        holds(*p, *request, false) ==> ok,
        is_pure_reveal(*p) ==> ok == (occurs(request.revealed_attributes@, p.attribute@)
            && !occurs(request.commitments@, p.attribute@)),
{
    let o = obligation(p, request);
    proof {
        lemma_verdict_is_holds(*p, *request, o, true);
        lemma_verdict_is_holds(*p, *request, o, false);
    }
    match o {
        Obligation::Proof { commitment, proof } => {
            let answer = system.verify_predicate_proof(
                p,
                &request.commitments[commitment].commitment,
                &request.proof_components[proof].proof,
            );
            predicate_verdict(o, answer)
        },
        _ => predicate_verdict(o, false),
    }
}

} // verus!
