use disclosure_proofs::assembly::get_revealed_attrs_from_verification_request;
use disclosure_proofs::decode::{
    check_commitments, check_component, check_lengths, check_proofs, decode, find_malformed,
};
use disclosure_proofs::model::{
    BoundProof, Commitment, DecodeError, NamedCommitment, ProofComponent, RawRequest,
    RequestField, RevealedAttribute, GROUP_ELEMENT_LEN, SCALAR_LEN,
};

fn revealed(name: &str, value: &str) -> RevealedAttribute {
    RevealedAttribute { name: name.to_string(), value: value.to_string() }
}

fn committed(name: &str, len: usize) -> NamedCommitment {
    NamedCommitment { name: name.to_string(), commitment: Commitment { bytes: vec![3u8; len] } }
}

fn component(challenge: usize, responses: Vec<usize>, auxiliary: Vec<usize>) -> ProofComponent {
    ProofComponent {
        challenge: vec![1u8; challenge],
        responses: responses.into_iter().map(|n| vec![2u8; n]).collect(),
        auxiliary_commitments: auxiliary.into_iter().map(|n| vec![4u8; n]).collect(),
    }
}

fn good_component() -> ProofComponent {
    component(32, vec![32, 32], vec![32])
}

fn bound(name: &str, proof: ProofComponent) -> BoundProof {
    BoundProof { attribute: name.to_string(), proof }
}

fn good_request() -> RawRequest {
    RawRequest {
        revealed_attributes: vec![revealed("age_bracket", "adult")],
        commitments: vec![committed("income", 32)],
        proof_components: vec![bound("income", good_component())],
        signature_proof: Some(good_component()),
    }
}

fn malformed(field: RequestField) -> DecodeError {
    DecodeError::Malformed { field }
}

#[test]
fn lengths_are_thirty_two_bytes() {
    assert_eq!(GROUP_ELEMENT_LEN, 32);
    assert_eq!(SCALAR_LEN, 32);
}

#[test]
fn decode_hands_the_parts_on_unchanged() {
    let raw = good_request();
    let request = decode(raw.clone()).unwrap();
    assert_eq!(request.revealed_attributes.len(), 1);
    assert_eq!(request.revealed_attributes[0].name, "age_bracket");
    assert_eq!(request.revealed_attributes[0].value, "adult");
    assert_eq!(request.commitments.len(), 1);
    assert_eq!(request.commitments[0].name, "income");
    assert_eq!(request.commitments[0].commitment.bytes, vec![3u8; 32]);
    assert_eq!(request.proof_components.len(), 1);
    assert_eq!(request.proof_components[0].attribute, "income");
    assert_eq!(request.proof_components[0].proof.challenge, vec![1u8; 32]);
    assert_eq!(request.signature_proof.responses, vec![vec![2u8; 32], vec![2u8; 32]]);
    assert_eq!(request.signature_proof.auxiliary_commitments, vec![vec![4u8; 32]]);
}

#[test]
fn decode_accepts_a_request_with_nothing_but_a_signature_proof() {
    let raw = RawRequest {
        revealed_attributes: vec![],
        commitments: vec![],
        proof_components: vec![],
        signature_proof: Some(component(32, vec![], vec![])),
    };
    assert!(decode(raw).is_ok());
}

#[test]
fn decode_rejects_a_truncated_commitment() {
    let mut raw = good_request();
    raw.commitments = vec![committed("income", 31)];
    assert_eq!(decode(raw).err(), Some(malformed(RequestField::Commitments)));
}

#[test]
fn decode_rejects_an_overlong_commitment() {
    let mut raw = good_request();
    raw.commitments = vec![committed("country", 32), committed("income", 33)];
    assert_eq!(decode(raw).err(), Some(malformed(RequestField::Commitments)));
}

#[test]
fn decode_rejects_a_name_committed_twice() {
    let mut raw = good_request();
    raw.commitments = vec![committed("income", 32), committed("income", 32)];
    assert_eq!(decode(raw).err(), Some(malformed(RequestField::Commitments)));
}

#[test]
fn decode_rejects_a_name_revealed_twice() {
    let mut raw = good_request();
    raw.revealed_attributes = vec![revealed("age_bracket", "adult"), revealed("age_bracket", "minor")];
    assert_eq!(decode(raw).err(), Some(malformed(RequestField::RevealedAttributes)));
}

#[test]
fn decode_rejects_a_wrong_size_scalar_in_a_response() {
    let mut raw = good_request();
    raw.proof_components = vec![bound("income", component(32, vec![32, 16], vec![32]))];
    assert_eq!(decode(raw).err(), Some(malformed(RequestField::ProofComponents)));
}

#[test]
fn decode_rejects_a_wrong_size_challenge() {
    let mut raw = good_request();
    raw.proof_components = vec![bound("income", component(33, vec![32], vec![32]))];
    assert_eq!(decode(raw).err(), Some(malformed(RequestField::ProofComponents)));
}

#[test]
fn decode_rejects_a_wrong_size_auxiliary_commitment() {
    let mut raw = good_request();
    raw.proof_components = vec![bound("income", component(32, vec![32], vec![32, 0]))];
    assert_eq!(decode(raw).err(), Some(malformed(RequestField::ProofComponents)));
}

#[test]
fn decode_rejects_a_missing_signature_proof() {
    let mut raw = good_request();
    raw.signature_proof = None;
    assert_eq!(decode(raw).err(), Some(malformed(RequestField::SignatureProof)));
}

#[test]
fn decode_rejects_a_signature_proof_with_a_short_scalar() {
    let mut raw = good_request();
    raw.signature_proof = Some(component(32, vec![31], vec![]));
    assert_eq!(decode(raw).err(), Some(malformed(RequestField::SignatureProof)));
}

#[test]
fn decode_names_the_first_malformed_field() {
    let mut raw = good_request();
    raw.signature_proof = None;
    raw.proof_components = vec![bound("income", component(1, vec![], vec![]))];
    assert_eq!(find_malformed(&raw), Some(RequestField::ProofComponents));
    raw.commitments = vec![committed("income", 1)];
    assert_eq!(find_malformed(&raw), Some(RequestField::Commitments));
    raw.revealed_attributes = vec![revealed("x", "1"), revealed("x", "1")];
    assert_eq!(find_malformed(&raw), Some(RequestField::RevealedAttributes));
    assert_eq!(decode(raw).err(), Some(malformed(RequestField::RevealedAttributes)));
}

#[test]
fn find_malformed_finds_nothing_in_a_good_request() {
    assert_eq!(find_malformed(&good_request()), None);
}

#[test]
fn check_lengths_compares_every_item() {
    assert!(check_lengths(&vec![], 32));
    assert!(check_lengths(&vec![vec![0u8; 32], vec![1u8; 32]], 32));
    assert!(!check_lengths(&vec![vec![0u8; 32], vec![1u8; 31]], 32));
    assert!(!check_lengths(&vec![vec![]], 32));
}

#[test]
fn check_component_wants_scalars_and_group_elements() {
    assert!(check_component(&good_component()));
    assert!(!check_component(&component(0, vec![32], vec![32])));
    assert!(!check_component(&component(32, vec![64], vec![32])));
    assert!(!check_component(&component(32, vec![32], vec![31])));
}

#[test]
fn check_commitments_and_proofs() {
    assert!(check_commitments(&vec![committed("a", 32), committed("b", 32)]));
    assert!(!check_commitments(&vec![committed("a", 32), committed("b", 8)]));
    assert!(check_proofs(&vec![bound("a", good_component())]));
    assert!(!check_proofs(&vec![bound("a", good_component()), bound("b", component(2, vec![], vec![]))]));
}

#[test]
fn extraction_returns_the_revealed_attributes_unchanged() {
    let mut raw = good_request();
    raw.revealed_attributes = vec![revealed("age_bracket", "adult"), revealed("city", "Shenzhen")];
    let attrs = get_revealed_attrs_from_verification_request(raw).unwrap();
    assert_eq!(attrs.len(), 2);
    assert_eq!(attrs[0].name, "age_bracket");
    assert_eq!(attrs[0].value, "adult");
    assert_eq!(attrs[1].name, "city");
    assert_eq!(attrs[1].value, "Shenzhen");
}

#[test]
fn extraction_twice_gives_the_same_attributes() {
    let raw = good_request();
    let first = get_revealed_attrs_from_verification_request(raw.clone()).unwrap();
    let second = get_revealed_attrs_from_verification_request(raw).unwrap();
    assert_eq!(first.len(), second.len());
    for i in 0..first.len() {
        assert_eq!(first[i].name, second[i].name);
        assert_eq!(first[i].value, second[i].value);
    }
}

#[test]
fn extraction_fails_exactly_as_decoding_does() {
    let mut raw = good_request();
    raw.commitments = vec![committed("income", 5)];
    assert_eq!(
        get_revealed_attrs_from_verification_request(raw).err(),
        Some(malformed(RequestField::Commitments))
    );
    let mut raw = good_request();
    raw.signature_proof = None;
    assert_eq!(
        get_revealed_attrs_from_verification_request(raw).err(),
        Some(malformed(RequestField::SignatureProof))
    );
}
