//! Structural decoding of requests: presence and sizes, nothing algebraic.

use vstd::prelude::*;
use crate::model::{
    BoundProof, DecodeError, NamedCommitment, ProofComponent, RawRequest, RequestField,
    VerificationRequest, GROUP_ELEMENT_LEN, SCALAR_LEN,
};
use crate::names::{all_distinct, distinct};

verus! {

/// Every item has exactly `len` bytes.
pub open spec fn each_has_len(items: Seq<Vec<u8>>, len: int) -> bool {
    forall|i: int| 0 <= i < items.len() ==> (#[trigger] items[i])@.len() == len
}

/// Every commitment has the length of a group element.
pub open spec fn commitments_sized(items: Seq<NamedCommitment>) -> bool {
    forall|i: int| 0 <= i < items.len() ==> (#[trigger] items[i]).commitment.sized()
}

/// Every bound proof component has parts of the expected lengths.
pub open spec fn proofs_sized(items: Seq<BoundProof>) -> bool {
    forall|i: int| 0 <= i < items.len() ==> (#[trigger] items[i]).proof.sized()
}

/// The field of the raw request in which the first structural defect lies,
/// the fields taken in the order in which they are declared: a revealed name
/// that stands twice; a commitment of the wrong length or a committed name
/// that stands twice; a proof component with a part of the wrong length; a
/// signature proof that is absent or has a part of the wrong length.
pub open spec fn malformed_field(raw: RawRequest) -> Option<RequestField> {
    if !distinct(raw.revealed_attributes@) {
        Some(RequestField::RevealedAttributes)
    } else if !commitments_sized(raw.commitments@) || !distinct(raw.commitments@) {
        Some(RequestField::Commitments)
    } else if !proofs_sized(raw.proof_components@) {
        Some(RequestField::ProofComponents)
    } else if !(raw.signature_proof matches Some(p) && p.sized()) {
        Some(RequestField::SignatureProof)
    } else {
        None
    }
}

/// What decoding a raw request gives: its parts unchanged, or the error
/// that names the first malformed field.
pub open spec fn decode_result(raw: RawRequest) -> Result<VerificationRequest, DecodeError> {
    match malformed_field(raw) {
        Some(field) => Err(DecodeError::Malformed { field }),
        None => Ok(
            VerificationRequest {
                revealed_attributes: raw.revealed_attributes,
                commitments: raw.commitments,
                proof_components: raw.proof_components,
                signature_proof: raw.signature_proof->0,
            },
        ),
    }
}

impl VerificationRequest {
    /// What decoding establishes: names stand once in each mapping, and every
    /// commitment and proof part has the expected length.
    pub open spec fn well_formed(&self) -> bool {
        &&& distinct(self.revealed_attributes@)
        &&& distinct(self.commitments@)
        &&& commitments_sized(self.commitments@)
        &&& proofs_sized(self.proof_components@)
        &&& self.signature_proof.sized()
    }
}

/// Whether every item has exactly `len` bytes.
pub fn check_lengths(items: &Vec<Vec<u8>>, len: usize) -> (ok: bool)
    ensures
        ok == each_has_len(items@, len as int),
{
    let mut i: usize = 0;
    while i < items.len()
        invariant
            i <= items@.len(),
            forall|k: int| 0 <= k < i ==> (#[trigger] items@[k])@.len() == len,
        decreases items@.len() - i,
    {
        if items[i].len() != len {
            return false;
        }
        i = i + 1;
    }
    true
}

/// Whether the parts of a proof component have the expected lengths.
pub fn check_component(p: &ProofComponent) -> (ok: bool)
    ensures
        ok == p.sized(),
{
    p.challenge.len() == SCALAR_LEN && check_lengths(&p.responses, SCALAR_LEN) && check_lengths(
        &p.auxiliary_commitments,
        GROUP_ELEMENT_LEN,
    )
}

/// Whether every commitment has the length of a group element.
pub fn check_commitments(items: &Vec<NamedCommitment>) -> (ok: bool)
    ensures
        ok == commitments_sized(items@),
{
    let mut i: usize = 0;
    while i < items.len()
        invariant
            i <= items@.len(),
            forall|k: int| 0 <= k < i ==> (#[trigger] items@[k]).commitment.sized(),
        decreases items@.len() - i,
    {
        if items[i].commitment.bytes.len() != GROUP_ELEMENT_LEN {
            return false;
        }
        i = i + 1;
    }
    true
}

/// Whether every bound proof component has parts of the expected lengths.
pub fn check_proofs(items: &Vec<BoundProof>) -> (ok: bool)
    ensures
        ok == proofs_sized(items@),
{
    let mut i: usize = 0;
    while i < items.len()
        invariant
            i <= items@.len(),
            forall|k: int| 0 <= k < i ==> (#[trigger] items@[k]).proof.sized(),
        decreases items@.len() - i,
    {
        if !check_component(&items[i].proof) {
            return false;
        }
        i = i + 1;
    }
    true
}

/// The first malformed field of a raw request, if there is one.
pub fn find_malformed(raw: &RawRequest) -> (found: Option<RequestField>)
    ensures
        found == malformed_field(*raw),
{
    if !all_distinct(&raw.revealed_attributes) {
        return Some(RequestField::RevealedAttributes);
    }
    if !check_commitments(&raw.commitments) || !all_distinct(&raw.commitments) {
        return Some(RequestField::Commitments);
    }
    if !check_proofs(&raw.proof_components) {
        return Some(RequestField::ProofComponents);
    }
    match &raw.signature_proof {
        Some(p) => {
            if check_component(p) {
                None
            } else {
                Some(RequestField::SignatureProof)
            }
        },
        None => Some(RequestField::SignatureProof),
    }
}

/// Decodes a raw request. Only presence and byte lengths are examined:
/// whether a commitment lies in the group is left to the proof system.
/// The request is handed on unchanged exactly when no field is malformed.
pub fn decode(raw: RawRequest) -> (r: Result<VerificationRequest, DecodeError>)
    ensures
        r == decode_result(raw),
        r is Ok <==> malformed_field(raw) is None,
        r matches Ok(request) ==> request.well_formed(),
{
    match find_malformed(&raw) {
        Some(field) => Err(DecodeError::Malformed { field }),
        None => {
            let RawRequest { revealed_attributes, commitments, proof_components, signature_proof } =
                raw;
            match signature_proof {
                Some(p) => Ok(
                    VerificationRequest {
                        revealed_attributes,
                        commitments,
                        proof_components,
                        signature_proof: p,
                    },
                ),
                None => Err(DecodeError::Malformed { field: RequestField::SignatureProof }),
            }
        },
    }
}

} // verus!
