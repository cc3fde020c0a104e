//! The data that rules and requests are made of.

use vstd::prelude::*;

verus! {

/// Byte length of an encoded group element (a commitment).
pub const GROUP_ELEMENT_LEN: usize = 32;

/// Byte length of an encoded scalar (a challenge or a response).
pub const SCALAR_LEN: usize = 32;

/// Whether the credential schema lets an attribute be shown in the clear.
#[derive(Clone, Copy, Debug, PartialEq, Eq, Structural)]
pub enum AttributeKind {
    Revealed,
    Hidden,
}

/// One attribute of the credential schema.
#[derive(Clone, Debug)]
pub struct AttributeTemplate {
    pub name: String,
    pub kind: AttributeKind,
}

/// The condition that a predicate places on an attribute.
#[derive(Clone, Debug)]
pub enum PredicateKind {
    /// The hidden value equals the single public operand.
    Equality,
    /// The hidden value lies in `[min, max]`, both bounds included.
    Range { min: u64, max: u64 },
    /// The hidden value is one of `set`.
    Membership { set: Vec<u64> },
    /// The value is shown in the clear.
    PureReveal,
}

/// A predicate on one attribute, with the public values it is stated over.
#[derive(Clone, Debug)]
pub struct PredicateSpec {
    pub attribute: String,
    pub kind: PredicateKind,
    pub public_operands: Vec<u64>,
}

/// The issuer's public parameters: the only trust anchor of a verification.
#[derive(Clone, Debug)]
pub struct IssuerParams {
    pub key_version: u64,
    pub public_key: Vec<u8>,
    pub schema: Vec<AttributeTemplate>,
}

/// What a verifier demands of a request.
#[derive(Clone, Debug)]
pub struct VerificationRule {
    pub predicates: Vec<PredicateSpec>,
    pub issuer: IssuerParams,
}

/// An attribute shown in the clear.
#[derive(Clone, Debug)]
pub struct RevealedAttribute {
    pub name: String,
    pub value: String,
}

/// An encoded group element that binds a hidden attribute value.
#[derive(Clone, Debug)]
pub struct Commitment {
    pub bytes: Vec<u8>,
}

/// The commitment to one hidden attribute.
#[derive(Clone, Debug)]
pub struct NamedCommitment {
    pub name: String,
    pub commitment: Commitment,
}

/// A fragment of a sigma-protocol transcript.
#[derive(Clone, Debug)]
pub struct ProofComponent {
    pub challenge: Vec<u8>,
    pub responses: Vec<Vec<u8>>,
    pub auxiliary_commitments: Vec<Vec<u8>>,
}

/// A proof component together with the attribute whose predicate it proves.
#[derive(Clone, Debug)]
pub struct BoundProof {
    pub attribute: String,
    pub proof: ProofComponent,
}

/// A request as the wire codec hands it over: nothing checked yet.
#[derive(Clone, Debug)]
pub struct RawRequest {
    pub revealed_attributes: Vec<RevealedAttribute>,
    pub commitments: Vec<NamedCommitment>,
    pub proof_components: Vec<BoundProof>,
    pub signature_proof: Option<ProofComponent>,
}

/// A request whose structure has been checked.
#[derive(Clone, Debug)]
pub struct VerificationRequest {
    pub revealed_attributes: Vec<RevealedAttribute>,
    pub commitments: Vec<NamedCommitment>,
    pub proof_components: Vec<BoundProof>,
    pub signature_proof: ProofComponent,
}

/// The part of a request in which a structural defect was found.
#[derive(Clone, Copy, Debug, PartialEq, Eq, Structural)]
pub enum RequestField {
    RevealedAttributes,
    Commitments,
    ProofComponents,
    SignatureProof,
}

/// Why a request could not be decoded.
#[derive(Clone, Copy, Debug, PartialEq, Eq, Structural)]
pub enum DecodeError {
    Malformed { field: RequestField },
}

/// Why a rule cannot be verified against; `index` is the predicate's position.
#[derive(Clone, Copy, Debug, PartialEq, Eq, Structural)]
pub enum StructuralError {
    /// The predicate names an attribute that the schema does not have.
    UnknownAttribute { index: usize },
    /// The predicate's operands do not fit its kind.
    IllTypedOperands { index: usize },
    /// An earlier predicate already names the same attribute.
    DuplicatePredicate { index: usize },
    /// The request holds neither a value nor a commitment for the attribute.
    MissingAttribute { index: usize },
}

/// Why a verification did not pass.
#[derive(Clone, Copy, Debug, PartialEq, Eq, Structural)]
pub enum Diagnostic {
    /// The rule is malformed, or the request lacks an attribute it names.
    Structure(StructuralError),
    /// The request is malformed.
    Decode(DecodeError),
    /// A predicate proof or the signature proof does not verify.
    CryptographicFailure,
}

/// The result of one verification: whether it passed and, if it did not,
/// why. Callers decide on `passed` alone.
#[derive(Clone, Copy, Debug, PartialEq, Eq, Structural)]
pub struct VerificationOutcome {
    pub passed: bool,
    pub diagnostic: Option<Diagnostic>,
}

impl Commitment {
    /// The commitment has the length of an encoded group element.
    pub open spec fn sized(&self) -> bool {
        self.bytes@.len() == GROUP_ELEMENT_LEN
    }
}

impl ProofComponent {
    /// Challenge and responses are scalars, auxiliary commitments are group
    /// elements, each of the expected length.
    pub open spec fn sized(&self) -> bool {
        &&& self.challenge@.len() == SCALAR_LEN
        &&& forall|i: int|
            0 <= i < self.responses@.len() ==> (#[trigger] self.responses@[i])@.len() == SCALAR_LEN
        &&& forall|i: int|
            0 <= i < self.auxiliary_commitments@.len() ==> (
            #[trigger] self.auxiliary_commitments@[i])@.len() == GROUP_ELEMENT_LEN
    }
}

} // verus!
