//! The commitment and range-proof primitives this library builds on, taken
//! from `bulletproofs`, `curve25519-dalek-ng`, `merlin` and `rand`.
use vstd::prelude::*;
use bulletproofs::{BulletproofGens, PedersenGens, ProofError, RangeProof};
use curve25519_dalek_ng::ristretto::CompressedRistretto;
use curve25519_dalek_ng::scalar::Scalar;
use merlin::Transcript;
use vstd::arithmetic::power2::pow2;

verus! {

#[verifier::external_type_specification]
#[verifier::external_body]
pub struct ExRangeProof(RangeProof);

#[verifier::external_type_specification]
#[verifier::external_body]
pub struct ExCompressedRistretto(CompressedRistretto);

#[verifier::external_type_specification]
#[verifier::external_body]
pub struct ExScalar(Scalar);

#[verifier::external_type_specification]
#[verifier::external_body]
pub struct ExPedersenGens(PedersenGens);

#[verifier::external_type_specification]
#[verifier::external_body]
pub struct ExBulletproofGens(BulletproofGens);

#[verifier::external_type_specification]
#[verifier::external_body]
pub struct ExTranscript(Transcript);

#[verifier::external_type_specification]
#[verifier::external_body]
pub struct ExProofError(ProofError);

/// The generators a proof is made and checked under: the standard Pedersen
/// bases and Bulletproof generators of the recorded capacities.
pub struct Generators {
    pedersen: PedersenGens,
    bulletproof: BulletproofGens,
    gens_capacity: usize,
    party_capacity: usize,
}

impl Generators {
    pub closed spec fn spec_gens_capacity(&self) -> nat {
        self.gens_capacity as nat
    }

    pub closed spec fn spec_party_capacity(&self) -> nat {
        self.party_capacity as nat
    }
}

/// The parameters a proof was made under, and the value it commits to.
pub struct ProofOrigin {
    pub label: Seq<char>,
    pub gens_capacity: nat,
    pub party_capacity: nat,
    pub range_bits: nat,
    pub value: nat,
}

/// A commitment to a secret value and a range proof over it, with their wire
/// forms. A proof made in this process records the parameters and the value it
/// was made with; one rebuilt from bytes records nothing.
pub struct ZkProof {
    proof: RangeProof,
    commitment: CompressedRistretto,
    proof_bytes: Vec<u8>,
    commitment_bytes: Vec<u8>,
    origin: Ghost<Option<ProofOrigin>>,
}

impl ZkProof {
    /// What the proof was made with, if this process made it.
    pub closed spec fn origin(&self) -> Option<ProofOrigin> {
        self.origin@
    }

    /// The wire form of the range proof.
    pub closed spec fn spec_proof_bytes(&self) -> Seq<u8> {
        self.proof_bytes@
    }

    /// The wire form of the commitment.
    pub closed spec fn spec_commitment_bytes(&self) -> Seq<u8> {
        self.commitment_bytes@
    }

    /// The wire forms have the lengths of a proof and of a commitment.
    pub open spec fn well_formed(&self) -> bool {
        &&& self.spec_proof_bytes().len() % 32 == 0
        &&& self.spec_proof_bytes().len() >= 224
        &&& self.spec_commitment_bytes().len() == 32
    }

    /// The range proof.
    pub fn range_proof(&self) -> &RangeProof {
        &self.proof
    }

    /// The commitment.
    pub fn commitment(&self) -> &CompressedRistretto {
        &self.commitment
    }

    /// The wire form of the range proof.
    pub fn proof_bytes(&self) -> (r: &Vec<u8>)
        ensures
            r@ == self.spec_proof_bytes(),
    {
        &self.proof_bytes
    }

    /// The wire form of the commitment.
    pub fn commitment_bytes(&self) -> (r: &Vec<u8>)
        ensures
            r@ == self.spec_commitment_bytes(),
    {
        &self.commitment_bytes
    }

    /// A proof and commitment from elsewhere, with no record of their making.
    pub fn from_parts(proof: RangeProof, commitment: CompressedRistretto) -> (r: ZkProof)
        ensures
            r.origin() is None,
            r.well_formed(),
    {
        let proof_bytes = range_proof_to_bytes(&proof);
        let commitment_bytes = commitment_to_bytes(&commitment);
        ZkProof { proof, commitment, proof_bytes, commitment_bytes, origin: Ghost(None) }
    }
}

/// The record of a proof over `value` made under `label`, `gens` and width `n`.
pub open spec fn origin_record(label: Seq<char>, gens: &Generators, n: nat, value: nat) -> ProofOrigin {
    ProofOrigin {
        label,
        gens_capacity: gens.spec_gens_capacity(),
        party_capacity: gens.spec_party_capacity(),
        range_bits: n,
        value,
    }
}

/// Whether `o` records the label, generator capacities and width given.
pub open spec fn made_under(
    o: ProofOrigin,
    label: Seq<char>,
    gens_capacity: nat,
    party_capacity: nat,
    range_bits: nat,
) -> bool {
    &&& o.label == label
    &&& o.gens_capacity == gens_capacity
    &&& o.party_capacity == party_capacity
    &&& o.range_bits == range_bits
}

/// Relies on `PedersenGens::default` and `BulletproofGens::new`: the standard
/// Pedersen bases, and generators for proofs of up to `gens_capacity` bits
/// aggregated over up to `party_capacity` values.
#[verifier::external_body]
pub(crate) fn generators(gens_capacity: usize, party_capacity: usize) -> (r: Generators)
    ensures
        r.spec_gens_capacity() == gens_capacity,
        r.spec_party_capacity() == party_capacity,
{
    Generators {
        pedersen: PedersenGens::default(),
        bulletproof: BulletproofGens::new(gens_capacity, party_capacity),
        gens_capacity,
        party_capacity,
    }
}

/// Relies on `Scalar::random` over `rand::thread_rng`: a fresh blinding factor
/// from a cryptographically secure generator.
#[verifier::external_body]
pub(crate) fn random_blinding() -> Scalar {
    Scalar::random(&mut rand::thread_rng())
}

/// Relies on `RangeProof::prove_single` over a fresh `Transcript::new(label)`:
/// a commitment to `v` under `blinding` and a proof over it for the range
/// `[0, 2^n)`, kept with their `to_bytes` wire forms (which
/// `RangeProof::from_bytes` accepts: canonical scalars, 2 lg n + 9 elements)
/// and recorded as made under these parameters with value `v`.
#[verifier::external_body]
pub(crate) fn prove_single(
    gens: &Generators,
    label: &'static str,
    v: u64,
    blinding: &Scalar,
    n: usize,
) -> (r: Result<ZkProof, ProofError>)
    ensures
        r matches Ok(z) ==> {
            &&& z.origin() matches Some(o)
            &&& made_under(o, label@, gens.spec_gens_capacity(), gens.spec_party_capacity(), n as nat)
            &&& o.value == v
            &&& z.well_formed()
            &&& proof_parses(z.spec_proof_bytes())
        },
{
    let mut t = Transcript::new(label.as_bytes());
    match RangeProof::prove_single(&gens.bulletproof, &gens.pedersen, &mut t, v, blinding, n) {
        Ok((proof, commitment)) => Ok(ZkProof {
            proof_bytes: proof.to_bytes(),
            commitment_bytes: commitment.to_bytes().to_vec(),
            proof,
            commitment,
            origin: Ghost(Some(origin_record(label@, gens, n as nat, v as nat))),
        }),
        Err(e) => Err(e),
    }
}

/// Relies on `RangeProof::verify_single` over a fresh `Transcript::new(label)`:
/// whether the proof shows that the committed value lies in `[0, 2^n)`. A width
/// other than 8, 16, 32 or 64 bits, or too few generators or parties, is
/// rejected before any check. A proof made under the same label, generators
/// and width, over a value that lies in the range, is accepted.
#[verifier::external_body]
pub(crate) fn verify_single(
    proof: &ZkProof,
    gens: &Generators,
    label: &'static str,
    n: usize,
) -> (r: Result<(), ProofError>)
    ensures
        r is Ok ==> (n == 8 || n == 16 || n == 32 || n == 64),
        r is Ok ==> gens.spec_gens_capacity() >= n && gens.spec_party_capacity() >= 1,
        proof.origin() matches Some(o) && made_under(
            o,
            label@,
            gens.spec_gens_capacity(),
            gens.spec_party_capacity(),
            n as nat,
        ) && o.value < pow2(n as nat) ==> r is Ok,
{
    let mut t = Transcript::new(label.as_bytes());
    proof.proof.verify_single(&gens.bulletproof, &gens.pedersen, &mut t, &proof.commitment, n)
}

/// Relies on `RangeProof::to_bytes`: the proof's wire form, seven 32-byte
/// elements followed by the inner-product proof's 32-byte elements.
#[verifier::external_body]
pub(crate) fn range_proof_to_bytes(proof: &RangeProof) -> (r: Vec<u8>)
    ensures
        r@.len() % 32 == 0,
        r@.len() >= 224,
{
    proof.to_bytes()
}

/// Whether `RangeProof::from_bytes` accepts `bytes`.
pub uninterp spec fn proof_parses(bytes: Seq<u8>) -> bool;

/// Relies on `RangeProof::from_bytes`, which rejects a slice whose length is
/// not a multiple of 32 or is shorter than 224 bytes.
#[verifier::external_body]
pub(crate) fn range_proof_from_bytes(bytes: &[u8]) -> (r: Result<RangeProof, ProofError>)
    ensures
        r is Ok <==> proof_parses(bytes@),
        (bytes@.len() % 32 != 0 || bytes@.len() < 224) ==> r is Err,
{
    RangeProof::from_bytes(bytes)
}

/// Relies on `CompressedRistretto::to_bytes`: the 32-byte encoding of a point.
#[verifier::external_body]
pub(crate) fn commitment_to_bytes(commitment: &CompressedRistretto) -> (r: Vec<u8>)
    ensures
        r@.len() == 32,
{
    commitment.to_bytes().to_vec()
}

/// Relies on `CompressedRistretto::from_slice`, which panics unless the slice
/// holds exactly 32 bytes.
#[verifier::external_body]
pub(crate) fn commitment_from_slice(bytes: &[u8]) -> CompressedRistretto
    requires
        bytes@.len() == 32,
{
    CompressedRistretto::from_slice(bytes)
}

} // verus!

verus! {

/// Relies on `ProofError`'s `Display` impl: the error's message.
#[verifier::external_body]
pub(crate) fn proof_error_message(e: &ProofError) -> String {
    e.to_string()
}

} // verus!
