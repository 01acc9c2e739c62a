use vstd::prelude::*;

use crate::openings::StarkOpeningSet;

verus! {

/// A full proof: the commitments, the claimed openings and the batch opening
/// argument. `Cap` is a commitment cap and `Op` the opening proof.
pub struct StarkProof<Cap, Op> {
    /// Merkle cap of the low-degree extensions of the trace polynomials.
    pub trace_cap: Cap,
    /// Merkle cap of the low-degree extensions of the quotient polynomials.
    pub quotient_polys_cap: Cap,
    /// Purported values of each polynomial at the challenge point.
    pub openings: StarkOpeningSet,
    /// A batch opening argument for all openings.
    pub opening_proof: Op,
}

/// A full proof together with the public inputs it was made for.
pub struct StarkProofWithPublicInputs<Cap, Op> {
    pub proof: StarkProof<Cap, Op>,
    /// Base-field elements, as the caller supplied them.
    pub public_inputs: Vec<u64>,
}

/// A proof without the quotient cap, which the verifier recovers from
/// context, and with the opening argument in compressed form `COp`.
pub struct CompressedStarkProof<Cap, COp> {
    /// Merkle cap of the low-degree extensions of the trace polynomials.
    pub trace_cap: Cap,
    /// Purported values of each polynomial at the challenge point.
    pub openings: StarkOpeningSet,
    /// The batch opening argument, compressed.
    pub opening_proof: COp,
}

/// A compressed proof together with the public inputs it was made for.
pub struct CompressedStarkProofWithPublicInputs<Cap, COp> {
    pub proof: CompressedStarkProof<Cap, COp>,
    /// Base-field elements, as the caller supplied them.
    pub public_inputs: Vec<u64>,
}

impl<Cap, Op> StarkProof<Cap, Op> {
    /// The proof with its quotient cap dropped and its opening argument
    /// replaced by the compressed one.
    pub open spec fn compressed<COp>(self, opening_proof: COp) -> CompressedStarkProof<Cap, COp> {
        CompressedStarkProof { trace_cap: self.trace_cap, openings: self.openings, opening_proof }
    }

    /// Drops the quotient cap and carries `opening_proof`, the compressed form
    /// of this proof's opening argument.
    pub fn compress<COp>(self, opening_proof: COp) -> (r: CompressedStarkProof<Cap, COp>)
        ensures
            r == self.compressed(opening_proof),
    {
        CompressedStarkProof { trace_cap: self.trace_cap, openings: self.openings, opening_proof }
    }
}

impl<Cap, COp> CompressedStarkProof<Cap, COp> {
    /// The full proof with the quotient cap restored and the opening argument
    /// replaced by the full one.
    pub open spec fn decompressed<Op>(self, quotient_polys_cap: Cap, opening_proof: Op) -> StarkProof<Cap, Op> {
        StarkProof {
            trace_cap: self.trace_cap,
            quotient_polys_cap,
            openings: self.openings,
            opening_proof,
        }
    }

    /// Restores the quotient cap, re-derived from context, and carries
    /// `opening_proof`, the full form of this proof's opening argument.
    pub fn decompress<Op>(self, quotient_polys_cap: Cap, opening_proof: Op) -> (r: StarkProof<Cap, Op>)
        ensures
            r == self.decompressed(quotient_polys_cap, opening_proof),
    {
        StarkProof {
            trace_cap: self.trace_cap,
            quotient_polys_cap,
            openings: self.openings,
            opening_proof,
        }
    }
}

impl<Cap, Op> StarkProofWithPublicInputs<Cap, Op> {
    /// The compressed proof with the same public inputs.
    pub open spec fn compressed<COp>(self, opening_proof: COp) -> CompressedStarkProofWithPublicInputs<Cap, COp> {
        CompressedStarkProofWithPublicInputs {
            proof: self.proof.compressed(opening_proof),
            public_inputs: self.public_inputs,
        }
    }

    /// Compresses the proof and keeps the public inputs as they are.
    pub fn compress<COp>(self, opening_proof: COp) -> (r: CompressedStarkProofWithPublicInputs<Cap, COp>)
        ensures
            r == self.compressed(opening_proof),
    {
        CompressedStarkProofWithPublicInputs {
            proof: self.proof.compress(opening_proof),
            public_inputs: self.public_inputs,
        }
    }
}

impl<Cap, COp> CompressedStarkProofWithPublicInputs<Cap, COp> {
    /// The full proof with the same public inputs.
    pub open spec fn decompressed<Op>(
        self,
        quotient_polys_cap: Cap,
        opening_proof: Op,
    ) -> StarkProofWithPublicInputs<Cap, Op> {
        StarkProofWithPublicInputs {
            proof: self.proof.decompressed(quotient_polys_cap, opening_proof),
            public_inputs: self.public_inputs,
        }
    }

    /// Decompresses the proof and keeps the public inputs as they are.
    pub fn decompress<Op>(self, quotient_polys_cap: Cap, opening_proof: Op) -> (r: StarkProofWithPublicInputs<
        Cap,
        Op,
    >)
        ensures
            r == self.decompressed(quotient_polys_cap, opening_proof),
    {
        StarkProofWithPublicInputs {
            proof: self.proof.decompress(quotient_polys_cap, opening_proof),
            public_inputs: self.public_inputs,
        }
    }
}

/// Compressing a proof and decompressing it again, with the quotient cap it
/// had and the opening argument that the compressed one expands back to,
/// gives the proof back.
pub proof fn lemma_compress_round_trip<Cap, Op, COp>(p: StarkProof<Cap, Op>, compressed_opening: COp)
    ensures
        p.compressed(compressed_opening).decompressed(p.quotient_polys_cap, p.opening_proof) == p,
{
}

/// The same round trip for a proof with its public inputs, which come back
/// unchanged.
pub proof fn lemma_compress_round_trip_with_inputs<Cap, Op, COp>(
    p: StarkProofWithPublicInputs<Cap, Op>,
    compressed_opening: COp,
)
    ensures
        p.compressed(compressed_opening).decompressed(p.proof.quotient_polys_cap, p.proof.opening_proof)
            == p,
{
}

} // verus!
