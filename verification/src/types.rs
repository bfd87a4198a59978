use vstd::prelude::*;

verus! {

/// Size of a sector in bytes.
#[derive(Clone, Copy, Debug, PartialEq, Eq, Structural)]
pub struct SectorSize(pub u64);

/// Number of bytes of a piece after padding and alignment.
#[derive(Clone, Copy, Debug, PartialEq, Eq, Structural)]
pub struct PaddedBytesAmount(pub u64);

/// Number of bytes of a piece as the user supplied it.
#[derive(Clone, Copy, Debug, PartialEq, Eq, Structural)]
pub struct UnpaddedBytesAmount(pub u64);

/// Number of partitions of a replication proof.
#[derive(Clone, Copy, Debug, PartialEq, Eq, Structural)]
pub struct PoRepProofPartitions(pub u8);

/// Number of partitions of a spacetime proof.
#[derive(Clone, Copy, Debug, PartialEq, Eq, Structural)]
pub struct PoStProofPartitions(pub u8);

/// Configuration of replication-proof verification.
#[derive(Clone, Copy, Debug, PartialEq, Eq, Structural)]
pub struct PoRepConfig(pub SectorSize, pub PoRepProofPartitions);

/// Configuration of spacetime-proof verification.
#[derive(Clone, Copy, Debug, PartialEq, Eq, Structural)]
pub struct PoStConfig(pub SectorSize, pub PoStProofPartitions);

/// What the proof library is asked when a seal is verified.
#[derive(Clone, Debug, PartialEq, Eq)]
pub struct SealRequest {
    pub config: PoRepConfig,
    pub comm_r: [u8; 32],
    pub comm_d: [u8; 32],
    pub comm_r_star: [u8; 32],
    pub prover_id: [u8; 31],
    pub sector_id: [u8; 31],
    pub proof: Vec<u8>,
}

/// What the proof library is asked when a proof-of-spacetime is verified.
#[derive(Clone, Debug, PartialEq, Eq)]
pub struct PoStRequest {
    pub config: PoStConfig,
    pub comm_rs: Vec<[u8; 32]>,
    pub challenge_seed: [u8; 32],
    pub proofs: Vec<Vec<u8>>,
    pub faults: Vec<u64>,
}

impl SealRequest {
    /// The proof is made of as many partitions as the configuration says, at
    /// least one, of 192 bytes each.
    pub open spec fn wf(self) -> bool {
        &&& self.config.1.0 >= 1
        &&& self.proof@.len() == self.config.1.0 * 192
    }
}

impl PoStRequest {
    /// Every proof is made of as many partitions as the configuration says, at
    /// least one, of 192 bytes each.
    pub open spec fn wf(self) -> bool {
        &&& self.config.1.0 >= 1
        &&& forall|i: int|
            0 <= i < self.proofs@.len() ==> (#[trigger] self.proofs@[i])@.len() == self.config.1.0
                * 192
    }
}

/// What the proof library is asked when a piece-inclusion proof is verified.
#[derive(Clone, Debug, PartialEq, Eq)]
pub struct PieceInclusionRequest {
    pub proof: Vec<u8>,
    pub comm_d: [u8; 32],
    pub comm_p: [u8; 32],
    pub padded_and_aligned_piece_size: PaddedBytesAmount,
    pub sector_size: SectorSize,
}

} // verus!
