use vstd::prelude::*;
use vstd::slice::slice_to_vec;
use crate::helpers::DecodeError;
use crate::helpers::commitments_view;
use crate::helpers::into_commitments;
use crate::helpers::into_safe_challenge_seed;
use crate::helpers::is_chunking;
use crate::helpers::lemma_chunking_keeps_byte_count;
use crate::helpers::porep_partitions_spec;
use crate::helpers::porep_proof_partitions_try_from_bytes;
use crate::helpers::post_chunk_spec;
use crate::helpers::proofs_view;
use crate::helpers::total_len;
use crate::helpers::try_into_porep_proof_bytes;
use crate::helpers::try_into_post_proofs_bytes;
use crate::responses::GeneratePieceCommitmentResponse;
use crate::responses::VerifyPieceInclusionProofResponse;
use crate::responses::VerifyPoStResponse;
use crate::responses::VerifySealResponse;
use crate::responses::verdict_of;
use crate::responses::verdict_result_view;
use crate::types::PaddedBytesAmount;
use crate::types::PieceInclusionRequest;
use crate::types::PoRepConfig;
use crate::types::PoRepProofPartitions;
use crate::types::PoStConfig;
use crate::types::PoStProofPartitions;
use crate::types::PoStRequest;
use crate::types::SealRequest;
use crate::types::SectorSize;

verus! {

/// Largest number of bytes for which the proof library's padding arithmetic,
/// which goes through bit counts held in floating point, is exact.
pub const MAX_BYTES_AMOUNT: u64 = 0x1_0000_0000_0000;

/// Smallest piece, in unpadded bytes, that the proof library commits to.
pub const MINIMUM_PIECE_SIZE: u64 = 127;

/// The number of user bytes that fit into `padded` bytes: every full 32-byte
/// element holds 254 bits of user data, an incomplete one holds data only, and
/// the bits that remain are rounded down to whole bytes.
pub open spec fn unpadded_bytes_spec(padded: u64) -> int {
    ((padded / 32) * 254 + (padded % 32) * 8) / 8
}

/// The number of bytes that `unpadded` user bytes take after padding: every
/// full 254 bits of user data take a 32-byte element, and the bits that remain
/// are rounded up to whole bytes.
pub open spec fn padded_bytes_spec(unpadded: u64) -> int {
    ((unpadded * 8 / 254) * 256 + (unpadded * 8) % 254 + 7) / 8
}

/// `n` is a power of two.
pub open spec fn is_power_of_two(n: int) -> bool {
    exists|k: nat| n == #[trigger] vstd::arithmetic::power2::pow2(k)
}

/// How a replication proof of `len` bytes decodes: to its number of partitions,
/// or to the error that turns it down.
pub open spec fn seal_decode_spec(len: nat) -> Result<u8, DecodeError> {
    if len == 0 {
        Err(DecodeError::NoProofs)
    } else {
        porep_partitions_spec(len)
    }
}

/// The error, if any, that turns the buffers of a spacetime verification down:
/// that of the proofs comes before that of the commitments.
pub open spec fn post_decode_error_spec(
    proof_partitions: u8,
    proofs_len: nat,
    comm_rs_len: nat,
) -> Option<DecodeError> {
    match post_chunk_spec(proof_partitions, proofs_len) {
        Err(e) => Some(e),
        Ok(_) => if comm_rs_len % 32 != 0 {
            Some(DecodeError::IncompatibleCommitments { len: comm_rs_len as usize })
        } else {
            None
        },
    }
}

/// `req` is the request that seal verification makes of the proof library for
/// these inputs.
pub open spec fn is_seal_request(
    req: SealRequest,
    sector_size: u64,
    comm_r: [u8; 32],
    comm_d: [u8; 32],
    comm_r_star: [u8; 32],
    prover_id: [u8; 31],
    sector_id: [u8; 31],
    proof: Seq<u8>,
) -> bool {
    &&& req.config.0.0 == sector_size
    &&& seal_decode_spec(proof.len()) == Ok::<u8, DecodeError>(req.config.1.0)
    &&& req.comm_r@ == comm_r@
    &&& req.comm_d@ == comm_d@
    &&& req.comm_r_star@ == comm_r_star@
    &&& req.prover_id@ == prover_id@
    &&& req.sector_id@ == sector_id@
    &&& req.proof@ == proof
}

/// `req` is the request that spacetime verification makes of the proof library
/// for these inputs.
pub open spec fn is_post_request(
    req: PoStRequest,
    sector_size: u64,
    proof_partitions: u8,
    flattened_comm_rs: Seq<u8>,
    challenge_seed: [u8; 32],
    flattened_proofs: Seq<u8>,
    faults: Seq<u64>,
) -> bool {
    &&& req.config.0.0 == sector_size
    &&& req.config.1.0 == proof_partitions
    &&& proof_partitions > 0
    &&& is_chunking(commitments_view(req.comm_rs@), flattened_comm_rs, 32)
    &&& req.challenge_seed@ == challenge_seed@
    &&& is_chunking(proofs_view(req.proofs@), flattened_proofs, proof_partitions as nat * 192)
    &&& req.faults@ == faults
}

/// `req` is the request that piece-inclusion verification makes of the proof
/// library for these inputs.
pub open spec fn is_piece_inclusion_request(
    req: PieceInclusionRequest,
    comm_d: [u8; 32],
    comm_p: [u8; 32],
    piece_inclusion_proof: Seq<u8>,
    padded_and_aligned_piece_size: u64,
    sector_size: u64,
) -> bool {
    &&& req.proof@ == piece_inclusion_proof
    &&& req.comm_d@ == comm_d@
    &&& req.comm_p@ == comm_p@
    &&& req.padded_and_aligned_piece_size.0 == padded_and_aligned_piece_size
    &&& req.sector_size.0 == sector_size
}

/// Decodes the proof bytes of a seal verification and wraps the inputs into
/// the request for the proof library. The number of partitions of the
/// configuration is derived from the length of the proof.
pub fn seal_request(
    sector_size: u64,
    comm_r: &[u8; 32],
    comm_d: &[u8; 32],
    comm_r_star: &[u8; 32],
    prover_id: &[u8; 31],
    sector_id: &[u8; 31],
    proof: &[u8],
) -> (res: Result<SealRequest, DecodeError>)
    ensures
        match res {
            Ok(req) => is_seal_request(
                req,
                sector_size,
                *comm_r,
                *comm_d,
                *comm_r_star,
                *prover_id,
                *sector_id,
                proof@,
            ),
            Err(e) => seal_decode_spec(proof@.len()) == Err::<u8, DecodeError>(e),
        },
        res matches Ok(req) ==> req.wf(),
{
    let bytes = match try_into_porep_proof_bytes(proof) {
        Ok(bytes) => bytes,
        Err(e) => {
            return Err(e);
        },
    };
    let partitions = match porep_proof_partitions_try_from_bytes(bytes.as_slice()) {
        Ok(partitions) => partitions,
        Err(e) => {
            return Err(e);
        },
    };
    Ok(
        SealRequest {
            config: PoRepConfig(SectorSize(sector_size), PoRepProofPartitions(partitions)),
            comm_r: *comm_r,
            comm_d: *comm_d,
            comm_r_star: *comm_r_star,
            prover_id: *prover_id,
            sector_id: *sector_id,
            proof: bytes,
        },
    )
}

/// Verifies the output of seal.
///
/// The proof bytes are decoded and the number of partitions is derived from
/// their length. A buffer that does not decode is reported as a failure and
/// `verifier` is not called. Otherwise `verifier`, which stands for the proof
/// library, is called once with the request, and its outcome is reported.
pub fn verify_seal<F: FnOnce(SealRequest) -> Result<bool, String>>(
    sector_size: u64,
    comm_r: &[u8; 32],
    comm_d: &[u8; 32],
    comm_r_star: &[u8; 32],
    prover_id: &[u8; 31],
    sector_id: &[u8; 31],
    proof: &[u8],
    verifier: F,
) -> (resp: VerifySealResponse)
    requires
        forall|req: SealRequest|
            is_seal_request(
                req,
                sector_size,
                *comm_r,
                *comm_d,
                *comm_r_star,
                *prover_id,
                *sector_id,
                proof@,
            ) ==> #[trigger] verifier.requires((req,)),
    ensures
        resp@.wf(),
        match seal_decode_spec(proof@.len()) {
            Err(e) => resp@ == verdict_of(Err(e.message_spec())),
            Ok(_) => exists|req: SealRequest, outcome: Result<bool, String>|
                {
                    &&& is_seal_request(
                        req,
                        sector_size,
                        *comm_r,
                        *comm_d,
                        *comm_r_star,
                        *prover_id,
                        *sector_id,
                        proof@,
                    )
                    &&& #[trigger] verifier.ensures((req,), outcome)
                    &&& resp@ == verdict_of(verdict_result_view(outcome))
                },
        },
{
    match seal_request(sector_size, comm_r, comm_d, comm_r_star, prover_id, sector_id, proof) {
        Err(e) => VerifySealResponse::from_result(Err(e.message())),
        Ok(req) => {
            let ghost asked = req;
            let outcome = verifier(req);
            let ghost answer = outcome;
            let resp = VerifySealResponse::from_result(outcome);
            assert(verifier.ensures((asked,), answer));
            resp
        },
    }
}

/// Decodes the buffers of a spacetime verification and wraps the inputs into
/// the request for the proof library. The number of partitions of the
/// configuration is the one the caller gives.
pub fn post_request(
    sector_size: u64,
    proof_partitions: u8,
    flattened_comm_rs: &[u8],
    challenge_seed: &[u8; 32],
    flattened_proofs: &[u8],
    faults: &[u64],
) -> (res: Result<PoStRequest, DecodeError>)
    ensures
        match res {
            Ok(req) => post_decode_error_spec(
                proof_partitions,
                flattened_proofs@.len(),
                flattened_comm_rs@.len(),
            ) is None && is_post_request(
                req,
                sector_size,
                proof_partitions,
                flattened_comm_rs@,
                *challenge_seed,
                flattened_proofs@,
                faults@,
            ),
            Err(e) => post_decode_error_spec(
                proof_partitions,
                flattened_proofs@.len(),
                flattened_comm_rs@.len(),
            ) == Some(e),
        },
        res matches Ok(req) ==> req.wf(),
{
    let proofs = match try_into_post_proofs_bytes(proof_partitions, flattened_proofs) {
        Ok(proofs) => proofs,
        Err(e) => {
            return Err(e);
        },
    };
    let comm_rs = match into_commitments(flattened_comm_rs) {
        Ok(comm_rs) => comm_rs,
        Err(e) => {
            return Err(e);
        },
    };
    let req = PoStRequest {
        config: PoStConfig(SectorSize(sector_size), PoStProofPartitions(proof_partitions)),
        comm_rs,
        challenge_seed: into_safe_challenge_seed(challenge_seed),
        proofs,
        faults: slice_to_vec(faults),
    };
    proof {
        lemma_post_request_wf(
            req,
            sector_size,
            proof_partitions,
            flattened_comm_rs@,
            *challenge_seed,
            flattened_proofs@,
            faults@,
        );
    }
    Ok(req)
}

/// Verifies that a proof-of-spacetime is valid.
///
/// The flattened proofs are cut by the given number of partitions, then the
/// flattened commitments into commitments of 32 bytes. Buffers that do not
/// decode are reported as a failure and `verifier` is not called. Otherwise
/// `verifier`, which stands for the proof library, is called once with the
/// request, and its outcome is reported.
pub fn verify_post<F: FnOnce(PoStRequest) -> Result<bool, String>>(
    sector_size: u64,
    proof_partitions: u8,
    flattened_comm_rs: &[u8],
    challenge_seed: &[u8; 32],
    flattened_proofs: &[u8],
    faults: &[u64],
    verifier: F,
) -> (resp: VerifyPoStResponse)
    requires
        forall|req: PoStRequest|
            is_post_request(
                req,
                sector_size,
                proof_partitions,
                flattened_comm_rs@,
                *challenge_seed,
                flattened_proofs@,
                faults@,
            ) ==> #[trigger] verifier.requires((req,)),
    ensures
        resp@.wf(),
        match post_decode_error_spec(
            proof_partitions,
            flattened_proofs@.len(),
            flattened_comm_rs@.len(),
        ) {
            Some(e) => resp@ == verdict_of(Err(e.message_spec())),
            None => exists|req: PoStRequest, outcome: Result<bool, String>|
                {
                    &&& is_post_request(
                        req,
                        sector_size,
                        proof_partitions,
                        flattened_comm_rs@,
                        *challenge_seed,
                        flattened_proofs@,
                        faults@,
                    )
                    &&& #[trigger] verifier.ensures((req,), outcome)
                    &&& resp@ == verdict_of(verdict_result_view(outcome))
                },
        },
{
    match post_request(
        sector_size,
        proof_partitions,
        flattened_comm_rs,
        challenge_seed,
        flattened_proofs,
        faults,
    ) {
        Err(e) => VerifyPoStResponse::from_result(Err(e.message())),
        Ok(req) => {
            let ghost asked = req;
            let outcome = verifier(req);
            let ghost answer = outcome;
            let resp = VerifyPoStResponse::from_result(outcome);
            assert(verifier.ensures((asked,), answer));
            resp
        },
    }
}

/// Wraps the inputs of a piece-inclusion verification into the request for the
/// proof library. The proof bytes are taken as they are.
pub fn piece_inclusion_request(
    comm_d: &[u8; 32],
    comm_p: &[u8; 32],
    piece_inclusion_proof: &[u8],
    padded_and_aligned_piece_size: u64,
    sector_size: u64,
) -> (req: PieceInclusionRequest)
    ensures
        is_piece_inclusion_request(
            req,
            *comm_d,
            *comm_p,
            piece_inclusion_proof@,
            padded_and_aligned_piece_size,
            sector_size,
        ),
{
    PieceInclusionRequest {
        proof: slice_to_vec(piece_inclusion_proof),
        comm_d: *comm_d,
        comm_p: *comm_p,
        padded_and_aligned_piece_size: PaddedBytesAmount(padded_and_aligned_piece_size),
        sector_size: SectorSize(sector_size),
    }
}

/// Verifies that a piece is included in a sector.
///
/// The proof bytes are handed on as they are. `verifier`, which stands for the
/// proof library, is called once with the request, and its outcome is reported.
pub fn verify_piece_inclusion_proof<F: FnOnce(PieceInclusionRequest) -> Result<bool, String>>(
    comm_d: &[u8; 32],
    comm_p: &[u8; 32],
    piece_inclusion_proof: &[u8],
    padded_and_aligned_piece_size: u64,
    sector_size: u64,
    verifier: F,
) -> (resp: VerifyPieceInclusionProofResponse)
    requires
        forall|req: PieceInclusionRequest|
            is_piece_inclusion_request(
                req,
                *comm_d,
                *comm_p,
                piece_inclusion_proof@,
                padded_and_aligned_piece_size,
                sector_size,
            ) ==> #[trigger] verifier.requires((req,)),
    ensures
        resp@.wf(),
        exists|req: PieceInclusionRequest, outcome: Result<bool, String>|
            {
                &&& is_piece_inclusion_request(
                    req,
                    *comm_d,
                    *comm_p,
                    piece_inclusion_proof@,
                    padded_and_aligned_piece_size,
                    sector_size,
                )
                &&& #[trigger] verifier.ensures((req,), outcome)
                &&& resp@ == verdict_of(verdict_result_view(outcome))
            },
{
    let req = piece_inclusion_request(
        comm_d,
        comm_p,
        piece_inclusion_proof,
        padded_and_aligned_piece_size,
        sector_size,
    );
    let ghost asked = req;
    let outcome = verifier(req);
    let ghost answer = outcome;
    let resp = VerifyPieceInclusionProofResponse::from_result(outcome);
    assert(verifier.ensures((asked,), answer));
    resp
}

/// Calls `filecoin_proofs::generate_piece_commitment` on the bytes of a piece
/// and converts the size it reports with `PaddedBytesAmount::from`.
///
/// Claimed of the proof library: a piece of fewer than 127 bytes is turned
/// down, and so is one whose padded size is no power of two; the size that
/// comes with a commitment is the padded size of `unpadded_piece_size`.
/// Nothing is claimed of the commitment itself.
#[verifier::external_body]
fn piece_commitment(piece: &[u8], unpadded_piece_size: u64) -> (res: Result<([u8; 32], u64), String>)
    requires
        unpadded_piece_size <= MAX_BYTES_AMOUNT,
    ensures
        unpadded_piece_size < MINIMUM_PIECE_SIZE ==> res is Err,
        !is_power_of_two(padded_bytes_spec(unpadded_piece_size)) ==> res is Err,
        res matches Ok(pair) ==> pair.1 == padded_bytes_spec(unpadded_piece_size),
{
    let size = filecoin_proofs::types::UnpaddedBytesAmount(unpadded_piece_size);
    match filecoin_proofs::generate_piece_commitment(piece, size) {
        Ok(info) => Ok(
            (info.commitment, u64::from(filecoin_proofs::types::PaddedBytesAmount::from(info.size))),
        ),
        Err(err) => Err(format!("{}", err)),
    }
}

/// Generates the commitment of a piece from its bytes.
///
/// The proof library decides the outcome, and it is reported as it comes. A
/// piece of fewer than 127 bytes, or one whose padded size is no power of two,
/// is always reported as a failure; a commitment comes with the padded size of
/// `unpadded_piece_size`.
pub fn generate_piece_commitment(piece: &[u8], unpadded_piece_size: u64) -> (resp:
    GeneratePieceCommitmentResponse)
    requires
        unpadded_piece_size <= MAX_BYTES_AMOUNT,
    ensures
        resp@.wf(),
        unpadded_piece_size < MINIMUM_PIECE_SIZE ==> resp@.status_code == 1,
        !is_power_of_two(padded_bytes_spec(unpadded_piece_size)) ==> resp@.status_code == 1,
        resp@.status_code == 0 ==> resp@.padded_and_aligned_piece_size == padded_bytes_spec(
            unpadded_piece_size,
        ),
{
    let result = piece_commitment(piece, unpadded_piece_size);
    GeneratePieceCommitmentResponse::from_result(result)
}

/// Returns the number of user bytes that will fit into a staged sector.
///
/// Calls `UnpaddedBytesAmount::from` of `filecoin_proofs::types` on a
/// `SectorSize`, which goes to `fr32::to_unpadded_bytes`. Claimed of it: the
/// result is `unpadded_bytes_spec` of the sector size, for sizes whose bit
/// count the library's floating point holds exactly.
#[verifier::external_body]
pub fn get_max_user_bytes_per_staged_sector(sector_size: u64) -> (bytes: u64)
    requires
        sector_size <= MAX_BYTES_AMOUNT,
    ensures
        bytes == unpadded_bytes_spec(sector_size),
{
    u64::from(
        filecoin_proofs::types::UnpaddedBytesAmount::from(
            filecoin_proofs::types::SectorSize(sector_size),
        ),
    )
}

/// The request of a spacetime verification is well formed, and its proofs hold
/// as many bytes as the buffer they were cut from.
pub proof fn lemma_post_request_wf(
    req: PoStRequest,
    sector_size: u64,
    proof_partitions: u8,
    flattened_comm_rs: Seq<u8>,
    challenge_seed: [u8; 32],
    flattened_proofs: Seq<u8>,
    faults: Seq<u64>,
)
    requires
        is_post_request(
            req,
            sector_size,
            proof_partitions,
            flattened_comm_rs,
            challenge_seed,
            flattened_proofs,
            faults,
        ),
    ensures
        req.wf(),
        total_len(proofs_view(req.proofs@)) == flattened_proofs.len(),
        req.comm_rs@.len() * 32 == flattened_comm_rs.len(),
{
    let size = proof_partitions as nat * 192;
    let chunks = proofs_view(req.proofs@);
    assert forall|i: int| 0 <= i < req.proofs@.len() implies (#[trigger] req.proofs@[i])@.len()
        == size by {
        assert(0 <= i * size && i * size + size <= chunks.len() * size) by (nonlinear_arith)
            requires
                0 <= i < chunks.len(),
        ;
        assert(chunks[i] == flattened_proofs.subrange(i * size, i * size + size));
        assert(chunks[i] == req.proofs@[i]@);
    }
    lemma_chunking_keeps_byte_count(chunks, flattened_proofs, size);
}

/// A replication proof decodes if and only if it is made of a supported number
/// of partitions, one to 255 of them, of 192 bytes each; that number is then
/// its number of partitions.
pub proof fn lemma_seal_decode_exact(len: nat, partitions: u8)
    ensures
        seal_decode_spec(len) == Ok::<u8, DecodeError>(partitions) <==> (partitions >= 1 && len
            == partitions as nat * 192),
        seal_decode_spec(len) is Ok <==> (len % 192 == 0 && 192 <= len <= 255 * 192),
{
}

/// A sector of at least one full element holds fewer user bytes than its size:
/// padding takes the rest.
pub proof fn lemma_max_user_bytes_below_sector_size(sector_size: u64)
    requires
        sector_size >= 32,
    ensures
        0 <= unpadded_bytes_spec(sector_size) < sector_size,
{
}

/// A sector smaller than one element is not padded: it holds as many user
/// bytes as its size.
pub proof fn lemma_max_user_bytes_of_small_sector(sector_size: u64)
    requires
        sector_size < 32,
    ensures
        unpadded_bytes_spec(sector_size) == sector_size,
{
}

} // verus!
