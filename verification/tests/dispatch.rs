use filecoin_proofs_ffi::api::generate_piece_commitment;
use filecoin_proofs_ffi::api::get_max_user_bytes_per_staged_sector;
use filecoin_proofs_ffi::api::piece_inclusion_request;
use filecoin_proofs_ffi::api::post_request;
use filecoin_proofs_ffi::api::seal_request;
use filecoin_proofs_ffi::api::verify_piece_inclusion_proof;
use filecoin_proofs_ffi::api::verify_post;
use filecoin_proofs_ffi::api::verify_seal;
use filecoin_proofs_ffi::api::MAX_BYTES_AMOUNT;
use filecoin_proofs_ffi::helpers::DecodeError;
use filecoin_proofs_ffi::responses::GeneratePieceCommitmentResponse;
use filecoin_proofs_ffi::responses::VerifyPieceInclusionProofResponse;
use filecoin_proofs_ffi::responses::VerifyPoStResponse;
use filecoin_proofs_ffi::responses::VerifySealResponse;
use filecoin_proofs_ffi::types::PaddedBytesAmount;
use filecoin_proofs_ffi::types::PieceInclusionRequest;
use filecoin_proofs_ffi::types::PoRepConfig;
use filecoin_proofs_ffi::types::PoRepProofPartitions;
use filecoin_proofs_ffi::types::PoStConfig;
use filecoin_proofs_ffi::types::PoStProofPartitions;
use filecoin_proofs_ffi::types::PoStRequest;
use filecoin_proofs_ffi::types::SealRequest;
use filecoin_proofs_ffi::types::SectorSize;

const COMM_R: [u8; 32] = [1; 32];
const COMM_D: [u8; 32] = [2; 32];
const COMM_R_STAR: [u8; 32] = [3; 32];
const PROVER_ID: [u8; 31] = [4; 31];
const SECTOR_ID: [u8; 31] = [5; 31];

fn seal_with(proof: &[u8], outcome: Result<bool, String>) -> (VerifySealResponse, Option<SealRequest>) {
    let mut seen = None;
    let resp = verify_seal(
        1024,
        &COMM_R,
        &COMM_D,
        &COMM_R_STAR,
        &PROVER_ID,
        &SECTOR_ID,
        proof,
        |req: SealRequest| {
            seen = Some(req);
            outcome
        },
    );
    (resp, seen)
}

#[test]
fn verify_seal_refuses_a_proof_of_the_wrong_length() {
    let (resp, seen) = seal_with(&[7u8; 100], Ok(true));
    assert_eq!(resp.status_code, 1);
    assert!(!resp.is_valid);
    assert_eq!(
        resp.error_msg,
        Some("no PoRepProofPartitions mapping for proof len=100".to_string())
    );
    assert!(seen.is_none());
}

#[test]
fn verify_seal_refuses_an_empty_proof() {
    let (resp, seen) = seal_with(&[], Ok(true));
    assert_eq!(resp.status_code, 1);
    assert!(!resp.is_valid);
    assert_eq!(resp.error_msg, Some("no proofs in chunked vec".to_string()));
    assert!(seen.is_none());
}

#[test]
fn verify_seal_refuses_too_many_partitions() {
    let (resp, seen) = seal_with(&vec![0u8; 192 * 256], Ok(true));
    assert_eq!(resp.status_code, 1);
    assert!(!resp.is_valid);
    assert_eq!(
        resp.error_msg,
        Some("unsupported number of partitions=256".to_string())
    );
    assert!(seen.is_none());
}

#[test]
fn verify_seal_asks_with_the_derived_partitions() {
    let proof: Vec<u8> = (0..576).map(|i| (i % 200) as u8).collect();
    let (resp, seen) = seal_with(&proof, Ok(true));
    assert_eq!(
        resp,
        VerifySealResponse { status_code: 0, error_msg: None, is_valid: true }
    );
    assert_eq!(
        seen,
        Some(SealRequest {
            config: PoRepConfig(SectorSize(1024), PoRepProofPartitions(3)),
            comm_r: COMM_R,
            comm_d: COMM_D,
            comm_r_star: COMM_R_STAR,
            prover_id: PROVER_ID,
            sector_id: SECTOR_ID,
            proof,
        })
    );
}

#[test]
fn verify_seal_reports_the_outcome() {
    let proof = [9u8; 192];
    let (invalid, _) = seal_with(&proof, Ok(false));
    assert_eq!(
        invalid,
        VerifySealResponse { status_code: 0, error_msg: None, is_valid: false }
    );
    let (failed, _) = seal_with(&proof, Err("bad parameters".to_string()));
    assert_eq!(
        failed,
        VerifySealResponse {
            status_code: 1,
            error_msg: Some("bad parameters".to_string()),
            is_valid: false,
        }
    );
}

fn post_with(
    partitions: u8,
    comm_rs: &[u8],
    proofs: &[u8],
    faults: &[u64],
    outcome: Result<bool, String>,
) -> (VerifyPoStResponse, Option<PoStRequest>) {
    let mut seen = None;
    let resp = verify_post(2048, partitions, comm_rs, &[6; 32], proofs, faults, |req: PoStRequest| {
        seen = Some(req);
        outcome
    });
    (resp, seen)
}

#[test]
fn verify_post_with_no_faults_and_one_partition_completes() {
    let proofs = [8u8; 192];
    let comm_rs = [9u8; 32];
    let (valid, seen) = post_with(1, &comm_rs, &proofs, &[], Ok(true));
    assert_eq!(
        valid,
        VerifyPoStResponse { status_code: 0, error_msg: None, is_valid: true }
    );
    assert_eq!(
        seen,
        Some(PoStRequest {
            config: PoStConfig(SectorSize(2048), PoStProofPartitions(1)),
            comm_rs: vec![[9u8; 32]],
            challenge_seed: [6; 32],
            proofs: vec![vec![8u8; 192]],
            faults: vec![],
        })
    );
    let (invalid, _) = post_with(1, &comm_rs, &proofs, &[], Ok(false));
    assert_eq!(
        invalid,
        VerifyPoStResponse { status_code: 0, error_msg: None, is_valid: false }
    );
}

#[test]
fn verify_post_hands_on_faults_and_sectors() {
    let proofs: Vec<u8> = (0..768).map(|i| (i % 100) as u8).collect();
    let comm_rs: Vec<u8> = (0..64).map(|i| i as u8).collect();
    let (resp, seen) = post_with(2, &comm_rs, &proofs, &[3, 1, u64::MAX], Err("no".to_string()));
    assert_eq!(
        resp,
        VerifyPoStResponse { status_code: 1, error_msg: Some("no".to_string()), is_valid: false }
    );
    let req = seen.unwrap();
    assert_eq!(req.faults, vec![3, 1, u64::MAX]);
    assert_eq!(req.proofs, vec![proofs[0..384].to_vec(), proofs[384..768].to_vec()]);
    assert_eq!(req.comm_rs.len(), 2);
    assert_eq!(&req.comm_rs[1][..], &comm_rs[32..64]);
}

#[test]
fn verify_post_refuses_buffers_that_do_not_decode() {
    let (resp, seen) = post_with(2, &[0u8; 32], &[0u8; 192], &[], Ok(true));
    assert_eq!(resp.status_code, 1);
    assert!(!resp.is_valid);
    assert_eq!(
        resp.error_msg,
        Some("proofs array len=192 incompatible with partitions=2".to_string())
    );
    assert!(seen.is_none());

    let (resp, seen) = post_with(0, &[0u8; 32], &[0u8; 192], &[], Ok(true));
    assert_eq!(resp.status_code, 1);
    assert_eq!(
        resp.error_msg,
        Some("unsupported number of partitions=0".to_string())
    );
    assert!(seen.is_none());

    let (resp, seen) = post_with(1, &[0u8; 33], &[0u8; 192], &[], Ok(true));
    assert_eq!(resp.status_code, 1);
    assert_eq!(
        resp.error_msg,
        Some("commitments array len=33 incompatible with commitment len=32".to_string())
    );
    assert!(seen.is_none());
}

#[test]
fn verify_post_reports_the_proofs_error_first() {
    let (resp, _) = post_with(1, &[0u8; 33], &[0u8; 100], &[], Ok(true));
    assert_eq!(
        resp.error_msg,
        Some("proofs array len=100 incompatible with partitions=1".to_string())
    );
}

#[test]
fn verify_piece_inclusion_proof_hands_the_bytes_on_as_they_are() {
    let proof = [1u8, 2, 3, 4, 5];
    let mut seen = None;
    let resp = verify_piece_inclusion_proof(
        &COMM_D,
        &[7; 32],
        &proof,
        128,
        1024,
        |req: PieceInclusionRequest| {
            seen = Some(req);
            Ok(true)
        },
    );
    assert_eq!(
        resp,
        VerifyPieceInclusionProofResponse { status_code: 0, error_msg: None, is_valid: true }
    );
    assert_eq!(
        seen,
        Some(PieceInclusionRequest {
            proof: proof.to_vec(),
            comm_d: COMM_D,
            comm_p: [7; 32],
            padded_and_aligned_piece_size: PaddedBytesAmount(128),
            sector_size: SectorSize(1024),
        })
    );
}

#[test]
fn verify_piece_inclusion_proof_reports_the_outcome() {
    let invalid = verify_piece_inclusion_proof(&COMM_D, &[7; 32], &[], 128, 1024, |_| Ok(false));
    assert_eq!(
        invalid,
        VerifyPieceInclusionProofResponse { status_code: 0, error_msg: None, is_valid: false }
    );
    let failed = verify_piece_inclusion_proof(&COMM_D, &[7; 32], &[], 128, 1024, |_| {
        Err("malformed".to_string())
    });
    assert_eq!(
        failed,
        VerifyPieceInclusionProofResponse {
            status_code: 1,
            error_msg: Some("malformed".to_string()),
            is_valid: false,
        }
    );
}

#[test]
fn max_user_bytes_has_the_padding_taken_out() {
    assert_eq!(get_max_user_bytes_per_staged_sector(1024), 1016);
    assert_eq!(get_max_user_bytes_per_staged_sector(2048), 2032);
    assert_eq!(get_max_user_bytes_per_staged_sector(128), 127);
    assert_eq!(get_max_user_bytes_per_staged_sector(32), 31);
    assert_eq!(get_max_user_bytes_per_staged_sector(40), 39);
    assert_eq!(get_max_user_bytes_per_staged_sector(64), 63);
    assert_eq!(get_max_user_bytes_per_staged_sector(1 << 30), 1065353216);
    assert_eq!(get_max_user_bytes_per_staged_sector(MAX_BYTES_AMOUNT), 279275953455104);
}

#[test]
fn max_user_bytes_of_a_sector_below_one_element_is_its_size() {
    assert_eq!(get_max_user_bytes_per_staged_sector(0), 0);
    assert_eq!(get_max_user_bytes_per_staged_sector(16), 16);
    assert_eq!(get_max_user_bytes_per_staged_sector(31), 31);
}

#[test]
fn max_user_bytes_is_the_same_on_every_call_and_below_the_sector_size() {
    for sector_size in [32u64, 33, 127, 128, 1024, 2048, 1 << 20, 1 << 35] {
        let first = get_max_user_bytes_per_staged_sector(sector_size);
        let second = get_max_user_bytes_per_staged_sector(sector_size);
        assert_eq!(first, second);
        assert!(first < sector_size);
        assert_eq!(first, ((sector_size / 32) * 254 + (sector_size % 32) * 8) / 8);
    }
}

#[test]
fn piece_commitment_of_an_empty_piece_is_what_the_proof_library_says() {
    let resp = generate_piece_commitment(&[], 0);
    assert_eq!(resp.status_code, 1);
    assert_eq!(resp.error_msg, Some("Piece must be at least 127 bytes".to_string()));
    assert_eq!(resp.comm_p, [0u8; 32]);
    assert_eq!(resp.padded_and_aligned_piece_size, 0);
}

#[test]
fn piece_commitment_comes_with_the_padded_size() {
    let piece = [0x5au8; 127];
    let resp = generate_piece_commitment(&piece, 127);
    assert_eq!(resp.status_code, 0);
    assert_eq!(resp.error_msg, None);
    assert_eq!(resp.padded_and_aligned_piece_size, 128);
    assert_ne!(resp.comm_p, [0u8; 32]);
    let again = generate_piece_commitment(&piece, 127);
    assert_eq!(again, resp);

    let larger = generate_piece_commitment(&[0x5au8; 254], 254);
    assert_eq!(larger.status_code, 0);
    assert_eq!(larger.padded_and_aligned_piece_size, 256);
    assert_ne!(larger.comm_p, resp.comm_p);

    let sector = generate_piece_commitment(&[0x11u8; 1016], 1016);
    assert_eq!(sector.status_code, 0);
    assert_eq!(sector.padded_and_aligned_piece_size, 1024);
}

#[test]
fn piece_commitment_of_zeros_is_the_known_one() {
    let resp = generate_piece_commitment(&[0u8; 127], 127);
    assert_eq!(resp.status_code, 0);
    assert_eq!(resp.error_msg, None);
    assert_eq!(resp.padded_and_aligned_piece_size, 128);
    assert_eq!(
        resp.comm_p,
        [
            55, 49, 187, 153, 172, 104, 159, 102, 238, 245, 151, 62, 74, 148, 218, 24, 143, 77,
            220, 174, 88, 7, 36, 252, 111, 63, 214, 13, 253, 72, 131, 51
        ]
    );
}

#[test]
fn piece_commitment_of_a_piece_that_ends_early_fails() {
    let resp = generate_piece_commitment(&[1u8; 10], 127);
    assert_eq!(resp.status_code, 1);
    assert!(resp.error_msg.is_some());
    assert_eq!(resp.comm_p, [0u8; 32]);
    assert_eq!(resp.padded_and_aligned_piece_size, 0);
}

#[test]
fn piece_commitment_of_a_size_that_pads_to_no_power_of_two_fails() {
    let resp = generate_piece_commitment(&[1u8; 200], 200);
    assert_eq!(resp.status_code, 1);
    assert!(resp.error_msg.is_some());
    assert_eq!(resp.padded_and_aligned_piece_size, 0);
}

#[test]
fn responses_report_results() {
    assert_eq!(
        VerifySealResponse::from_result(Ok(true)),
        VerifySealResponse { status_code: 0, error_msg: None, is_valid: true }
    );
    assert_eq!(
        VerifyPoStResponse::from_result(Err("x".to_string())),
        VerifyPoStResponse { status_code: 1, error_msg: Some("x".to_string()), is_valid: false }
    );
    assert_eq!(
        VerifyPieceInclusionProofResponse::from_result(Ok(false)),
        VerifyPieceInclusionProofResponse { status_code: 0, error_msg: None, is_valid: false }
    );
    assert_eq!(
        GeneratePieceCommitmentResponse::from_result(Ok(([3; 32], 128))),
        GeneratePieceCommitmentResponse {
            status_code: 0,
            error_msg: None,
            comm_p: [3; 32],
            padded_and_aligned_piece_size: 128,
        }
    );
    assert_eq!(
        GeneratePieceCommitmentResponse::from_result(Err("no file".to_string())),
        GeneratePieceCommitmentResponse {
            status_code: 1,
            error_msg: Some("no file".to_string()),
            comm_p: [0; 32],
            padded_and_aligned_piece_size: 0,
        }
    );
}

#[test]
fn default_responses_are_empty() {
    assert_eq!(
        VerifySealResponse::default(),
        VerifySealResponse { status_code: 0, error_msg: None, is_valid: false }
    );
    assert_eq!(
        VerifyPoStResponse::default(),
        VerifyPoStResponse { status_code: 0, error_msg: None, is_valid: false }
    );
    assert_eq!(
        VerifyPieceInclusionProofResponse::default(),
        VerifyPieceInclusionProofResponse { status_code: 0, error_msg: None, is_valid: false }
    );
    assert_eq!(
        GeneratePieceCommitmentResponse::default(),
        GeneratePieceCommitmentResponse {
            status_code: 0,
            error_msg: None,
            comm_p: [0; 32],
            padded_and_aligned_piece_size: 0,
        }
    );
}

#[test]
fn status_is_zero_exactly_when_there_is_no_message() {
    let outcomes = [Ok(true), Ok(false), Err(String::new()), Err("failed".to_string())];
    for outcome in outcomes {
        let seal = VerifySealResponse::from_result(outcome.clone());
        assert_eq!(seal.status_code == 0, seal.error_msg.is_none());
        let post = VerifyPoStResponse::from_result(outcome.clone());
        assert_eq!(post.status_code == 0, post.error_msg.is_none());
        let piece = VerifyPieceInclusionProofResponse::from_result(outcome.clone());
        assert_eq!(piece.status_code == 0, piece.error_msg.is_none());
    }
    for proof_len in [0usize, 1, 191, 192, 193, 384] {
        let (resp, _) = seal_with(&vec![0u8; proof_len], Ok(true));
        assert_eq!(resp.status_code == 0, resp.error_msg.is_none());
    }
}

#[test]
fn seal_request_derives_the_partitions() {
    let proof = vec![1u8; 384];
    let req = seal_request(4096, &COMM_R, &COMM_D, &COMM_R_STAR, &PROVER_ID, &SECTOR_ID, &proof);
    assert_eq!(
        req,
        Ok(SealRequest {
            config: PoRepConfig(SectorSize(4096), PoRepProofPartitions(2)),
            comm_r: COMM_R,
            comm_d: COMM_D,
            comm_r_star: COMM_R_STAR,
            prover_id: PROVER_ID,
            sector_id: SECTOR_ID,
            proof,
        })
    );
    assert_eq!(
        seal_request(4096, &COMM_R, &COMM_D, &COMM_R_STAR, &PROVER_ID, &SECTOR_ID, &[]),
        Err(DecodeError::NoProofs)
    );
    assert_eq!(
        seal_request(4096, &COMM_R, &COMM_D, &COMM_R_STAR, &PROVER_ID, &SECTOR_ID, &[0u8; 7]),
        Err(DecodeError::NoPartitionsMapping { len: 7 })
    );
}

#[test]
fn post_request_takes_the_partitions_as_given() {
    let req = post_request(4096, 2, &[7u8; 64], &[1; 32], &[2u8; 384], &[5]);
    assert_eq!(
        req,
        Ok(PoStRequest {
            config: PoStConfig(SectorSize(4096), PoStProofPartitions(2)),
            comm_rs: vec![[7u8; 32], [7u8; 32]],
            challenge_seed: [1; 32],
            proofs: vec![vec![2u8; 384]],
            faults: vec![5],
        })
    );
    assert_eq!(
        post_request(4096, 2, &[7u8; 64], &[1; 32], &[2u8; 383], &[5]),
        Err(DecodeError::IncompatibleProofs { len: 383, partitions: 2 })
    );
    assert_eq!(
        post_request(4096, 2, &[7u8; 65], &[1; 32], &[2u8; 384], &[5]),
        Err(DecodeError::IncompatibleCommitments { len: 65 })
    );
}

#[test]
fn piece_inclusion_request_wraps_the_sizes() {
    let req = piece_inclusion_request(&COMM_D, &COMM_R, &[9, 8, 7], 256, 2048);
    assert_eq!(
        req,
        PieceInclusionRequest {
            proof: vec![9, 8, 7],
            comm_d: COMM_D,
            comm_p: COMM_R,
            padded_and_aligned_piece_size: PaddedBytesAmount(256),
            sector_size: SectorSize(2048),
        }
    );
}
