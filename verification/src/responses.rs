use vstd::prelude::*;

verus! {

/// Status code of a call that succeeded.
pub const STATUS_OK: u8 = 0;

/// Status code of a call that failed.
pub const STATUS_FAILED: u8 = 1;

/// What a verification response holds, as plain values.
pub ghost struct VerdictView {
    pub status_code: u8,
    pub is_valid: bool,
    pub error_msg: Option<Seq<char>>,
}

impl VerdictView {
    /// The status code is 0 exactly when there is no error message, it is 1
    /// otherwise, and a failed call never reports a valid proof.
    pub open spec fn wf(self) -> bool {
        &&& (self.status_code == 0 <==> self.error_msg is None)
        &&& (self.status_code == 0 || self.status_code == 1)
        &&& (self.error_msg is Some ==> !self.is_valid)
    }
}

/// What a piece-commitment response holds, as plain values.
pub ghost struct PieceCommitmentView {
    pub status_code: u8,
    pub comm_p: Seq<u8>,
    pub padded_and_aligned_piece_size: u64,
    pub error_msg: Option<Seq<char>>,
}

impl PieceCommitmentView {
    /// The status code is 0 exactly when there is no error message, it is 1
    /// otherwise, and a failed call leaves commitment and size at zero.
    pub open spec fn wf(self) -> bool {
        &&& (self.status_code == 0 <==> self.error_msg is None)
        &&& (self.status_code == 0 || self.status_code == 1)
        &&& self.comm_p.len() == 32
        &&& (self.error_msg is Some ==> self.padded_and_aligned_piece_size == 0
            && self.comm_p == Seq::new(32, |i: int| 0u8))
    }
}

/// The outcome of a verification, its error text taken as a sequence of characters.
pub open spec fn verdict_result_view(result: Result<bool, String>) -> Result<bool, Seq<char>> {
    match result {
        Ok(is_valid) => Ok(is_valid),
        Err(message) => Err(message@),
    }
}

/// The response that reports `result`: a verdict with status 0 and no message,
/// or status 1 with the error's text and no verdict.
pub open spec fn verdict_of(result: Result<bool, Seq<char>>) -> VerdictView {
    match result {
        Ok(is_valid) => VerdictView { status_code: 0, is_valid, error_msg: None },
        Err(message) => VerdictView { status_code: 1, is_valid: false, error_msg: Some(message) },
    }
}

/// The outcome of a commitment generation, as plain values.
pub open spec fn commitment_result_view(result: Result<([u8; 32], u64), String>) -> Result<
    (Seq<u8>, u64),
    Seq<char>,
> {
    match result {
        Ok(pair) => Ok((pair.0@, pair.1)),
        Err(message) => Err(message@),
    }
}

/// The response that reports `result`: commitment and padded size with status
/// 0 and no message, or status 1 with the error's text and both left at zero.
pub open spec fn commitment_response_of(
    result: Result<(Seq<u8>, u64), Seq<char>>,
) -> PieceCommitmentView {
    match result {
        Ok(pair) => PieceCommitmentView {
            status_code: 0,
            comm_p: pair.0,
            padded_and_aligned_piece_size: pair.1,
            error_msg: None,
        },
        Err(message) => PieceCommitmentView {
            status_code: 1,
            comm_p: Seq::new(32, |i: int| 0u8),
            padded_and_aligned_piece_size: 0,
            error_msg: Some(message),
        },
    }
}

/// The view of an optional error message.
pub open spec fn message_view(error_msg: Option<String>) -> Option<Seq<char>> {
    match error_msg {
        Some(message) => Some(message@),
        None => None,
    }
}

/// Response of seal verification.
#[derive(Clone, Debug, PartialEq, Eq)]
pub struct VerifySealResponse {
    pub status_code: u8,
    pub error_msg: Option<String>,
    pub is_valid: bool,
}

/// Response of proof-of-spacetime verification.
#[derive(Clone, Debug, PartialEq, Eq)]
pub struct VerifyPoStResponse {
    pub status_code: u8,
    pub error_msg: Option<String>,
    pub is_valid: bool,
}

/// Response of piece-inclusion verification.
#[derive(Clone, Debug, PartialEq, Eq)]
pub struct VerifyPieceInclusionProofResponse {
    pub status_code: u8,
    pub error_msg: Option<String>,
    pub is_valid: bool,
}

/// Response of piece-commitment generation.
#[derive(Clone, Debug, PartialEq, Eq)]
pub struct GeneratePieceCommitmentResponse {
    pub status_code: u8,
    pub error_msg: Option<String>,
    pub comm_p: [u8; 32],
    pub padded_and_aligned_piece_size: u64,
}

impl View for VerifySealResponse {
    type V = VerdictView;

    open spec fn view(&self) -> VerdictView {
        VerdictView {
            status_code: self.status_code,
            is_valid: self.is_valid,
            error_msg: message_view(self.error_msg),
        }
    }
}

impl View for VerifyPoStResponse {
    type V = VerdictView;

    open spec fn view(&self) -> VerdictView {
        VerdictView {
            status_code: self.status_code,
            is_valid: self.is_valid,
            error_msg: message_view(self.error_msg),
        }
    }
}

impl View for VerifyPieceInclusionProofResponse {
    type V = VerdictView;

    open spec fn view(&self) -> VerdictView {
        VerdictView {
            status_code: self.status_code,
            is_valid: self.is_valid,
            error_msg: message_view(self.error_msg),
        }
    }
}

impl View for GeneratePieceCommitmentResponse {
    type V = PieceCommitmentView;

    open spec fn view(&self) -> PieceCommitmentView {
        PieceCommitmentView {
            status_code: self.status_code,
            comm_p: self.comm_p@,
            padded_and_aligned_piece_size: self.padded_and_aligned_piece_size,
            error_msg: message_view(self.error_msg),
        }
    }
}

impl Default for VerifySealResponse {
    /// The empty response: status 0, no message, no valid proof.
    fn default() -> (resp: Self)
        ensures
            resp@ == verdict_of(Ok(false)),
    {
        VerifySealResponse { status_code: STATUS_OK, error_msg: None, is_valid: false }
    }
}

impl Default for VerifyPoStResponse {
    /// The empty response: status 0, no message, no valid proof.
    fn default() -> (resp: Self)
        ensures
            resp@ == verdict_of(Ok(false)),
    {
        VerifyPoStResponse { status_code: STATUS_OK, error_msg: None, is_valid: false }
    }
}

impl Default for VerifyPieceInclusionProofResponse {
    /// The empty response: status 0, no message, no valid proof.
    fn default() -> (resp: Self)
        ensures
            resp@ == verdict_of(Ok(false)),
    {
        VerifyPieceInclusionProofResponse { status_code: STATUS_OK, error_msg: None, is_valid: false }
    }
}

impl Default for GeneratePieceCommitmentResponse {
    /// The empty response: status 0, no message, commitment and size zero.
    fn default() -> (resp: Self)
        ensures
            resp@ == commitment_response_of(Ok((Seq::new(32, |i: int| 0u8), 0u64))),
    {
        let resp = GeneratePieceCommitmentResponse {
            status_code: STATUS_OK,
            error_msg: None,
            comm_p: [0u8;32],
            padded_and_aligned_piece_size: 0,
        };
        assert(resp.comm_p@ =~= Seq::new(32, |i: int| 0u8));
        resp
    }
}

impl VerifySealResponse {
    /// Reports the outcome of a seal verification.
    pub fn from_result(result: Result<bool, String>) -> (resp: Self)
        ensures
            resp@ == verdict_of(verdict_result_view(result)),
    {
        let mut response = VerifySealResponse::default();
        match result {
            Ok(is_valid) => {
                response.status_code = STATUS_OK;
                response.is_valid = is_valid;
            },
            Err(message) => {
                response.status_code = STATUS_FAILED;
                response.error_msg = Some(message);
            },
        }
        response
    }
}

impl VerifyPoStResponse {
    /// Reports the outcome of a proof-of-spacetime verification.
    pub fn from_result(result: Result<bool, String>) -> (resp: Self)
        ensures
            resp@ == verdict_of(verdict_result_view(result)),
    {
        let mut response = VerifyPoStResponse::default();
        match result {
            Ok(is_valid) => {
                response.status_code = STATUS_OK;
                response.is_valid = is_valid;
            },
            Err(message) => {
                response.status_code = STATUS_FAILED;
                response.error_msg = Some(message);
            },
        }
        response
    }
}

impl VerifyPieceInclusionProofResponse {
    /// Reports the outcome of a piece-inclusion verification.
    pub fn from_result(result: Result<bool, String>) -> (resp: Self)
        ensures
            resp@ == verdict_of(verdict_result_view(result)),
    {
        let mut response = VerifyPieceInclusionProofResponse::default();
        match result {
            Ok(is_valid) => {
                response.status_code = STATUS_OK;
                response.is_valid = is_valid;
            },
            Err(message) => {
                response.status_code = STATUS_FAILED;
                response.error_msg = Some(message);
            },
        }
        response
    }
}

impl GeneratePieceCommitmentResponse {
    /// Reports the outcome of a piece-commitment generation.
    pub fn from_result(result: Result<([u8; 32], u64), String>) -> (resp: Self)
        ensures
            resp@ == commitment_response_of(commitment_result_view(result)),
    {
        let mut response = GeneratePieceCommitmentResponse::default();
        match result {
            Ok((comm_p, padded_and_aligned_piece_size)) => {
                response.status_code = STATUS_OK;
                response.comm_p = comm_p;
                response.padded_and_aligned_piece_size = padded_and_aligned_piece_size;
            },
            Err(message) => {
                response.status_code = STATUS_FAILED;
                response.error_msg = Some(message);
            },
        }
        response
    }
}

/// Whatever the outcome of a verification, its response has status 0 if and
/// only if it carries no error message.
pub proof fn lemma_verdict_status_matches_message(result: Result<bool, Seq<char>>)
    ensures
        verdict_of(result).wf(),
        verdict_of(result).status_code == 0 <==> result is Ok,
{
}

/// Whatever the outcome of a commitment generation, its response has status 0
/// if and only if it carries no error message.
pub proof fn lemma_commitment_status_matches_message(result: Result<(Seq<u8>, u64), Seq<char>>)
    requires
        result is Ok ==> result->Ok_0.0.len() == 32,
    ensures
        commitment_response_of(result).wf(),
        commitment_response_of(result).status_code == 0 <==> result is Ok,
{
}

} // verus!
