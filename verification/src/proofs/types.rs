//! The values that sealing and proving take and hand back.
use crate::field::is_fr_encoding;
use crate::proofs::engine::fr_from_bytes;
use crate::proofs::error::ProofsError;
use vstd::prelude::*;

verus! {

/// How an operation ended.
#[derive(Clone, Copy, Debug, PartialEq, Eq, Structural)]
pub enum FCPResponseStatus {
    FCPNoError,
    FCPUnclassifiedError,
    FCPCallerError,
    FCPReceiverError,
}

/// A response tells of success: no error, and no text.
pub open spec fn reports_success(status_code: FCPResponseStatus, error_msg: String) -> bool {
    status_code == FCPResponseStatus::FCPNoError && error_msg@.len() == 0
}

/// A response tells of the given error: the status of a failure, and the
/// error's text, which is never empty.
pub open spec fn reports_error(
    status_code: FCPResponseStatus,
    error_msg: String,
    error: ProofsError,
) -> bool {
    &&& status_code == FCPResponseStatus::FCPUnclassifiedError
    &&& error_msg@ == error.message_spec()
    &&& error_msg@.len() > 0
}

/// Thirty-two zero bytes: the value of a commitment that was never set.
pub open spec fn zero_commitment() -> Seq<u8> {
    Seq::new(32, |i: int| 0u8)
}

/// The two commitments that pre-commit produces.
#[derive(Debug, Clone, Copy)]
pub struct FFISealPreCommitOutput {
    pub comm_d: [u8; 32],
    pub comm_r: [u8; 32],
}

impl Default for FFISealPreCommitOutput {
    fn default() -> (output: FFISealPreCommitOutput)
        ensures
            output.comm_d@ == zero_commitment(),
            output.comm_r@ == zero_commitment(),
    {
        FFISealPreCommitOutput { comm_d: [0u8; 32], comm_r: [0u8; 32] }
    }
}

/// A sector size with the number of partitions of its seal proof.
#[derive(Debug, Clone)]
pub struct FFISectorClass {
    pub sector_size: u64,
    pub porep_proof_partitions: u8,
}

/// One piece of user data: its size and its commitment.
#[derive(Debug, Clone)]
pub struct FFIPublicPieceInfo {
    pub num_bytes: u64,
    pub comm_p: [u8; 32],
}

/// A sector chosen for a proof of spacetime, as callers hold it: the partial
/// ticket is thirty-two bytes that nobody has looked at yet.
#[derive(Debug, Clone)]
pub struct FFICandidate {
    pub sector_id: u64,
    pub partial_ticket: [u8; 32],
    pub ticket: [u8; 32],
    pub sector_challenge_index: u64,
}

impl FFICandidate {
    /// Looks at the partial ticket: the candidate is handed on where it is
    /// the encoding of a field element, and refused where it is not.
    pub fn try_into_candidate(self) -> (candidate: Result<Candidate, ProofsError>)
        ensures
            candidate is Ok <==> is_fr_encoding(self.partial_ticket@),
            candidate matches Ok(c) ==> {
                &&& c.wf()
                &&& c.sector_id == self.sector_id
                &&& c.partial_ticket == self.partial_ticket
                &&& c.ticket == self.ticket
                &&& c.sector_challenge_index == self.sector_challenge_index
            },
            candidate matches Err(e) ==> e == ProofsError::BadFrBytes,
    {
        if fr_from_bytes(&self.partial_ticket).is_none() {
            return Err(ProofsError::BadFrBytes);
        }
        Ok(
            Candidate {
                sector_id: self.sector_id,
                partial_ticket: self.partial_ticket,
                ticket: self.ticket,
                sector_challenge_index: self.sector_challenge_index,
            },
        )
    }
}

/// A sector chosen for a proof of spacetime, as the proof engine holds it:
/// the partial ticket is an element of the scalar field, kept here by its
/// encoding.
#[derive(Debug)]
pub struct Candidate {
    pub sector_id: u64,
    pub partial_ticket: [u8; 32],
    pub ticket: [u8; 32],
    pub sector_challenge_index: u64,
}

impl Candidate {
    /// The partial ticket is the encoding of a field element.
    pub open spec fn wf(self) -> bool {
        is_fr_encoding(self.partial_ticket@)
    }
}

/// The size of a sector and the number of partitions of its seal proof, as
/// the proof engine is told them.
#[derive(Debug)]
pub struct PoRepConfig {
    pub sector_size: u64,
    pub partitions: u8,
}

/// A sealed sector that its owner can prove: where its replica and its cache
/// are, and what it committed to.
#[derive(Debug, Clone)]
pub struct FFIPrivateReplicaInfo {
    pub cache_dir_path: String,
    pub comm_r: [u8; 32],
    pub replica_path: String,
    pub sector_id: u64,
}

/// The answer to a request for candidates. `error_msg` is empty where there is no error.
#[derive(Debug)]
pub struct GenerateCandidatesResponse {
    pub status_code: FCPResponseStatus,
    pub error_msg: String,
    pub candidates: Vec<FFICandidate>,
}

impl Default for GenerateCandidatesResponse {
    fn default() -> (response: GenerateCandidatesResponse)
        ensures
            response.status_code == FCPResponseStatus::FCPNoError,
            response.error_msg@.len() == 0,
            response.candidates@.len() == 0,
    {
        GenerateCandidatesResponse {
            status_code: FCPResponseStatus::FCPNoError,
            error_msg: String::new(),
            candidates: Vec::new(),
        }
    }
}

/// The answer to a request for a proof of spacetime: the proofs, one after
/// the other. `error_msg` is empty where there is no error.
#[derive(Debug)]
pub struct GeneratePoStResponse {
    pub status_code: FCPResponseStatus,
    pub error_msg: String,
    pub flattened_proofs: Vec<u8>,
}

impl Default for GeneratePoStResponse {
    fn default() -> (response: GeneratePoStResponse)
        ensures
            response.status_code == FCPResponseStatus::FCPNoError,
            response.error_msg@.len() == 0,
            response.flattened_proofs@.len() == 0,
    {
        GeneratePoStResponse {
            status_code: FCPResponseStatus::FCPNoError,
            error_msg: String::new(),
            flattened_proofs: Vec::new(),
        }
    }
}

/// The answer to a write with alignment. `error_msg` is empty where there is no error.
#[derive(Debug)]
pub struct WriteWithAlignmentResponse {
    pub status_code: FCPResponseStatus,
    pub error_msg: String,
    pub comm_p: [u8; 32],
    pub left_alignment_unpadded: u64,
    pub total_write_unpadded: u64,
}

impl Default for WriteWithAlignmentResponse {
    fn default() -> (response: WriteWithAlignmentResponse)
        ensures
            response.status_code == FCPResponseStatus::FCPNoError,
            response.error_msg@.len() == 0,
            response.comm_p@ == zero_commitment(),
            response.left_alignment_unpadded == 0,
            response.total_write_unpadded == 0,
    {
        WriteWithAlignmentResponse {
            status_code: FCPResponseStatus::FCPNoError,
            error_msg: String::new(),
            comm_p: [0u8; 32],
            left_alignment_unpadded: 0,
            total_write_unpadded: 0,
        }
    }
}

/// The answer to a write without alignment. `error_msg` is empty where there is no error.
#[derive(Debug)]
pub struct WriteWithoutAlignmentResponse {
    pub status_code: FCPResponseStatus,
    pub error_msg: String,
    pub comm_p: [u8; 32],
    pub total_write_unpadded: u64,
}

impl Default for WriteWithoutAlignmentResponse {
    fn default() -> (response: WriteWithoutAlignmentResponse)
        ensures
            response.status_code == FCPResponseStatus::FCPNoError,
            response.error_msg@.len() == 0,
            response.comm_p@ == zero_commitment(),
            response.total_write_unpadded == 0,
    {
        WriteWithoutAlignmentResponse {
            status_code: FCPResponseStatus::FCPNoError,
            error_msg: String::new(),
            comm_p: [0u8; 32],
            total_write_unpadded: 0,
        }
    }
}

/// The answer to pre-commit. `error_msg` is empty where there is no error.
#[derive(Debug)]
pub struct SealPreCommitResponse {
    pub status_code: FCPResponseStatus,
    pub error_msg: String,
    pub seal_pre_commit_output: FFISealPreCommitOutput,
}

impl Default for SealPreCommitResponse {
    fn default() -> (response: SealPreCommitResponse)
        ensures
            response.status_code == FCPResponseStatus::FCPNoError,
            response.error_msg@.len() == 0,
            response.seal_pre_commit_output.comm_d@ == zero_commitment(),
            response.seal_pre_commit_output.comm_r@ == zero_commitment(),
    {
        SealPreCommitResponse {
            status_code: FCPResponseStatus::FCPNoError,
            error_msg: String::new(),
            seal_pre_commit_output: FFISealPreCommitOutput::default(),
        }
    }
}

/// The answer to commit: the proof. `error_msg` is empty where there is no error.
#[derive(Debug)]
pub struct SealCommitResponse {
    pub status_code: FCPResponseStatus,
    pub error_msg: String,
    pub proof: Vec<u8>,
}

impl Default for SealCommitResponse {
    fn default() -> (response: SealCommitResponse)
        ensures
            response.status_code == FCPResponseStatus::FCPNoError,
            response.error_msg@.len() == 0,
            response.proof@.len() == 0,
    {
        SealCommitResponse {
            status_code: FCPResponseStatus::FCPNoError,
            error_msg: String::new(),
            proof: Vec::new(),
        }
    }
}

/// The answer to unsealing a whole sector. `error_msg` is empty where there is no error.
#[derive(Debug)]
pub struct UnsealResponse {
    pub status_code: FCPResponseStatus,
    pub error_msg: String,
}

impl Default for UnsealResponse {
    fn default() -> (response: UnsealResponse)
        ensures
            response.status_code == FCPResponseStatus::FCPNoError,
            response.error_msg@.len() == 0,
    {
        UnsealResponse {
            status_code: FCPResponseStatus::FCPNoError,
            error_msg: String::new(),
        }
    }
}

/// The answer to unsealing a range of a sector. `error_msg` is empty where there is no error.
#[derive(Debug)]
pub struct UnsealRangeResponse {
    pub status_code: FCPResponseStatus,
    pub error_msg: String,
}

impl Default for UnsealRangeResponse {
    fn default() -> (response: UnsealRangeResponse)
        ensures
            response.status_code == FCPResponseStatus::FCPNoError,
            response.error_msg@.len() == 0,
    {
        UnsealRangeResponse {
            status_code: FCPResponseStatus::FCPNoError,
            error_msg: String::new(),
        }
    }
}

/// The answer to the verification of a seal. `error_msg` is empty where there is no error.
#[derive(Debug)]
pub struct VerifySealResponse {
    pub status_code: FCPResponseStatus,
    pub error_msg: String,
    pub is_valid: bool,
}

impl Default for VerifySealResponse {
    fn default() -> (response: VerifySealResponse)
        ensures
            response.status_code == FCPResponseStatus::FCPNoError,
            response.error_msg@.len() == 0,
            !response.is_valid,
    {
        VerifySealResponse {
            status_code: FCPResponseStatus::FCPNoError,
            error_msg: String::new(),
            is_valid: false,
        }
    }
}

/// The answer to the verification of a proof of spacetime. `error_msg` is
/// empty where there is no error.
#[derive(Debug)]
pub struct VerifyPoStResponse {
    pub status_code: FCPResponseStatus,
    pub error_msg: String,
    pub is_valid: bool,
}

impl Default for VerifyPoStResponse {
    fn default() -> (response: VerifyPoStResponse)
        ensures
            response.status_code == FCPResponseStatus::FCPNoError,
            response.error_msg@.len() == 0,
            !response.is_valid,
    {
        VerifyPoStResponse {
            status_code: FCPResponseStatus::FCPNoError,
            error_msg: String::new(),
            is_valid: false,
        }
    }
}

/// The answer to finalizing a partial ticket. `error_msg` is empty where there is no error.
#[derive(Debug)]
pub struct FinalizeTicketResponse {
    pub status_code: FCPResponseStatus,
    pub error_msg: String,
    pub ticket: [u8; 32],
}

impl Default for FinalizeTicketResponse {
    fn default() -> (response: FinalizeTicketResponse)
        ensures
            response.status_code == FCPResponseStatus::FCPNoError,
            response.error_msg@.len() == 0,
            response.ticket@ == zero_commitment(),
    {
        FinalizeTicketResponse {
            status_code: FCPResponseStatus::FCPNoError,
            error_msg: String::new(),
            ticket: [0u8; 32],
        }
    }
}

/// The answer to a request for a piece commitment. `error_msg` is empty where there is no error.
#[derive(Debug)]
pub struct GeneratePieceCommitmentResponse {
    pub status_code: FCPResponseStatus,
    pub error_msg: String,
    pub comm_p: [u8; 32],
    pub num_bytes_aligned: u64,
}

impl Default for GeneratePieceCommitmentResponse {
    fn default() -> (response: GeneratePieceCommitmentResponse)
        ensures
            response.status_code == FCPResponseStatus::FCPNoError,
            response.error_msg@.len() == 0,
            response.comm_p@ == zero_commitment(),
            response.num_bytes_aligned == 0,
    {
        GeneratePieceCommitmentResponse {
            status_code: FCPResponseStatus::FCPNoError,
            error_msg: String::new(),
            comm_p: [0u8; 32],
            num_bytes_aligned: 0,
        }
    }
}

/// The answer to a request for a data commitment. `error_msg` is empty where there is no error.
#[derive(Debug)]
pub struct GenerateDataCommitmentResponse {
    pub status_code: FCPResponseStatus,
    pub error_msg: String,
    pub comm_d: [u8; 32],
}

impl Default for GenerateDataCommitmentResponse {
    fn default() -> (response: GenerateDataCommitmentResponse)
        ensures
            response.status_code == FCPResponseStatus::FCPNoError,
            response.error_msg@.len() == 0,
            response.comm_d@ == zero_commitment(),
    {
        GenerateDataCommitmentResponse {
            status_code: FCPResponseStatus::FCPNoError,
            error_msg: String::new(),
            comm_d: [0u8; 32],
        }
    }
}

} // verus!
