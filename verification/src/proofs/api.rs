//! The operations on pieces, sectors and proofs. Where the proof engine
//! works on files, the operation is in two parts: one that looks at the
//! inputs before the engine runs, and one that tells the caller how it
//! ended.
use crate::chunks::chunks;
use crate::field::is_fr_encoding;
use crate::proofs::engine::{
    add_piece_to, aligned_piece_bytes, aligned_total, alignment_budget, data_commitment,
    data_commitment_of, fr_from_bytes, is_power_of_two, left_alignment, needed_from,
    piece_bytes_needed, piece_commitments, piece_sizes, piece_write, right_alignment, total_size,
    unpadded_bytes, unpadded_capacity, write_piece_to, MAX_ALIGNMENT_BUDGET, MAX_SECTOR_SIZE,
};
use crate::proofs::error::{errors_have_a_message, ProofsError};
use crate::proofs::helpers::{
    all_partial_tickets_valid, are_candidates_of, c_to_rust_candidates, c_to_rust_proofs,
    commitment_map, map_views, porep_proof_partitions_try_from_bytes, public_replica_map_error,
    to_public_replica_info_map, try_into_porep_proof_bytes,
};
use crate::proofs::types::{
    reports_error, reports_success, zero_commitment, Candidate, FCPResponseStatus, FFICandidate,
    FFIPublicPieceInfo, FFISealPreCommitOutput, FFISectorClass, FinalizeTicketResponse,
    GenerateCandidatesResponse, GenerateDataCommitmentResponse, GeneratePieceCommitmentResponse,
    GeneratePoStResponse, PoRepConfig, SealCommitResponse, SealPreCommitResponse,
    UnsealRangeResponse, UnsealResponse, VerifyPoStResponse, VerifySealResponse,
    WriteWithAlignmentResponse, WriteWithoutAlignmentResponse,
};
use std::collections::BTreeMap;
use vstd::prelude::*;

verus! {

/// The answer to pre-commit, given how the proof engine's work ended: its two
/// commitments, or the report of its error.
pub fn seal_pre_commit(result: Result<FFISealPreCommitOutput, ProofsError>) -> (response:
    SealPreCommitResponse)
    ensures
        match result {
            Ok(output) => {
                &&& reports_success(response.status_code, response.error_msg)
                &&& response.seal_pre_commit_output == output
            },
            Err(e) => {
                &&& reports_error(response.status_code, response.error_msg, e)
                &&& response.seal_pre_commit_output.comm_d@ == zero_commitment()
                &&& response.seal_pre_commit_output.comm_r@ == zero_commitment()
            },
        },
{
    let mut response = SealPreCommitResponse::default();
    match result {
        Ok(output) => {
            response.status_code = FCPResponseStatus::FCPNoError;
            let mut x = FFISealPreCommitOutput::default();
            x.comm_r = output.comm_r;
            x.comm_d = output.comm_d;
            response.seal_pre_commit_output = x;
        },
        Err(err) => {
            response.status_code = FCPResponseStatus::FCPUnclassifiedError;
            response.error_msg = err.message();
        },
    }
    response
}

/// The answer to commit, given how the proof engine's work ended: the proof,
/// or the report of its error.
pub fn seal_commit(result: Result<Vec<u8>, ProofsError>) -> (response: SealCommitResponse)
    ensures
        match result {
            Ok(proof_bytes) => {
                &&& reports_success(response.status_code, response.error_msg)
                &&& response.proof@ == proof_bytes@
            },
            Err(e) => {
                &&& reports_error(response.status_code, response.error_msg, e)
                &&& response.proof@.len() == 0
            },
        },
{
    let mut response = SealCommitResponse::default();
    match result {
        Ok(proof_bytes) => {
            response.status_code = FCPResponseStatus::FCPNoError;
            response.proof = proof_bytes;
        },
        Err(err) => {
            response.status_code = FCPResponseStatus::FCPUnclassifiedError;
            response.error_msg = err.message();
        },
    }
    response
}

/// Returns the number of user bytes that will fit into a staged sector: of
/// every 256 bits of the sector, 254 carry data.
pub fn get_max_user_bytes_per_staged_sector(sector_size: u64) -> (capacity: u64)
    ensures
        capacity == unpadded_bytes(sector_size),
        capacity <= sector_size,
{
    if sector_size <= MAX_SECTOR_SIZE {
        unpadded_capacity(sector_size)
    } else {
        // Beyond the largest sector size the proof engine's conversion is no
        // longer exact: count the elements of 32 bytes, of which each holds
        // 254 bits, and what is left.
        let elements: u64 = sector_size / 32;
        let rest: u64 = sector_size % 32;
        assert(sector_size * 8 / 256 == elements) by {
            assert(sector_size * 8 / 256 == sector_size / 32);
        }
        assert(sector_size * 8 % 256 == rest * 8);
        let whole: u64 = elements / 4 * 127;
        let quarter: u64 = elements % 4;
        assert((elements * 254 + rest * 8) / 8 == whole + (quarter * 254 + rest * 8) / 8);
        whole + (quarter * 254 + rest * 8) / 8
    }
}

/// The range that unsealing a whole sector asks for: from the first byte, as
/// many bytes as the sector holds of user data.
pub fn unseal_inputs(sector_class: &FFISectorClass) -> (range: (u64, u64))
    ensures
        range.0 == 0,
        range.1 == unpadded_bytes(sector_class.sector_size),
{
    (0, get_max_user_bytes_per_staged_sector(sector_class.sector_size))
}

/// The answer to unsealing a whole sector, given how the proof engine's work
/// ended.
pub fn unseal(result: Result<(), ProofsError>) -> (response: UnsealResponse)
    ensures
        match result {
            Ok(_) => reports_success(response.status_code, response.error_msg),
            Err(e) => reports_error(response.status_code, response.error_msg, e),
        },
{
    let mut response = UnsealResponse::default();
    match result {
        Ok(_) => {
            response.status_code = FCPResponseStatus::FCPNoError;
        },
        Err(err) => {
            response.status_code = FCPResponseStatus::FCPUnclassifiedError;
            response.error_msg = err.message();
        },
    }
    response
}

/// The range lies within what the sector holds of user data.
pub open spec fn range_in_sector(sector_size: u64, offset: u64, length: u64) -> bool {
    offset + length <= unpadded_bytes(sector_size)
}

/// Checks the range that is to be unsealed against what the sector holds of
/// user data. A range that goes beyond it is refused.
pub fn unseal_range_inputs(sector_class: &FFISectorClass, offset: u64, length: u64) -> (range:
    Result<(u64, u64), ProofsError>)
    ensures
        match range {
            Ok(r) => range_in_sector(sector_class.sector_size, offset, length) && r == (
                offset,
                length,
            ),
            Err(e) => {
                &&& !range_in_sector(sector_class.sector_size, offset, length)
                &&& e == (ProofsError::Range {
                    offset,
                    length,
                    capacity: unpadded_bytes(sector_class.sector_size) as u64,
                })
            },
        },
{
    let capacity = get_max_user_bytes_per_staged_sector(sector_class.sector_size);
    if offset > capacity || length > capacity - offset {
        return Err(ProofsError::Range { offset, length, capacity });
    }
    Ok((offset, length))
}

/// The answer to unsealing a range, given how the check of the range or the
/// proof engine's work ended.
pub fn unseal_range(result: Result<(), ProofsError>) -> (response: UnsealRangeResponse)
    ensures
        match result {
            Ok(_) => reports_success(response.status_code, response.error_msg),
            Err(e) => reports_error(response.status_code, response.error_msg, e),
        },
{
    let mut response = UnsealRangeResponse::default();
    match result {
        Ok(_) => {
            response.status_code = FCPResponseStatus::FCPNoError;
        },
        Err(err) => {
            response.status_code = FCPResponseStatus::FCPUnclassifiedError;
            response.error_msg = err.message();
        },
    }
    response
}

/// Why a seal proof cannot be handed to the proof engine, if it cannot: it
/// is missing, it is empty, its length is no multiple of the length of one
/// partition, or it is that of more than 255 partitions.
pub open spec fn verify_seal_inputs_error(porep_proof: Option<&[u8]>) -> Option<ProofsError> {
    match porep_proof {
        None => Some(ProofsError::ProofsNull),
        Some(p) => if p@.len() == 0 {
            Some(ProofsError::ZeroProofChunk)
        } else if p@.len() % 192 != 0 || p@.len() / 192 > 255 {
            Some(ProofsError::NoPartitions { len: p.len() })
        } else {
            None
        },
    }
}

/// What the proof engine is handed to verify a seal: the proof's bytes, and
/// the sector size with the number of partitions that the proof's length
/// tells.
pub fn verify_seal_inputs(sector_size: u64, porep_proof: Option<&[u8]>) -> (inputs: Result<
    (PoRepConfig, Vec<u8>),
    ProofsError,
>)
    ensures
        match inputs {
            Ok((cfg, bytes)) => {
                &&& verify_seal_inputs_error(porep_proof) is None
                &&& bytes@ == porep_proof.unwrap()@
                &&& cfg.sector_size == sector_size
                &&& cfg.partitions == bytes@.len() / 192
            },
            Err(e) => verify_seal_inputs_error(porep_proof) == Some(e),
        },
{
    let bytes = match try_into_porep_proof_bytes(porep_proof) {
        Err(e) => {
            return Err(e);
        },
        Ok(bytes) => bytes,
    };
    let partitions = match porep_proof_partitions_try_from_bytes(bytes.as_slice()) {
        Err(e) => {
            return Err(e);
        },
        Ok(partitions) => partitions,
    };
    Ok((PoRepConfig { sector_size, partitions }, bytes))
}

/// The answer to the verification of a seal, given how the check of the
/// proof's bytes or the proof engine's work ended.
pub fn verify_seal(result: Result<bool, ProofsError>) -> (response: VerifySealResponse)
    ensures
        match result {
            Ok(is_valid) => {
                &&& reports_success(response.status_code, response.error_msg)
                &&& response.is_valid == is_valid
            },
            Err(e) => {
                &&& reports_error(response.status_code, response.error_msg, e)
                &&& !response.is_valid
            },
        },
{
    let mut response = VerifySealResponse::default();
    match result {
        Ok(true) => {
            response.status_code = FCPResponseStatus::FCPNoError;
            response.is_valid = true;
        },
        Ok(false) => {
            response.status_code = FCPResponseStatus::FCPNoError;
            response.is_valid = false;
        },
        Err(err) => {
            response.status_code = FCPResponseStatus::FCPUnclassifiedError;
            response.error_msg = err.message();
        },
    }
    response
}

/// What the proof engine is handed to verify a proof of spacetime.
#[derive(Debug)]
pub struct PoStVerification {
    /// The replica commitment of each sector.
    pub replicas: BTreeMap<u64, [u8; 32]>,
    /// The proofs, one per partition.
    pub proofs: Vec<Vec<u8>>,
    /// The candidates that the proofs are for.
    pub winners: Vec<Candidate>,
}

/// Why the inputs of the verification of a proof of spacetime cannot be
/// handed to the proof engine, if they cannot. The sectors are looked at
/// first, then the proofs, then the candidates.
pub open spec fn verify_post_inputs_error(
    sector_ids: Option<&[u64]>,
    flattened_comm_rs: Option<&[u8]>,
    flattened_proofs: Option<&[u8]>,
    winners: Option<&[FFICandidate]>,
) -> Option<ProofsError> {
    match public_replica_map_error(sector_ids, flattened_comm_rs) {
        Some(e) => Some(e),
        None => if flattened_proofs is None {
            Some(ProofsError::FlattenedProofNull)
        } else if winners is None {
            Some(ProofsError::WinnersNull)
        } else if !all_partial_tickets_valid(winners.unwrap()@) {
            Some(ProofsError::BadFrBytes)
        } else {
            None
        },
    }
}

/// Decodes what the verification of a proof of spacetime is given: sector
/// ids and replica commitments are paired by index, the proofs are cut into
/// partitions, and every candidate is looked at.
pub fn verify_post_inputs(
    sector_ids: Option<&[u64]>,
    flattened_comm_rs: Option<&[u8]>,
    flattened_proofs: Option<&[u8]>,
    winners: Option<&[FFICandidate]>,
) -> (inputs: Result<PoStVerification, ProofsError>)
    ensures
        match inputs {
            Ok(v) => {
                &&& verify_post_inputs_error(
                    sector_ids,
                    flattened_comm_rs,
                    flattened_proofs,
                    winners,
                ) is None
                &&& map_views(v.replicas@) == commitment_map(
                    sector_ids.unwrap()@,
                    chunks(flattened_comm_rs.unwrap()@, 32),
                )
                &&& v.proofs@.len() == chunks(flattened_proofs.unwrap()@, 192).len()
                &&& forall|i: int|
                    0 <= i < v.proofs@.len() ==> (#[trigger] v.proofs@[i])@ == chunks(
                        flattened_proofs.unwrap()@,
                        192,
                    )[i]
                &&& are_candidates_of(v.winners@, winners.unwrap()@)
            },
            Err(e) => verify_post_inputs_error(
                sector_ids,
                flattened_comm_rs,
                flattened_proofs,
                winners,
            ) == Some(e),
        },
{
    let replicas = match to_public_replica_info_map(sector_ids, flattened_comm_rs) {
        Err(e) => {
            return Err(e);
        },
        Ok(replicas) => replicas,
    };
    let proofs = match c_to_rust_proofs(flattened_proofs) {
        Err(e) => {
            return Err(e);
        },
        Ok(proofs) => proofs,
    };
    let winners = match c_to_rust_candidates(winners) {
        Err(e) => {
            return Err(e);
        },
        Ok(winners) => winners,
    };
    Ok(PoStVerification { replicas, proofs, winners })
}

/// The answer to the verification of a proof of spacetime, given how the
/// decoding of the inputs or the proof engine's work ended.
pub fn verify_post(result: Result<bool, ProofsError>) -> (response: VerifyPoStResponse)
    ensures
        match result {
            Ok(is_valid) => {
                &&& reports_success(response.status_code, response.error_msg)
                &&& response.is_valid == is_valid
            },
            Err(e) => {
                &&& reports_error(response.status_code, response.error_msg, e)
                &&& !response.is_valid
            },
        },
{
    let mut response = VerifyPoStResponse::default();
    match result {
        Ok(is_valid) => {
            response.status_code = FCPResponseStatus::FCPNoError;
            response.is_valid = is_valid;
        },
        Err(err) => {
            response.status_code = FCPResponseStatus::FCPUnclassifiedError;
            response.error_msg = err.message();
        },
    }
    response
}

/// The answer to a request for a piece commitment, given how the proof
/// engine's work ended: the commitment with the number of bytes of the
/// aligned piece, or the report of its error.
pub fn generate_piece_commitment(result: Result<([u8; 32], u64), ProofsError>) -> (response:
    GeneratePieceCommitmentResponse)
    ensures
        match result {
            Ok((comm_p, num_bytes_aligned)) => {
                &&& reports_success(response.status_code, response.error_msg)
                &&& response.comm_p == comm_p
                &&& response.num_bytes_aligned == num_bytes_aligned
            },
            Err(e) => {
                &&& reports_error(response.status_code, response.error_msg, e)
                &&& response.comm_p@ == zero_commitment()
                &&& response.num_bytes_aligned == 0
            },
        },
{
    let mut response = GeneratePieceCommitmentResponse::default();
    match result {
        Ok((comm_p, num_bytes_aligned)) => {
            response.status_code = FCPResponseStatus::FCPNoError;
            response.comm_p = comm_p;
            response.num_bytes_aligned = num_bytes_aligned;
        },
        Err(err) => {
            response.status_code = FCPResponseStatus::FCPUnclassifiedError;
            response.error_msg = err.message();
        },
    }
    response
}

/// The candidate as callers hold it: the same values.
pub open spec fn is_ffi_candidate_of(given: FFICandidate, candidate: Candidate) -> bool {
    &&& given.sector_id == candidate.sector_id
    &&& given.partial_ticket == candidate.partial_ticket
    &&& given.ticket == candidate.ticket
    &&& given.sector_challenge_index == candidate.sector_challenge_index
}

/// The answer to a request for candidates, given how the proof engine's work
/// ended: the candidates in the engine's order, or the report of its error.
pub fn generate_candidates(result: Result<Vec<Candidate>, ProofsError>) -> (response:
    GenerateCandidatesResponse)
    ensures
        match result {
            Ok(output) => {
                &&& reports_success(response.status_code, response.error_msg)
                &&& response.candidates@.len() == output@.len()
                &&& forall|i: int|
                    0 <= i < output@.len() ==> is_ffi_candidate_of(
                        #[trigger] response.candidates@[i],
                        output@[i],
                    )
            },
            Err(e) => {
                &&& reports_error(response.status_code, response.error_msg, e)
                &&& response.candidates@.len() == 0
            },
        },
{
    let mut response = GenerateCandidatesResponse::default();
    match result {
        Ok(output) => {
            let mut mapped: Vec<FFICandidate> = Vec::new();
            let mut i: usize = 0;
            while i < output.len()
                invariant
                    i <= output@.len(),
                    mapped@.len() == i,
                    forall|k: int|
                        0 <= k < i ==> is_ffi_candidate_of(#[trigger] mapped@[k], output@[k]),
                decreases output@.len() - i,
            {
                mapped.push(
                    FFICandidate {
                        sector_id: output[i].sector_id,
                        partial_ticket: output[i].partial_ticket,
                        ticket: output[i].ticket,
                        sector_challenge_index: output[i].sector_challenge_index,
                    },
                );
                i = i + 1;
            }
            response.status_code = FCPResponseStatus::FCPNoError;
            response.candidates = mapped;
        },
        Err(err) => {
            response.status_code = FCPResponseStatus::FCPUnclassifiedError;
            response.error_msg = err.message();
        },
    }
    response
}

/// The byte sequences one after the other.
pub open spec fn concat(pieces: Seq<Seq<u8>>) -> Seq<u8>
    decreases pieces.len(),
{
    if pieces.len() == 0 {
        Seq::empty()
    } else {
        concat(pieces.drop_last()) + pieces.last()
    }
}

/// The proofs as byte sequences.
pub open spec fn proof_views(proofs: Seq<Vec<u8>>) -> Seq<Seq<u8>> {
    proofs.map_values(|p: Vec<u8>| p@)
}

/// The answer to a request for a proof of spacetime, given how the proof
/// engine's work ended: its proofs one after the other, or the report of its
/// error.
pub fn generate_post(result: Result<Vec<Vec<u8>>, ProofsError>) -> (response: GeneratePoStResponse)
    ensures
        match result {
            Ok(proofs) => {
                &&& reports_success(response.status_code, response.error_msg)
                &&& response.flattened_proofs@ == concat(proof_views(proofs@))
            },
            Err(e) => {
                &&& reports_error(response.status_code, response.error_msg, e)
                &&& response.flattened_proofs@.len() == 0
            },
        },
{
    let mut response = GeneratePoStResponse::default();
    match result {
        Ok(proofs) => {
            let mut flattened_proofs: Vec<u8> = Vec::new();
            let ghost views = proof_views(proofs@);
            let mut i: usize = 0;
            while i < proofs.len()
                invariant
                    i <= proofs@.len(),
                    views == proof_views(proofs@),
                    flattened_proofs@ == concat(views.take(i as int)),
                decreases proofs@.len() - i,
            {
                let ghost before = flattened_proofs@;
                let mut j: usize = 0;
                while j < proofs[i].len()
                    invariant
                        i < proofs@.len(),
                        j <= proofs@[i as int]@.len(),
                        flattened_proofs@ == before + proofs@[i as int]@.take(j as int),
                    decreases proofs@[i as int]@.len() - j,
                {
                    flattened_proofs.push(proofs[i][j]);
                    j = j + 1;
                }
                proof {
                    let next = i as int + 1;
                    assert(proofs@[i as int]@.take(j as int) == proofs@[i as int]@);
                    assert(views.take(next).drop_last() == views.take(i as int));
                    assert(views.take(next).last() == proofs@[i as int]@);
                }
                i = i + 1;
            }
            assert(views.take(i as int) == views);
            response.status_code = FCPResponseStatus::FCPNoError;
            response.flattened_proofs = flattened_proofs;
        },
        Err(err) => {
            response.status_code = FCPResponseStatus::FCPUnclassifiedError;
            response.error_msg = err.message();
        },
    }
    response
}

/// The first pieces of a buffer of proofs, one after the other, are the
/// first bytes of the buffer.
proof fn lemma_concat_of_chunks(flat: Seq<u8>, k: int)
    requires
        0 <= k <= chunks(flat, 192).len(),
    ensures
        concat(chunks(flat, 192).take(k)) == flat.take(
            if k * 192 <= flat.len() {
                k * 192
            } else {
                flat.len() as int
            },
        ),
    decreases k,
{
    let pieces = chunks(flat, 192);
    if k == 0 {
        assert(concat(pieces.take(0)) =~= flat.take(0));
    } else {
        lemma_concat_of_chunks(flat, k - 1);
        assert(pieces.take(k).drop_last() == pieces.take(k - 1));
        assert(pieces.take(k).last() == pieces[k - 1]);
        let end = if k * 192 <= flat.len() {
            k * 192
        } else {
            flat.len() as int
        };
        assert(flat.take((k - 1) * 192) + flat.subrange((k - 1) * 192, end) =~= flat.take(end));
    }
}

/// What a proof of spacetime is flattened to is cut into the same proofs
/// again: a buffer of proofs cut into partitions and put together again is
/// the buffer.
pub proof fn proofs_survive_cutting(flat: Seq<u8>)
    ensures
        concat(chunks(flat, 192)) == flat,
{
    let pieces = chunks(flat, 192);
    lemma_concat_of_chunks(flat, pieces.len() as int);
    assert(pieces.take(pieces.len() as int) == pieces);
    assert(flat.take(flat.len() as int) == flat);
}

/// Looks at a partial ticket before it is finalized: it is handed on where
/// it is the encoding of a field element, and refused where it is not.
pub fn finalize_ticket_inputs(partial_ticket: &[u8; 32]) -> (inputs: Result<[u8; 32], ProofsError>)
    ensures
        match inputs {
            Ok(bytes) => is_fr_encoding(partial_ticket@) && bytes == *partial_ticket,
            Err(e) => !is_fr_encoding(partial_ticket@) && e == ProofsError::BadFrBytes,
        },
{
    if fr_from_bytes(partial_ticket).is_none() {
        return Err(ProofsError::BadFrBytes);
    }
    Ok(*partial_ticket)
}

/// The answer to finalizing a partial ticket, given how the check of the
/// partial ticket or the proof engine's work ended: the ticket, or the report
/// of the error.
pub fn finalize_ticket(result: Result<[u8; 32], ProofsError>) -> (response: FinalizeTicketResponse)
    ensures
        match result {
            Ok(ticket) => {
                &&& reports_success(response.status_code, response.error_msg)
                &&& response.ticket == ticket
            },
            Err(e) => {
                &&& reports_error(response.status_code, response.error_msg, e)
                &&& response.ticket@ == zero_commitment()
            },
        },
{
    let mut response = FinalizeTicketResponse::default();
    match result {
        Ok(ticket) => {
            response.status_code = FCPResponseStatus::FCPNoError;
            response.ticket = ticket;
        },
        Err(err) => {
            response.status_code = FCPResponseStatus::FCPUnclassifiedError;
            response.error_msg = err.message();
        },
    }
    response
}

/// The sizes of the first pieces sum up to no more than those of all.
proof fn lemma_total_size_prefix(sizes: Seq<u64>, k: int)
    requires
        0 <= k <= sizes.len(),
    ensures
        total_size(sizes.take(k)) <= total_size(sizes),
    decreases sizes.len(),
{
    if k == sizes.len() {
        assert(sizes.take(k) == sizes);
    } else {
        lemma_total_size_prefix(sizes.drop_last(), k);
        assert(sizes.drop_last().take(k) == sizes.take(k));
    }
}

/// Whether the pieces together are no larger than the sector.
fn pieces_fit(sector_size: u64, pieces: &[FFIPublicPieceInfo]) -> (ok: bool)
    ensures
        ok == (total_size(piece_sizes(pieces@)) <= sector_size),
{
    let ghost sizes = piece_sizes(pieces@);
    let mut total: u64 = 0;
    let mut i: usize = 0;
    while i < pieces.len()
        invariant
            i <= pieces@.len(),
            sizes == piece_sizes(pieces@),
            total == total_size(sizes.take(i as int)),
            total <= sector_size,
        decreases pieces@.len() - i,
    {
        let size = pieces[i].num_bytes;
        proof {
            let next = i as int + 1;
            assert(sizes.take(next).drop_last() == sizes.take(i as int));
            assert(sizes.take(next).last() == size);
            lemma_total_size_prefix(sizes, next);
        }
        if size > sector_size - total {
            return false;
        }
        total = total + size;
        i = i + 1;
    }
    assert(sizes.take(i as int) == sizes);
    true
}

/// Why the proof engine is not asked for a data commitment, if it is not:
/// the sector is larger than the largest sector size, the pieces together
/// are larger than the sector, or there is no piece and the sector is none
/// whose zeros fill a binary tree, which the engine would meet with a panic.
pub open spec fn data_commitment_refusal(
    sector_size: u64,
    pieces: Seq<FFIPublicPieceInfo>,
) -> Option<ProofsError> {
    if sector_size > MAX_SECTOR_SIZE {
        Some(ProofsError::SizesTooLarge)
    } else if total_size(piece_sizes(pieces)) > sector_size {
        Some(ProofsError::PiecesTooLarge)
    } else if pieces.len() == 0 && !(sector_size >= 128 && is_power_of_two(sector_size as nat)) {
        Some(ProofsError::Fault)
    } else {
        None
    }
}

/// Whether a number is a power of two.
fn power_of_two(n: u64) -> (ok: bool)
    ensures
        ok == is_power_of_two(n as nat),
{
    let mut rest = n;
    while rest > 1 && rest % 2 == 0
        invariant
            is_power_of_two(rest as nat) == is_power_of_two(n as nat),
        decreases rest,
    {
        rest = rest / 2;
    }
    rest == 1
}

/// The answer to a request for a data commitment, given the proof engine's
/// outcome: the commitment, or the report of its error.
pub fn generate_data_commitment_response(result: Result<[u8; 32], ProofsError>) -> (response:
    GenerateDataCommitmentResponse)
    ensures
        match result {
            Ok(comm_d) => {
                &&& reports_success(response.status_code, response.error_msg)
                &&& response.comm_d == comm_d
            },
            Err(e) => {
                &&& reports_error(response.status_code, response.error_msg, e)
                &&& response.comm_d@ == zero_commitment()
            },
        },
{
    let mut response = GenerateDataCommitmentResponse::default();
    match result {
        Ok(commitment) => {
            response.status_code = FCPResponseStatus::FCPNoError;
            response.comm_d = commitment;
        },
        Err(err) => {
            response.status_code = FCPResponseStatus::FCPUnclassifiedError;
            response.error_msg = err.message();
        },
    }
    response
}

/// Returns the merkle root for a sector containing the provided pieces.
pub fn generate_data_commitment(sector_size: u64, pieces: &[FFIPublicPieceInfo]) -> (response:
    GenerateDataCommitmentResponse)
    ensures
        match data_commitment_refusal(sector_size, pieces@) {
            Some(e) => {
                &&& reports_error(response.status_code, response.error_msg, e)
                &&& response.comm_d@ == zero_commitment()
            },
            None => match data_commitment_of(
                sector_size,
                piece_sizes(pieces@),
                piece_commitments(pieces@),
            ) {
                Some(comm_d) => {
                    &&& reports_success(response.status_code, response.error_msg)
                    &&& response.comm_d@ == comm_d
                },
                None => {
                    &&& response.status_code == FCPResponseStatus::FCPUnclassifiedError
                    &&& response.error_msg@.len() > 0
                    &&& response.comm_d@ == zero_commitment()
                },
            },
        },
{
    if sector_size > MAX_SECTOR_SIZE {
        return generate_data_commitment_response(Err(ProofsError::SizesTooLarge));
    }
    if !pieces_fit(sector_size, pieces) {
        return generate_data_commitment_response(Err(ProofsError::PiecesTooLarge));
    }
    if pieces.len() == 0 && !(sector_size >= 128 && power_of_two(sector_size)) {
        return generate_data_commitment_response(Err(ProofsError::Fault));
    }
    match data_commitment(sector_size, pieces) {
        Ok(comm_d) => generate_data_commitment_response(Ok(comm_d)),
        Err(text) => {
            proof {
                errors_have_a_message(ProofsError::Seal(text));
            }
            generate_data_commitment_response(Err(ProofsError::Seal(text)))
        },
    }
}

/// The budget of the first lengths is no more than that of all.
proof fn lemma_budget_prefix(lengths: Seq<u64>, k: int)
    requires
        0 <= k <= lengths.len(),
    ensures
        0 <= alignment_budget(lengths.take(k)) <= alignment_budget(lengths),
    decreases lengths.len(),
{
    if k == lengths.len() {
        assert(lengths.take(k) == lengths);
        if k > 0 {
            lemma_budget_prefix(lengths.drop_last(), k - 1);
        }
    } else {
        lemma_budget_prefix(lengths.drop_last(), k);
        assert(lengths.drop_last().take(k) == lengths.take(k));
    }
}

/// Whether the lengths of the earlier pieces and of the new one stay within
/// the budget within which they can be summed up.
fn sizes_fit(piece_lengths: &[u64], piece: u64) -> (ok: bool)
    ensures
        ok == (alignment_budget(piece_lengths@.push(piece)) <= MAX_ALIGNMENT_BUDGET),
        ok ==> piece <= MAX_ALIGNMENT_BUDGET / 4,
{
    let ghost all = piece_lengths@.push(piece);
    let mut budget: u64 = 0;
    let mut i: usize = 0;
    while i < piece_lengths.len()
        invariant
            i <= piece_lengths@.len(),
            all == piece_lengths@.push(piece),
            budget == alignment_budget(all.take(i as int)),
            budget <= MAX_ALIGNMENT_BUDGET,
        decreases piece_lengths@.len() - i,
    {
        let length = if piece_lengths[i] < 127 {
            127
        } else {
            piece_lengths[i]
        };
        proof {
            let next = i as int + 1;
            assert(all.take(next).drop_last() == all.take(i as int));
            assert(all.take(next).last() == piece_lengths@[i as int]);
            lemma_budget_prefix(all, next);
        }
        if length > MAX_ALIGNMENT_BUDGET / 4 || 4 * length > MAX_ALIGNMENT_BUDGET - budget {
            return false;
        }
        budget = budget + 4 * length;
        i = i + 1;
    }
    let length = if piece < 127 {
        127
    } else {
        piece
    };
    proof {
        assert(all.drop_last() == piece_lengths@);
        assert(all.take(i as int) == piece_lengths@);
        assert(all.last() == piece);
    }
    !(length > MAX_ALIGNMENT_BUDGET / 4 || 4 * length > MAX_ALIGNMENT_BUDGET - budget)
}

/// The bytes that a piece takes are no fewer than the piece has, and no fewer
/// than the candidate that the search for them starts from.
proof fn lemma_needed_covers(candidate: int, piece: int)
    requires
        candidate > 0,
    ensures
        needed_from(candidate, piece) >= piece,
        needed_from(candidate, piece) >= candidate,
    decreases
        (if piece > candidate {
            piece - candidate
        } else {
            0
        }),
{
    if candidate < piece {
        lemma_needed_covers(2 * candidate, piece);
    }
}

/// A piece with its alignment takes no fewer bytes than the piece has.
pub proof fn alignment_only_adds(written: int, piece: u64)
    requires
        written >= 0,
    ensures
        left_alignment(written, piece) >= 0,
        right_alignment(piece) >= 0,
        aligned_piece_bytes(written, piece) >= piece,
{
    lemma_needed_covers(127, piece as int);
    let needed = piece_bytes_needed(piece);
    assert(0 <= written % needed < needed);
}

/// Why the proof engine is not asked to write a piece, if it is not: the
/// source does not hold as many bytes as announced, the lengths are beyond
/// what can be summed up, or the piece does not fill the bytes that it takes
/// in a sector, which the engine refuses.
pub open spec fn write_refusal(source: &[u8], src_size: u64, piece_lengths: Seq<u64>) -> Option<
    ProofsError,
> {
    if src_size != source@.len() {
        Some(ProofsError::SourceLength { announced: src_size, len: source.len() })
    } else if alignment_budget(piece_lengths.push(src_size)) > MAX_ALIGNMENT_BUDGET {
        Some(ProofsError::SizesTooLarge)
    } else if piece_bytes_needed(src_size) != src_size {
        Some(ProofsError::PieceSize { size: src_size })
    } else {
        None
    }
}

/// Whether a piece fills the bytes that it takes in a sector: whether it has
/// 127, 254, 508 bytes and so on.
fn piece_fills_slot(piece: u64) -> (ok: bool)
    requires
        piece <= MAX_ALIGNMENT_BUDGET / 4,
    ensures
        ok == (piece_bytes_needed(piece) == piece),
{
    let mut needed: u64 = 127;
    while needed < piece
        invariant
            0 < needed <= 2 * piece || needed == 127,
            piece <= MAX_ALIGNMENT_BUDGET / 4,
            needed_from(needed as int, piece as int) == needed_from(127, piece as int),
        decreases
            (if piece > needed {
                piece - needed
            } else {
                0
            }),
    {
        needed = needed * 2;
    }
    needed == piece
}

/// The answer to a write with alignment of a piece of `src_size` bytes, given
/// the proof engine's outcome: the commitment, the bytes of alignment before
/// the piece and the bytes taken in all, or the report of its error. An
/// outcome that tells of fewer bytes than the piece has is reported as a
/// fault.
pub fn write_with_alignment_response(
    src_size: u64,
    result: Result<(u64, [u8; 32]), ProofsError>,
) -> (response: WriteWithAlignmentResponse)
    ensures
        match result {
            Ok((written, comm_p)) => if written >= src_size {
                &&& reports_success(response.status_code, response.error_msg)
                &&& response.comm_p == comm_p
                &&& response.left_alignment_unpadded == written - src_size
                &&& response.total_write_unpadded == written
            } else {
                &&& reports_error(response.status_code, response.error_msg, ProofsError::Fault)
                &&& response.comm_p@ == zero_commitment()
                &&& response.left_alignment_unpadded == 0
                &&& response.total_write_unpadded == 0
            },
            Err(e) => {
                &&& reports_error(response.status_code, response.error_msg, e)
                &&& response.comm_p@ == zero_commitment()
                &&& response.left_alignment_unpadded == 0
                &&& response.total_write_unpadded == 0
            },
        },
{
    let mut response = WriteWithAlignmentResponse::default();
    match result {
        Ok((aligned_bytes_written, comm_p)) => {
            if aligned_bytes_written >= src_size {
                response.comm_p = comm_p;
                response.left_alignment_unpadded = aligned_bytes_written - src_size;
                response.status_code = FCPResponseStatus::FCPNoError;
                response.total_write_unpadded = aligned_bytes_written;
            } else {
                response.status_code = FCPResponseStatus::FCPUnclassifiedError;
                response.error_msg = ProofsError::Fault.message();
            }
        },
        Err(err) => {
            response.status_code = FCPResponseStatus::FCPUnclassifiedError;
            response.error_msg = err.message();
        },
    }
    response
}

/// Writes the piece in `src` to the end of `dst`, after as many zero bytes
/// as align it with the pieces written before, whose lengths are given. The
/// response tells how many bytes of alignment stand before the piece, and how
/// many bytes the piece takes with them.
pub fn write_with_alignment(
    src: &[u8],
    src_size: u64,
    dst: &mut Vec<u8>,
    existing_piece_sizes: &[u64],
) -> (response: WriteWithAlignmentResponse)
    ensures
        match write_refusal(src, src_size, existing_piece_sizes@) {
            Some(e) => {
                &&& reports_error(response.status_code, response.error_msg, e)
                &&& final(dst)@ == old(dst)@
                &&& response.comm_p@ == zero_commitment()
                &&& response.left_alignment_unpadded == 0
                &&& response.total_write_unpadded == 0
            },
            None => match piece_write(src@, existing_piece_sizes@) {
                Some((bytes, comm_p)) => {
                    &&& reports_success(response.status_code, response.error_msg)
                    &&& final(dst)@ == old(dst)@ + bytes
                    &&& response.comm_p@ == comm_p
                    &&& response.left_alignment_unpadded == left_alignment(
                        aligned_total(existing_piece_sizes@),
                        src_size,
                    )
                    &&& response.total_write_unpadded == response.left_alignment_unpadded
                        + src_size
                },
                None => {
                    &&& response.status_code == FCPResponseStatus::FCPUnclassifiedError
                    &&& response.error_msg@.len() > 0
                    &&& old(dst)@.is_prefix_of(final(dst)@)
                    &&& response.comm_p@ == zero_commitment()
                    &&& response.left_alignment_unpadded == 0
                    &&& response.total_write_unpadded == 0
                },
            },
        },
{
    if src.len() as u64 != src_size {
        return write_with_alignment_response(
            src_size,
            Err(ProofsError::SourceLength { announced: src_size, len: src.len() }),
        );
    }
    if !sizes_fit(existing_piece_sizes, src_size) {
        return write_with_alignment_response(src_size, Err(ProofsError::SizesTooLarge));
    }
    if !piece_fills_slot(src_size) {
        return write_with_alignment_response(
            src_size,
            Err(ProofsError::PieceSize { size: src_size }),
        );
    }
    let ghost before = dst@;
    match add_piece_to(src, dst, existing_piece_sizes) {
        Ok(outcome) => {
            proof {
                assert(dst@ == before + dst@.skip(before.len() as int));
                budget_bounds_alignment(existing_piece_sizes@);
                alignment_only_adds(aligned_total(existing_piece_sizes@), src_size);
            }
            write_with_alignment_response(src_size, Ok(outcome))
        },
        Err(text) => {
            proof {
                errors_have_a_message(ProofsError::Seal(text));
            }
            write_with_alignment_response(src_size, Err(ProofsError::Seal(text)))
        },
    }
}

/// The bytes that a piece takes are fewer than twice the piece, and fewer
/// than twice the candidate that the search for them starts from.
proof fn lemma_needed_below_twice(candidate: int, piece: int)
    requires
        candidate > 0,
    ensures
        needed_from(candidate, piece) < 2 * (if piece > candidate {
            piece
        } else {
            candidate
        }),
    decreases
        (if piece > candidate {
            piece - candidate
        } else {
            0
        }),
{
    if candidate < piece {
        lemma_needed_below_twice(2 * candidate, piece);
    }
}

/// The budget bounds what the pieces take: pieces with their alignment take
/// no more bytes than the budget of their lengths allows.
pub proof fn budget_bounds_alignment(lengths: Seq<u64>)
    ensures
        0 <= aligned_total(lengths) <= alignment_budget(lengths),
    decreases lengths.len(),
{
    if lengths.len() > 0 {
        let before = aligned_total(lengths.drop_last());
        let last = lengths.last();
        budget_bounds_alignment(lengths.drop_last());
        alignment_only_adds(before, last);
        lemma_needed_below_twice(127, last as int);
        let needed = piece_bytes_needed(last);
        assert(0 <= before % needed < needed);
    }
}

/// The answer to a write without alignment, given the proof engine's
/// outcome: the commitment and the bytes taken, or the report of its error.
pub fn write_without_alignment_response(result: Result<(u64, [u8; 32]), ProofsError>) -> (response:
    WriteWithoutAlignmentResponse)
    ensures
        match result {
            Ok((written, comm_p)) => {
                &&& reports_success(response.status_code, response.error_msg)
                &&& response.comm_p == comm_p
                &&& response.total_write_unpadded == written
            },
            Err(e) => {
                &&& reports_error(response.status_code, response.error_msg, e)
                &&& response.comm_p@ == zero_commitment()
                &&& response.total_write_unpadded == 0
            },
        },
{
    let mut response = WriteWithoutAlignmentResponse::default();
    match result {
        Ok((total_bytes_written, comm_p)) => {
            response.comm_p = comm_p;
            response.status_code = FCPResponseStatus::FCPNoError;
            response.total_write_unpadded = total_bytes_written;
        },
        Err(err) => {
            response.status_code = FCPResponseStatus::FCPUnclassifiedError;
            response.error_msg = err.message();
        },
    }
    response
}

/// Writes the piece in `src` to the end of `dst`, with no alignment before
/// it.
pub fn write_without_alignment(src: &[u8], src_size: u64, dst: &mut Vec<u8>) -> (response:
    WriteWithoutAlignmentResponse)
    ensures
        match write_refusal(src, src_size, Seq::<u64>::empty()) {
            Some(e) => {
                &&& reports_error(response.status_code, response.error_msg, e)
                &&& final(dst)@ == old(dst)@
                &&& response.comm_p@ == zero_commitment()
                &&& response.total_write_unpadded == 0
            },
            None => match piece_write(src@, Seq::<u64>::empty()) {
                Some((bytes, comm_p)) => {
                    &&& reports_success(response.status_code, response.error_msg)
                    &&& final(dst)@ == old(dst)@ + bytes
                    &&& response.comm_p@ == comm_p
                    &&& response.total_write_unpadded == src_size
                },
                None => {
                    &&& response.status_code == FCPResponseStatus::FCPUnclassifiedError
                    &&& response.error_msg@.len() > 0
                    &&& old(dst)@.is_prefix_of(final(dst)@)
                    &&& response.comm_p@ == zero_commitment()
                    &&& response.total_write_unpadded == 0
                },
            },
        },
{
    if src.len() as u64 != src_size {
        return write_without_alignment_response(
            Err(ProofsError::SourceLength { announced: src_size, len: src.len() }),
        );
    }
    let no_pieces: Vec<u64> = Vec::new();
    if !sizes_fit(no_pieces.as_slice(), src_size) {
        return write_without_alignment_response(Err(ProofsError::SizesTooLarge));
    }
    if !piece_fills_slot(src_size) {
        return write_without_alignment_response(Err(ProofsError::PieceSize { size: src_size }));
    }
    assert(Seq::<u64>::empty().push(src_size) == seq![src_size]);
    let ghost before = dst@;
    match write_piece_to(src, dst) {
        Ok(outcome) => {
            proof {
                assert(dst@ == before + dst@.skip(before.len() as int));
                alignment_only_adds(0, src_size);
                assert(left_alignment(0, src_size) == 0);
            }
            write_without_alignment_response(Ok(outcome))
        },
        Err(text) => {
            proof {
                errors_have_a_message(ProofsError::Seal(text));
            }
            write_without_alignment_response(Err(ProofsError::Seal(text)))
        },
    }
}

/// Whatever fails is reported: a response that tells of an error has the
/// status of a failure and a text of at least one character.
pub proof fn failures_are_reported(
    status_code: FCPResponseStatus,
    error_msg: String,
    error: ProofsError,
)
    requires
        reports_error(status_code, error_msg, error),
    ensures
        status_code != FCPResponseStatus::FCPNoError,
        error_msg@.len() > 0,
{
    errors_have_a_message(error);
}

} // verus!
