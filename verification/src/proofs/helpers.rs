//! Decoding of the buffers that callers hand in.
use crate::chunks::{chunk, chunk_count, chunks};
use crate::field::is_fr_encoding;
use crate::proofs::engine::{
    fr_from_bytes, fr_to_bytes, replica_commitment_ok, scalar_encoding,
    single_partition_proof_len,
};
use crate::proofs::error::ProofsError;
use crate::proofs::types::{zero_commitment, Candidate, FFICandidate};
use blstrs::Scalar;
use std::collections::BTreeMap;
use vstd::prelude::*;
use vstd::slice::{slice_subrange, slice_to_vec};

verus! {

/// Splits the flattened commitments into 32-byte arrays, in order. The buffer
/// must hold whole commitments.
pub fn into_commitments(flattened_comms: &[u8]) -> (comms: Vec<[u8; 32]>)
    requires
        flattened_comms@.len() % 32 == 0,
    ensures
        comms@.len() == chunks(flattened_comms@, 32).len(),
        forall|i: int|
            0 <= i < comms@.len() ==> (#[trigger] comms@[i])@ == chunks(flattened_comms@, 32)[i],
{
    let n = flattened_comms.len();
    let mut comms: Vec<[u8; 32]> = Vec::new();
    let mut start: usize = 0;
    while start < n
        invariant
            n == flattened_comms@.len(),
            n % 32 == 0,
            start <= n,
            start == comms@.len() * 32,
            comms@.len() <= chunks(flattened_comms@, 32).len(),
            forall|i: int|
                0 <= i < comms@.len() ==> (#[trigger] comms@[i])@ == chunks(
                    flattened_comms@,
                    32,
                )[i],
        decreases n - start,
    {
        let mut comm = [0u8; 32];
        let mut j: usize = 0;
        while j < 32
            invariant
                j <= 32,
                start + 32 <= n,
                n == flattened_comms@.len(),
                forall|k: int| 0 <= k < j ==> comm@[k] == flattened_comms@[start + k],
            decreases 32 - j,
        {
            comm[j] = flattened_comms[start + j];
            j = j + 1;
        }
        assert(comm@ == chunks(flattened_comms@, 32)[comms@.len() as int]);
        comms.push(comm);
        start = start + 32;
    }
    comms
}

/// The commitments as byte sequences.
pub open spec fn commitment_views(comms: Seq<[u8; 32]>) -> Seq<Seq<u8>> {
    comms.map_values(|comm: [u8; 32]| comm@)
}

/// The map from sector id to commitment that comes of pairing the two lists
/// by index. Where a sector id occurs more than once, its last pair stays.
pub open spec fn commitment_map(sector_ids: Seq<u64>, comm_rs: Seq<Seq<u8>>) -> Map<u64, Seq<u8>>
    decreases sector_ids.len(),
{
    if sector_ids.len() == 0 || comm_rs.len() != sector_ids.len() {
        Map::empty()
    } else {
        commitment_map(sector_ids.drop_last(), comm_rs.drop_last()).insert(
            sector_ids.last(),
            comm_rs.last(),
        )
    }
}

/// A map of commitments with each commitment as a byte sequence.
pub open spec fn map_views(map: Map<u64, [u8; 32]>) -> Map<u64, Seq<u8>> {
    Map::new(|id: u64| map.contains_key(id), |id: u64| map[id]@)
}

/// Why sector ids and replica commitments cannot be paired, if they cannot:
/// one of them is missing, the commitments are no whole commitments, there
/// are not as many of one as of the other, or a commitment is all zero.
pub open spec fn public_replica_map_error(
    sector_ids: Option<&[u64]>,
    flattened_comm_rs: Option<&[u8]>,
) -> Option<ProofsError> {
    match (sector_ids, flattened_comm_rs) {
        (None, _) => Some(ProofsError::SectorIdsNull),
        (Some(_), None) => Some(ProofsError::CommRsNull),
        (Some(ids), Some(flat)) => if flat@.len() % 32 != 0 {
            Some(ProofsError::CommRsLength { len: flat.len() })
        } else if ids@.len() != flat@.len() / 32 {
            Some(
                ProofsError::ReplicaCountMismatch {
                    sector_ids: ids.len(),
                    comm_rs: (flat@.len() / 32) as usize,
                },
            )
        } else if chunks(flat@, 32).contains(zero_commitment()) {
            Some(ProofsError::ZeroCommitment)
        } else {
            None
        },
    }
}

/// Produce a map from sector id to replica commitment by pairing sector ids
/// and commitments by index in their arrays.
pub fn to_public_replica_info_map(
    sector_ids: Option<&[u64]>,
    flattened_comm_rs: Option<&[u8]>,
) -> (map: Result<BTreeMap<u64, [u8; 32]>, ProofsError>)
    ensures
        match map {
            Ok(m) => {
                &&& public_replica_map_error(sector_ids, flattened_comm_rs) is None
                &&& map_views(m@) == commitment_map(
                    sector_ids.unwrap()@,
                    chunks(flattened_comm_rs.unwrap()@, 32),
                )
            },
            Err(e) => public_replica_map_error(sector_ids, flattened_comm_rs) == Some(e),
        },
{
    let ids = match sector_ids {
        None => {
            return Err(ProofsError::SectorIdsNull);
        },
        Some(ids) => ids,
    };
    let flat = match flattened_comm_rs {
        None => {
            return Err(ProofsError::CommRsNull);
        },
        Some(flat) => flat,
    };
    if flat.len() % 32 != 0 {
        return Err(ProofsError::CommRsLength { len: flat.len() });
    }
    let comm_rs = into_commitments(flat);
    assert(commitment_views(comm_rs@) =~= chunks(flat@, 32));
    if ids.len() != comm_rs.len() {
        return Err(
            ProofsError::ReplicaCountMismatch { sector_ids: ids.len(), comm_rs: comm_rs.len() },
        );
    }
    pair_replicas(ids, &comm_rs)
}

/// Pairs sector ids and commitments by index, and stops at the first
/// commitment that is all zero.
fn pair_replicas(sector_ids: &[u64], comm_rs: &Vec<[u8; 32]>) -> (map: Result<
    BTreeMap<u64, [u8; 32]>,
    ProofsError,
>)
    requires
        sector_ids@.len() == comm_rs@.len(),
    ensures
        match map {
            Ok(m) => {
                &&& !commitment_views(comm_rs@).contains(zero_commitment())
                &&& map_views(m@) == commitment_map(sector_ids@, commitment_views(comm_rs@))
            },
            Err(e) => {
                &&& commitment_views(comm_rs@).contains(zero_commitment())
                &&& e == ProofsError::ZeroCommitment
            },
        },
{
    let mut m: BTreeMap<u64, [u8; 32]> = BTreeMap::new();
    let ghost views = commitment_views(comm_rs@);
    let mut i: usize = 0;
    assert(map_views(m@) =~= commitment_map(sector_ids@.take(0), views.take(0)));
    while i < sector_ids.len()
        invariant
            i <= sector_ids@.len(),
            sector_ids@.len() == comm_rs@.len(),
            views == commitment_views(comm_rs@),
            forall|k: int| 0 <= k < i ==> #[trigger] views[k] != zero_commitment(),
            map_views(m@) == commitment_map(sector_ids@.take(i as int), views.take(i as int)),
        decreases sector_ids@.len() - i,
    {
        if !replica_commitment_ok(&comm_rs[i]) {
            assert(views[i as int] == zero_commitment());
            return Err(ProofsError::ZeroCommitment);
        }
        let ghost before = m@;
        insert_replica(&mut m, sector_ids[i], comm_rs[i]);
        proof {
            let next = i as int + 1;
            assert(sector_ids@.take(next).drop_last() == sector_ids@.take(i as int));
            assert(views.take(next).drop_last() == views.take(i as int));
            assert(sector_ids@.take(next).last() == sector_ids@[i as int]);
            assert(views.take(next).last() == comm_rs@[i as int]@);
            assert(map_views(m@) =~= map_views(before).insert(
                sector_ids@[i as int],
                comm_rs@[i as int]@,
            ));
        }
        i = i + 1;
    }
    assert(sector_ids@.take(i as int) == sector_ids@);
    assert(views.take(i as int) == views);
    Ok(m)
}

/// Puts a pair into the map; a pair with the same sector id is replaced.
fn insert_replica(map: &mut BTreeMap<u64, [u8; 32]>, sector_id: u64, comm_r: [u8; 32])
    ensures
        final(map)@ == old(map)@.insert(sector_id, comm_r),
{
    broadcast use vstd::laws_cmp::group_laws_cmp;

    map.insert(sector_id, comm_r);
}

/// Cuts the flattened proofs into pieces of `proof_chunk` bytes, in order.
/// Refused: a missing buffer, pieces of no bytes, and a buffer that does not
/// hold whole pieces.
pub fn into_proof_vecs(proof_chunk: usize, flattened_proofs: Option<&[u8]>) -> (proofs: Result<
    Vec<Vec<u8>>,
    ProofsError,
>)
    ensures
        match proofs {
            Ok(pieces) => {
                &&& flattened_proofs matches Some(flat)
                &&& proof_chunk > 0
                &&& flat@.len() % (proof_chunk as nat) == 0
                &&& pieces@.len() == chunks(flat@, proof_chunk as int).len()
                &&& forall|i: int|
                    0 <= i < pieces@.len() ==> (#[trigger] pieces@[i])@ == chunks(
                        flat@,
                        proof_chunk as int,
                    )[i]
            },
            Err(e) => match flattened_proofs {
                None => e == ProofsError::ProofsNull,
                Some(flat) => if proof_chunk == 0 {
                    e == ProofsError::ZeroProofChunk
                } else {
                    &&& flat@.len() % (proof_chunk as nat) != 0
                    &&& e == (ProofsError::ProofsLength { len: flat.len(), chunk: proof_chunk })
                },
            },
        },
{
    let flat = match flattened_proofs {
        None => {
            return Err(ProofsError::ProofsNull);
        },
        Some(flat) => flat,
    };
    if proof_chunk == 0 {
        return Err(ProofsError::ZeroProofChunk);
    }
    let n = flat.len();
    if n % proof_chunk != 0 {
        return Err(ProofsError::ProofsLength { len: n, chunk: proof_chunk });
    }
    let mut pieces: Vec<Vec<u8>> = Vec::new();
    let mut start: usize = 0;
    proof {
        lemma_whole_chunks(n as int, proof_chunk as int);
        assert(0 * proof_chunk == 0) by (nonlinear_arith);
    }
    while start < n
        invariant
            n == flat@.len(),
            proof_chunk > 0,
            n % proof_chunk == 0,
            start <= n,
            start == pieces@.len() * proof_chunk,
            chunks(flat@, proof_chunk as int).len() * proof_chunk == n,
            forall|i: int|
                0 <= i < pieces@.len() ==> (#[trigger] pieces@[i])@ == chunks(
                    flat@,
                    proof_chunk as int,
                )[i],
        decreases n - start,
    {
        proof {
            lemma_next_chunk(n as int, proof_chunk as int, pieces@.len() as int);
        }
        let piece = slice_to_vec(slice_subrange(flat, start, start + proof_chunk));
        assert(piece@ == chunks(flat@, proof_chunk as int)[pieces@.len() as int]);
        pieces.push(piece);
        start = start + proof_chunk;
    }
    proof {
        lemma_all_chunks(n as int, proof_chunk as int, pieces@.len() as int);
    }
    Ok(pieces)
}

/// A length that is a multiple of the size is made of as many sizes as there
/// are pieces.
proof fn lemma_whole_chunks(len: int, size: int)
    requires
        size > 0,
        len >= 0,
        len % size == 0,
    ensures
        chunk_count(len, size) * size == len,
        chunk_count(len, size) >= 0,
{
    vstd::arithmetic::div_mod::lemma_fundamental_div_mod(len, size);
    vstd::arithmetic::div_mod::lemma_div_pos_is_pos(len, size);
    assert(size * (len / size) == (len / size) * size) by (nonlinear_arith);
}

/// Where `i` whole pieces end before the end of the buffer, piece `i` is a
/// whole piece as well.
proof fn lemma_next_chunk(len: int, size: int, i: int)
    requires
        size > 0,
        i >= 0,
        len % size == 0,
        i * size < len,
        chunk_count(len, size) * size == len,
    ensures
        (i + 1) * size == i * size + size,
        (i + 1) * size <= len,
        i < chunk_count(len, size),
{
    assert((i + 1) * size == i * size + size) by (nonlinear_arith);
    let c = chunk_count(len, size);
    assert(i < c) by (nonlinear_arith)
        requires
            i * size < c * size,
            size > 0,
    ;
    assert((i + 1) * size <= c * size) by (nonlinear_arith)
        requires
            i + 1 <= c,
            size > 0,
    ;
}

/// Where `i` whole pieces fill the buffer, they are all its pieces.
proof fn lemma_all_chunks(len: int, size: int, i: int)
    requires
        size > 0,
        i * size == len,
        chunk_count(len, size) * size == len,
    ensures
        i == chunk_count(len, size),
{
    let c = chunk_count(len, size);
    assert(i == c) by (nonlinear_arith)
        requires
            i * size == c * size,
            size > 0,
    ;
}

/// Copies the proof's bytes into a vector. Refused: a missing buffer and a
/// proof of no bytes.
pub fn try_into_porep_proof_bytes(porep_proof: Option<&[u8]>) -> (bytes: Result<
    Vec<u8>,
    ProofsError,
>)
    ensures
        match bytes {
            Ok(copy) => porep_proof matches Some(p) && p@.len() > 0 && copy@ == p@,
            Err(e) => match porep_proof {
                None => e == ProofsError::ProofsNull,
                Some(p) => p@.len() == 0 && e == ProofsError::ZeroProofChunk,
            },
        },
{
    let len = match porep_proof {
        None => 0,
        Some(p) => p.len(),
    };
    match into_proof_vecs(len, porep_proof) {
        Err(e) => {
            proof {
                if porep_proof is Some && len > 0 {
                    assert(len as nat % len as nat == 0) by (nonlinear_arith)
                        requires
                            len > 0,
                    ;
                }
            }
            Err(e)
        },
        Ok(mut pieces) => {
            assert(chunk_count(len as int, len as int) == 1) by (nonlinear_arith)
                requires
                    len > 0,
            ;
            assert(pieces@.len() == 1);
            assert(chunks(porep_proof.unwrap()@, len as int)[0] == porep_proof.unwrap()@);
            match pieces.pop() {
                Some(first) => Ok(first),
                None => Err(ProofsError::NoProofs),
            }
        },
    }
}

/// The number of partitions used to create the given proof: its length
/// divided by the length of one partition. Refused: a length that is no
/// multiple of the length of one partition, and one that tells of more than
/// 255 partitions, which no sector class can name.
pub fn porep_proof_partitions_try_from_bytes(porep_proof: &[u8]) -> (partitions: Result<
    u8,
    ProofsError,
>)
    ensures
        match partitions {
            Ok(count) => {
                &&& porep_proof@.len() % 192 == 0
                &&& porep_proof@.len() / 192 <= 255
                &&& count == porep_proof@.len() / 192
            },
            Err(e) => {
                &&& porep_proof@.len() % 192 != 0 || porep_proof@.len() / 192 > 255
                &&& e == (ProofsError::NoPartitions { len: porep_proof.len() })
            },
        },
{
    let n = porep_proof.len();
    let single = single_partition_proof_len();
    if n % single != 0 || n / single > 255 {
        return Err(ProofsError::NoPartitions { len: n });
    }
    Ok((n / single) as u8)
}

/// Cuts the flattened proofs into pieces of the length of one partition, in
/// order; the last piece holds what is left. Refused: a missing buffer.
pub fn c_to_rust_proofs(flattened_proofs: Option<&[u8]>) -> (proofs: Result<
    Vec<Vec<u8>>,
    ProofsError,
>)
    ensures
        match proofs {
            Ok(pieces) => {
                &&& flattened_proofs matches Some(flat)
                &&& pieces@.len() == chunks(flat@, 192).len()
                &&& forall|i: int|
                    0 <= i < pieces@.len() ==> (#[trigger] pieces@[i])@ == chunks(flat@, 192)[i]
            },
            Err(e) => flattened_proofs is None && e == ProofsError::FlattenedProofNull,
        },
{
    let flat = match flattened_proofs {
        None => {
            return Err(ProofsError::FlattenedProofNull);
        },
        Some(flat) => flat,
    };
    let n = flat.len();
    let single = single_partition_proof_len();
    let mut pieces: Vec<Vec<u8>> = Vec::new();
    let mut start: usize = 0;
    while start < n
        invariant
            n == flat@.len(),
            single == 192,
            start <= n,
            start == pieces@.len() * 192 || start == n,
            start == n ==> pieces@.len() == chunks(flat@, 192).len(),
            pieces@.len() <= chunks(flat@, 192).len(),
            forall|i: int|
                0 <= i < pieces@.len() ==> (#[trigger] pieces@[i])@ == chunks(flat@, 192)[i],
        decreases n - start,
    {
        let end = if n - start < single {
            n
        } else {
            start + single
        };
        let piece = slice_to_vec(slice_subrange(flat, start, end));
        assert(piece@ == chunks(flat@, 192)[pieces@.len() as int]);
        pieces.push(piece);
        start = end;
    }
    Ok(pieces)
}

/// The encoding of a field element: thirty-two bytes, the first counting
/// least.
pub fn bls_12_fr_into_bytes(fr: Scalar) -> (commitment: [u8; 32])
    ensures
        commitment@ == scalar_encoding(fr),
        is_fr_encoding(commitment@),
{
    let bytes = fr_to_bytes(&fr);
    let mut commitment = [0u8; 32];
    let mut i: usize = 0;
    while i < 32
        invariant
            i <= 32,
            bytes@.len() == 32,
            forall|k: int| 0 <= k < i ==> commitment@[k] == bytes@[k],
        decreases 32 - i,
    {
        commitment[i] = bytes[i];
        i = i + 1;
    }
    assert(commitment@ == bytes@);
    commitment
}

/// The field element that the bytes encode; none where they encode none.
/// What `bls_12_fr_into_bytes` makes of the element is these bytes again.
pub fn bls_12_fr_from_bytes(bytes: &[u8; 32]) -> (fr: Option<Scalar>)
    ensures
        fr is Some <==> is_fr_encoding(bytes@),
        fr matches Some(element) ==> scalar_encoding(element) == bytes@,
{
    fr_from_bytes(bytes)
}

/// The candidate that comes of looking at a caller's candidate: the same
/// values, with the partial ticket known to be a field element.
pub open spec fn is_candidate_of(candidate: Candidate, given: FFICandidate) -> bool {
    &&& candidate.wf()
    &&& candidate.sector_id == given.sector_id
    &&& candidate.partial_ticket == given.partial_ticket
    &&& candidate.ticket == given.ticket
    &&& candidate.sector_challenge_index == given.sector_challenge_index
}

/// Every candidate of the list comes of the caller's candidate at its place.
pub open spec fn are_candidates_of(list: Seq<Candidate>, given: Seq<FFICandidate>) -> bool {
    &&& list.len() == given.len()
    &&& forall|i: int| 0 <= i < list.len() ==> is_candidate_of(#[trigger] list[i], given[i])
}

/// Every partial ticket is the encoding of a field element.
pub open spec fn all_partial_tickets_valid(given: Seq<FFICandidate>) -> bool {
    forall|i: int| 0 <= i < given.len() ==> is_fr_encoding((#[trigger] given[i]).partial_ticket@)
}

/// Looks at each candidate, in order, and hands them on where every partial
/// ticket is the encoding of a field element. Refused: a missing array, and an
/// array with a partial ticket that is none.
pub fn c_to_rust_candidates(winners: Option<&[FFICandidate]>) -> (candidates: Result<
    Vec<Candidate>,
    ProofsError,
>)
    ensures
        winners is None ==> (candidates matches Err(e) && e == ProofsError::WinnersNull),
        winners matches Some(given) ==> (candidates is Ok <==> all_partial_tickets_valid(given@)),
        winners matches Some(given) ==> (candidates matches Ok(list) ==> are_candidates_of(
            list@,
            given@,
        )),
        winners matches Some(given) ==> (candidates matches Err(e) ==> e
            == ProofsError::BadFrBytes),
{
    match winners {
        None => Err(ProofsError::WinnersNull),
        Some(given) => into_candidates(given),
    }
}

/// Looks at each candidate, in order, and stops at the first whose partial
/// ticket is no field element.
fn into_candidates(given: &[FFICandidate]) -> (candidates: Result<Vec<Candidate>, ProofsError>)
    ensures
        candidates is Ok <==> all_partial_tickets_valid(given@),
        candidates matches Ok(list) ==> are_candidates_of(list@, given@),
        candidates matches Err(e) ==> e == ProofsError::BadFrBytes,
{
    let mut list: Vec<Candidate> = Vec::new();
    let mut i: usize = 0;
    while i < given.len()
        invariant
            i <= given@.len(),
            are_candidates_of(list@, given@.take(i as int)),
        decreases given@.len() - i,
    {
        let winner = FFICandidate {
            sector_id: given[i].sector_id,
            partial_ticket: given[i].partial_ticket,
            ticket: given[i].ticket,
            sector_challenge_index: given[i].sector_challenge_index,
        };
        match winner.try_into_candidate() {
            Ok(candidate) => {
                list.push(candidate);
            },
            Err(e) => {
                assert(!is_fr_encoding(given@[i as int].partial_ticket@));
                return Err(e);
            },
        }
        i = i + 1;
    }
    assert(given@.take(i as int) == given@);
    assert forall|k: int| 0 <= k < given@.len() implies is_fr_encoding(
        (#[trigger] given@[k]).partial_ticket@,
    ) by {
        assert(is_candidate_of(list@[k], given@[k]));
    }
    Ok(list)
}

} // verus!
