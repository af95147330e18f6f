//! The calls into the proof engine that work on bytes alone, and the names
//! of what it computes.
use crate::field::is_fr_encoding;
use crate::proofs::types::{zero_commitment, FFIPublicPieceInfo};
use blstrs::Scalar;
use filecoin_proofs::{PieceInfo, PublicReplicaInfo, SectorSize, UnpaddedBytesAmount};
use vstd::prelude::*;

verus! {

/// An element of the scalar field of BLS12-381, as the proof engine holds it.
#[verifier::external_type_specification]
#[verifier::external_body]
pub struct ExScalar(Scalar);

/// The largest sector size that is handed to the proof engine. Up to here its
/// arithmetic on sizes neither overflows nor loses bits.
pub const MAX_SECTOR_SIZE: u64 = 0x4_0000_0000_0000;

/// How many bytes of user data fit into `padded` bytes of a sector: of every
/// 256 bits, 254 carry data.
pub open spec fn unpadded_bytes(padded: u64) -> int {
    (padded * 8 / 256 * 254 + padded * 8 % 256) / 8
}

/// The largest budget within which the proof engine sums lengths up: below
/// it no sum of aligned lengths overflows, nor does a length counted in bits.
pub const MAX_ALIGNMENT_BUDGET: u64 = 0x1000_0000_0000_0000;

/// A number is a power of two.
pub open spec fn is_power_of_two(n: nat) -> bool
    decreases n,
{
    n == 1 || (n > 1 && n % 2 == 0 && is_power_of_two(n / 2))
}

/// An upper bound on the bytes that pieces of the given lengths take once
/// each is aligned: a piece takes less than four times its length, and less
/// than four times 127 where it is shorter than that.
pub open spec fn alignment_budget(lengths: Seq<u64>) -> int
    decreases lengths.len(),
{
    if lengths.len() == 0 {
        0
    } else {
        let last = lengths.last();
        alignment_budget(lengths.drop_last()) + 4 * (if last < 127 {
            127
        } else {
            last as int
        })
    }
}

/// The smallest of `candidate`, twice `candidate`, four times `candidate`
/// and so on that is no smaller than `piece`.
pub open spec fn needed_from(candidate: int, piece: int) -> int
    decreases
        (if piece > candidate {
            piece - candidate
        } else {
            0
        }),
{
    if candidate >= piece || candidate <= 0 {
        candidate
    } else {
        needed_from(2 * candidate, piece)
    }
}

/// The bytes that a piece takes in a sector: the smallest of 127, 254, 508
/// and so on that is no smaller than the piece.
pub open spec fn piece_bytes_needed(piece: u64) -> int {
    needed_from(127, piece as int)
}

/// The zero bytes before a piece that follows `written` bytes: the gap from
/// there to the next multiple of the bytes that the piece takes.
pub open spec fn left_alignment(written: int, piece: u64) -> int {
    let needed = piece_bytes_needed(piece);
    if written % needed > 0 {
        needed - written % needed
    } else {
        0
    }
}

/// The zero bytes after a piece: what it leaves of the bytes that it takes.
pub open spec fn right_alignment(piece: u64) -> int {
    piece_bytes_needed(piece) - piece
}

/// The bytes that a piece takes with its alignment when it follows `written`
/// bytes.
pub open spec fn aligned_piece_bytes(written: int, piece: u64) -> int {
    left_alignment(written, piece) + piece + right_alignment(piece)
}

/// The bytes that pieces of the given lengths take, each with its alignment,
/// one after the other.
pub open spec fn aligned_total(lengths: Seq<u64>) -> int
    decreases lengths.len(),
{
    if lengths.len() == 0 {
        0
    } else {
        let before = aligned_total(lengths.drop_last());
        before + aligned_piece_bytes(before, lengths.last())
    }
}

/// The sizes of the pieces, in order.
pub open spec fn piece_sizes(pieces: Seq<FFIPublicPieceInfo>) -> Seq<u64> {
    pieces.map_values(|piece: FFIPublicPieceInfo| piece.num_bytes)
}

/// The commitments of the pieces, in order.
pub open spec fn piece_commitments(pieces: Seq<FFIPublicPieceInfo>) -> Seq<Seq<u8>> {
    pieces.map_values(|piece: FFIPublicPieceInfo| piece.comm_p@)
}

/// The sum of the given sizes.
pub open spec fn total_size(sizes: Seq<u64>) -> int
    decreases sizes.len(),
{
    if sizes.len() == 0 {
        0
    } else {
        total_size(sizes.drop_last()) + sizes.last()
    }
}

/// The encoding of a field element: thirty-two bytes, the first counting
/// least.
pub uninterp spec fn scalar_encoding(fr: Scalar) -> Seq<u8>;

/// What writing a piece gives, where it succeeds: the bytes that are appended
/// to the target, and the piece's commitment. It depends on the bytes of the
/// piece and on the lengths of the pieces written before it.
pub uninterp spec fn piece_write(source: Seq<u8>, piece_lengths: Seq<u64>) -> Option<
    (Seq<u8>, Seq<u8>),
>;

/// The commitment to the data of a sector of the given size that holds pieces
/// of the given sizes and commitments, where there is one.
pub uninterp spec fn data_commitment_of(
    sector_size: u64,
    sizes: Seq<u64>,
    commitments: Seq<Seq<u8>>,
) -> Option<Seq<u8>>;

/// `fr32::bytes_into_fr`, without the text of its error. Trusted: it takes
/// thirty-two bytes that spell, the first byte counting least, a number below
/// the order of the field, and nothing else; the element that it gives is the
/// one that these bytes encode.
#[verifier::external_body]
pub(crate) fn fr_from_bytes(bytes: &[u8; 32]) -> (fr: Option<Scalar>)
    ensures
        fr is Some <==> is_fr_encoding(bytes@),
        fr matches Some(element) ==> scalar_encoding(element) == bytes@,
{
    fr32::bytes_into_fr(bytes).ok()
}

/// `fr32::fr_into_bytes`. Trusted: what comes out is the encoding of the
/// field element, thirty-two bytes that spell a number below the order of the
/// field.
#[verifier::external_body]
pub(crate) fn fr_to_bytes(fr: &Scalar) -> (bytes: Vec<u8>)
    ensures
        bytes@ == scalar_encoding(*fr),
        is_fr_encoding(bytes@),
{
    fr32::fr_into_bytes(fr)
}

/// `PublicReplicaInfo::new`, asked only whether it succeeds. Trusted: it
/// refuses the commitment of thirty-two zero bytes and no other.
#[verifier::external_body]
pub(crate) fn replica_commitment_ok(comm_r: &[u8; 32]) -> (ok: bool)
    ensures
        ok == (comm_r@ != zero_commitment()),
{
    PublicReplicaInfo::new(*comm_r).is_ok()
}

/// `filecoin_proofs::SINGLE_PARTITION_PROOF_LEN`: the length of the seal
/// proof of one partition. Trusted: it is 192.
#[verifier::external_body]
pub(crate) fn single_partition_proof_len() -> (len: usize)
    ensures
        len == 192,
{
    filecoin_proofs::SINGLE_PARTITION_PROOF_LEN
}

/// The conversion of a `SectorSize` into an `UnpaddedBytesAmount`. Trusted:
/// of every 256 bits of the sector 254 carry data, and a last incomplete byte
/// is dropped. Beyond the largest sector size the conversion's arithmetic is
/// no longer exact.
#[verifier::external_body]
pub(crate) fn unpadded_capacity(sector_size: u64) -> (capacity: u64)
    requires
        sector_size <= MAX_SECTOR_SIZE,
    ensures
        capacity == unpadded_bytes(sector_size),
{
    u64::from(UnpaddedBytesAmount::from(SectorSize(sector_size)))
}

/// `filecoin_proofs::add_piece` from a buffer into a growing buffer. Trusted:
/// the target only grows; whether the write succeeds, what is appended and
/// the commitment are functions of the piece and of the earlier lengths; the
/// bytes taken are those of the piece and of its alignment after the earlier
/// pieces, each with its own. The engine sums the lengths up and counts them
/// in bits without a check, so they must stay within the budget.
#[verifier::external_body]
pub(crate) fn add_piece_to(source: &[u8], target: &mut Vec<u8>, piece_lengths: &[u64]) -> (outcome:
    Result<(u64, [u8; 32]), String>)
    requires
        alignment_budget(piece_lengths@.push(source@.len() as u64)) <= MAX_ALIGNMENT_BUDGET,
    ensures
        old(target)@.is_prefix_of(final(target)@),
        match outcome {
            Ok((written, comm_p)) => {
                &&& piece_write(source@, piece_lengths@) == Some(
                    (final(target)@.skip(old(target)@.len() as int), comm_p@),
                )
                &&& written == aligned_piece_bytes(
                    aligned_total(piece_lengths@),
                    source@.len() as u64,
                )
            },
            Err(_) => piece_write(source@, piece_lengths@) is None,
        },
{
    let lengths: Vec<UnpaddedBytesAmount> =
        piece_lengths.iter().map(|length| UnpaddedBytesAmount(*length)).collect();
    filecoin_proofs::add_piece(source, target, UnpaddedBytesAmount(source.len() as u64), &lengths)
        .map(|(info, written)| (u64::from(written), info.commitment))
        .map_err(|err| format!("{:?}", err))
}

/// `filecoin_proofs::write_and_preprocess` from a buffer into a growing
/// buffer. Trusted: it is `add_piece` with no earlier piece, so that no zero
/// bytes stand before the piece.
#[verifier::external_body]
pub(crate) fn write_piece_to(source: &[u8], target: &mut Vec<u8>) -> (outcome: Result<
    (u64, [u8; 32]),
    String,
>)
    requires
        alignment_budget(seq![source@.len() as u64]) <= MAX_ALIGNMENT_BUDGET,
    ensures
        old(target)@.is_prefix_of(final(target)@),
        match outcome {
            Ok((written, comm_p)) => {
                &&& piece_write(source@, Seq::<u64>::empty()) == Some(
                    (final(target)@.skip(old(target)@.len() as int), comm_p@),
                )
                &&& written == aligned_piece_bytes(0, source@.len() as u64)
            },
            Err(_) => piece_write(source@, Seq::<u64>::empty()) is None,
        },
{
    filecoin_proofs::write_and_preprocess(source, target, UnpaddedBytesAmount(source.len() as u64))
        .map(|(info, written)| (u64::from(written), info.commitment))
        .map_err(|err| format!("{:?}", err))
}

/// `filecoin_proofs::compute_comm_d`. Trusted: whether there is a commitment,
/// and which, is a function of the sector size and of the pieces. The engine
/// sums the sizes up without a check, so the sector must not be larger than
/// the largest sector size, nor the pieces together larger than the sector.
/// Without a piece it hashes a sector of zeros and panics unless they fill a
/// binary tree, so the sector size must then be a power of two, 128 at least.
#[verifier::external_body]
pub(crate) fn data_commitment(sector_size: u64, pieces: &[FFIPublicPieceInfo]) -> (outcome: Result<
    [u8; 32],
    String,
>)
    requires
        sector_size <= MAX_SECTOR_SIZE,
        total_size(piece_sizes(pieces@)) <= sector_size,
        pieces@.len() == 0 ==> sector_size >= 128 && is_power_of_two(sector_size as nat),
    ensures
        match outcome {
            Ok(comm_d) => data_commitment_of(
                sector_size,
                piece_sizes(pieces@),
                piece_commitments(pieces@),
            ) == Some(comm_d@),
            Err(_) => data_commitment_of(
                sector_size,
                piece_sizes(pieces@),
                piece_commitments(pieces@),
            ) is None,
        },
{
    let infos: Vec<PieceInfo> = pieces.iter().map(|piece| {
        PieceInfo { commitment: piece.comm_p, size: UnpaddedBytesAmount(piece.num_bytes) }
    }).collect();
    filecoin_proofs::compute_comm_d(SectorSize(sector_size), &infos)
        .map_err(|err| format!("{:?}", err))
}

} // verus!
