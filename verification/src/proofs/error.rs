//! Why an operation is refused or fails.
use vstd::prelude::*;

verus! {

/// The classes of failure.
#[derive(Clone, Copy, Debug, PartialEq, Eq, Structural)]
pub enum ErrorKind {
    /// A malformed encoding: a missing buffer, a wrong length, bytes that do
    /// not decode.
    Decode,
    /// An offset or a length outside the valid bounds.
    Range,
    /// A fault of the proof engine, or of its input and output, while sealing.
    Seal,
    /// A fault of the proof engine while proving or verifying.
    Proof,
    /// An unexpected fault inside an operation.
    InternalFault,
}

/// Why an operation was refused or failed.
#[derive(Debug)]
pub enum ProofsError {
    /// The array of sector ids is missing.
    SectorIdsNull,
    /// The buffer of replica commitments is missing.
    CommRsNull,
    /// The buffer of replica commitments does not hold whole commitments.
    CommRsLength { len: usize },
    /// There are not as many sector ids as replica commitments.
    ReplicaCountMismatch { sector_ids: usize, comm_rs: usize },
    /// A replica commitment is all zero.
    ZeroCommitment,
    /// The buffer of proofs is missing.
    ProofsNull,
    /// The buffer of the proofs of a proof of spacetime is missing.
    FlattenedProofNull,
    /// Proofs were to be cut into pieces of no bytes.
    ZeroProofChunk,
    /// The buffer of proofs does not hold whole proofs.
    ProofsLength { len: usize, chunk: usize },
    /// Cutting the proofs gave no piece.
    NoProofs,
    /// The proof's length tells of no number of partitions: it is no
    /// multiple of the length of one partition, or it is that of more
    /// partitions than a sector class can name.
    NoPartitions { len: usize },
    /// The array of candidates is missing.
    WinnersNull,
    /// A partial ticket is no field element.
    BadFrBytes,
    /// The array of replicas is missing.
    ReplicasNull,
    /// The range goes beyond what the sector can hold.
    Range { offset: u64, length: u64, capacity: u64 },
    /// The source does not hold as many bytes as announced.
    SourceLength { announced: u64, len: usize },
    /// The piece does not fill the bytes that it takes in a sector: it is
    /// none of 127, 254, 508 bytes and so on.
    PieceSize { size: u64 },
    /// The sizes are beyond what can be summed up.
    SizesTooLarge,
    /// The pieces together are larger than their sector.
    PiecesTooLarge,
    /// The proof engine failed while sealing or writing; the text is its own.
    Seal(String),
    /// The proof engine failed while proving or verifying; the text is its own.
    Proof(String),
    /// An operation met a state that it should never meet.
    Fault,
}

/// A digit as a character.
pub open spec fn digit(d: u64) -> char {
    ((48 + d % 10) as u8) as char
}

/// A number in decimal digits, with no zero in front.
pub open spec fn decimal(n: u64) -> Seq<char>
    decreases n,
{
    if n < 10 {
        seq![digit(n)]
    } else {
        decimal(n / 10).push(digit(n % 10))
    }
}

/// The formatting of a number for display. Trusted: it gives the decimal
/// digits of the number, with no zero in front.
#[verifier::external_body]
fn decimal_text(n: u64) -> (text: String)
    ensures
        text@ == decimal(n),
{
    format!("{}", n)
}

/// `String::push_str`. Trusted: it puts the second text behind the first.
#[verifier::external_body]
fn append(text: &mut String, more: &str)
    ensures
        final(text)@ == old(text)@ + more@,
{
    text.push_str(more);
}

/// The text of an error of the proof engine: the engine's own, and a text
/// that says so where the engine gave none.
pub open spec fn engine_text(text: Seq<char>) -> Seq<char> {
    if text.len() == 0 {
        "the proof engine gave no reason"@
    } else {
        text
    }
}

impl ProofsError {
    /// The class that the error falls into.
    pub open spec fn kind_spec(self) -> ErrorKind {
        match self {
            ProofsError::Range { .. } => ErrorKind::Range,
            ProofsError::Seal(_) => ErrorKind::Seal,
            ProofsError::Proof(_) => ErrorKind::Proof,
            ProofsError::NoProofs | ProofsError::Fault => ErrorKind::InternalFault,
            _ => ErrorKind::Decode,
        }
    }

    /// The text that describes the error.
    pub open spec fn message_spec(self) -> Seq<char> {
        match self {
            ProofsError::SectorIdsNull => "sector_ids_ptr must not be null"@,
            ProofsError::CommRsNull => "flattened_comm_rs_ptr must not be null"@,
            ProofsError::CommRsLength { .. } => "flattened_comm_rs must hold whole commitments"@,
            ProofsError::ReplicaCountMismatch { sector_ids, comm_rs } =>
                "must provide equal number of sector ids and replica commitments (sector_ids.len="@
                    + decimal(sector_ids as u64) + ", comm_rs.len()="@ + decimal(comm_rs as u64)
                    + ")"@,
            ProofsError::ZeroCommitment => "Invalid all zero commitment (comm_r)"@,
            ProofsError::ProofsNull => "flattened_proofs_ptr must not be a null pointer"@,
            ProofsError::FlattenedProofNull => "flattened_proof_ptr must not be null"@,
            ProofsError::ZeroProofChunk => "Invalid proof chunk of 0 passed"@,
            ProofsError::ProofsLength { .. } => "flattened_proofs must hold whole proofs"@,
            ProofsError::NoProofs => "no proofs in chunked vec"@,
            ProofsError::NoPartitions { len } =>
                "no PoRepProofPartitions mapping for a proof of "@ + decimal(len as u64)
                    + " bytes"@,
            ProofsError::WinnersNull => "winners_ptr must not be null"@,
            ProofsError::BadFrBytes => "Bytes could not be converted to Fr"@,
            ProofsError::ReplicasNull => "replicas_ptr must not be null"@,
            ProofsError::Range { .. } => "range lies outside the sector"@,
            ProofsError::SourceLength { .. } => "source does not hold the announced bytes"@,
            ProofsError::PieceSize { .. } => "piece must hold 127 bytes times a power of two"@,
            ProofsError::SizesTooLarge => "sizes are too large to be summed"@,
            ProofsError::PiecesTooLarge => "Piece is larger than sector."@,
            ProofsError::Seal(text) => engine_text(text@),
            ProofsError::Proof(text) => engine_text(text@),
            ProofsError::Fault => "Rust panic: no unwind information"@,
        }
    }

    /// The class that the error falls into.
    pub fn kind(&self) -> (kind: ErrorKind)
        ensures
            kind == self.kind_spec(),
    {
        match self {
            ProofsError::Range { .. } => ErrorKind::Range,
            ProofsError::Seal(_) => ErrorKind::Seal,
            ProofsError::Proof(_) => ErrorKind::Proof,
            ProofsError::NoProofs => ErrorKind::InternalFault,
            ProofsError::Fault => ErrorKind::InternalFault,
            _ => ErrorKind::Decode,
        }
    }

    /// The text that describes the error.
    pub fn message(&self) -> (text: String)
        ensures
            text@ == self.message_spec(),
            text@.len() > 0,
    {
        proof {
            errors_have_a_message(*self);
        }
        match self {
            ProofsError::SectorIdsNull => "sector_ids_ptr must not be null".to_owned(),
            ProofsError::CommRsNull => "flattened_comm_rs_ptr must not be null".to_owned(),
            ProofsError::CommRsLength { .. } =>
                "flattened_comm_rs must hold whole commitments".to_owned(),
            ProofsError::ReplicaCountMismatch { sector_ids, comm_rs } => {
                let mut text =
                    "must provide equal number of sector ids and replica commitments (sector_ids.len=".to_owned();
                append(&mut text, decimal_text(*sector_ids as u64).as_str());
                append(&mut text, ", comm_rs.len()=");
                append(&mut text, decimal_text(*comm_rs as u64).as_str());
                append(&mut text, ")");
                text
            },
            ProofsError::ZeroCommitment => "Invalid all zero commitment (comm_r)".to_owned(),
            ProofsError::ProofsNull => "flattened_proofs_ptr must not be a null pointer".to_owned(),
            ProofsError::FlattenedProofNull => "flattened_proof_ptr must not be null".to_owned(),
            ProofsError::ZeroProofChunk => "Invalid proof chunk of 0 passed".to_owned(),
            ProofsError::ProofsLength { .. } =>
                "flattened_proofs must hold whole proofs".to_owned(),
            ProofsError::NoProofs => "no proofs in chunked vec".to_owned(),
            ProofsError::NoPartitions { len } => {
                let mut text = "no PoRepProofPartitions mapping for a proof of ".to_owned();
                append(&mut text, decimal_text(*len as u64).as_str());
                append(&mut text, " bytes");
                text
            },
            ProofsError::WinnersNull => "winners_ptr must not be null".to_owned(),
            ProofsError::BadFrBytes => "Bytes could not be converted to Fr".to_owned(),
            ProofsError::ReplicasNull => "replicas_ptr must not be null".to_owned(),
            ProofsError::Range { .. } => "range lies outside the sector".to_owned(),
            ProofsError::SourceLength { .. } =>
                "source does not hold the announced bytes".to_owned(),
            ProofsError::PieceSize { .. } =>
                "piece must hold 127 bytes times a power of two".to_owned(),
            ProofsError::SizesTooLarge => "sizes are too large to be summed".to_owned(),
            ProofsError::PiecesTooLarge => "Piece is larger than sector.".to_owned(),
            ProofsError::Seal(text) => if text.as_str().is_empty() {
                "the proof engine gave no reason".to_owned()
            } else {
                text.clone()
            },
            ProofsError::Proof(text) => if text.as_str().is_empty() {
                "the proof engine gave no reason".to_owned()
            } else {
                text.clone()
            },
            ProofsError::Fault => "Rust panic: no unwind information".to_owned(),
        }
    }
}

/// Every error has a text of at least one character.
pub proof fn errors_have_a_message(error: ProofsError)
    ensures
        error.message_spec().len() > 0,
{
    reveal_strlit("the proof engine gave no reason");
    reveal_strlit("flattened_proof_ptr must not be null");
    reveal_strlit("piece must hold 127 bytes times a power of two");
    reveal_strlit("sector_ids_ptr must not be null");
    reveal_strlit("flattened_comm_rs_ptr must not be null");
    reveal_strlit("flattened_comm_rs must hold whole commitments");
    reveal_strlit(
        "must provide equal number of sector ids and replica commitments (sector_ids.len=",
    );
    reveal_strlit("Invalid all zero commitment (comm_r)");
    reveal_strlit("flattened_proofs_ptr must not be a null pointer");
    reveal_strlit("Invalid proof chunk of 0 passed");
    reveal_strlit("flattened_proofs must hold whole proofs");
    reveal_strlit("no proofs in chunked vec");
    reveal_strlit("no PoRepProofPartitions mapping for a proof of ");
    reveal_strlit("winners_ptr must not be null");
    reveal_strlit("Bytes could not be converted to Fr");
    reveal_strlit("replicas_ptr must not be null");
    reveal_strlit("range lies outside the sector");
    reveal_strlit("source does not hold the announced bytes");
    reveal_strlit("sizes are too large to be summed");
    reveal_strlit("Piece is larger than sector.");
    reveal_strlit("Rust panic: no unwind information");
}

} // verus!
