//! Buffers that hold one fixed-size record after the other.
use vstd::prelude::*;

verus! {

/// Number of pieces that `len` bytes fall into when they are cut every `size`
/// bytes. The last piece may be shorter than `size`.
pub open spec fn chunk_count(len: int, size: int) -> int {
    if len % size == 0 {
        len / size
    } else {
        len / size + 1
    }
}

/// The `i`-th piece of `s` when it is cut every `size` bytes.
pub open spec fn chunk(s: Seq<u8>, size: int, i: int) -> Seq<u8> {
    let end = if (i + 1) * size <= s.len() {
        (i + 1) * size
    } else {
        s.len() as int
    };
    s.subrange(i * size, end)
}

/// `s` cut every `size` bytes, in order. Every piece but the last has `size`
/// bytes; the last holds what is left, at least one byte.
pub open spec fn chunks(s: Seq<u8>, size: int) -> Seq<Seq<u8>> {
    Seq::new(chunk_count(s.len() as int, size) as nat, |i: int| chunk(s, size, i))
}

} // verus!
