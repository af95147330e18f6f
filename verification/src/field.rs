//! The scalar field of BLS12-381, as far as encodings go.
use vstd::prelude::*;

verus! {

/// The number that the bytes spell, the first byte counting least.
pub open spec fn le_value(bytes: Seq<u8>) -> nat
    decreases bytes.len(),
{
    if bytes.len() == 0 {
        0
    } else {
        bytes[0] as nat + 256 * le_value(bytes.drop_first())
    }
}

/// The order of the scalar field of BLS12-381.
pub open spec fn fr_modulus() -> nat {
    0x73eda753299d7d483339d80809a1d80553bda402fffe5bfeffffffff00000001nat
}

/// The bytes are the encoding of an element of the scalar field: thirty-two
/// bytes that spell a number below the order of the field.
pub open spec fn is_fr_encoding(bytes: Seq<u8>) -> bool {
    bytes.len() == 32 && le_value(bytes) < fr_modulus()
}

} // verus!
