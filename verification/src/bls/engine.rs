//! The calls into the signature engine, and the names of what it computes.
use crate::field::is_fr_encoding;
use bls_signatures::groupy::{CurveAffine, CurveProjective, EncodedPoint};
use bls_signatures::paired::bls12_381::{G2Compressed, G2};
use bls_signatures::{PrivateKey, PublicKey, Serialize, Signature};
use rand::rngs::OsRng;
use vstd::multiset::Multiset;
use vstd::prelude::*;

verus! {

/// The compressed point that a message hashes to.
pub uninterp spec fn digest_of(message: Seq<u8>) -> Seq<u8>;

/// Whether the bytes are the encoding of a signature.
pub uninterp spec fn valid_signature(raw: Seq<u8>) -> bool;

/// Whether the bytes are the encoding of a digest, a point of the group that
/// messages hash into.
pub uninterp spec fn valid_digest(raw: Seq<u8>) -> bool;

/// Whether the bytes are the encoding of a public key.
pub uninterp spec fn valid_public_key(raw: Seq<u8>) -> bool;

/// Whether the bytes are the encoding of a private key: a scalar of the
/// field, thirty-two bytes that spell a number below its order.
pub open spec fn valid_private_key(raw: Seq<u8>) -> bool {
    is_fr_encoding(raw)
}

/// The encoding of the sum of the signatures with the given encodings. A sum
/// of group elements does not depend on their order, so it is taken over a
/// multiset.
pub uninterp spec fn signature_sum(signatures: Multiset<Seq<u8>>) -> Seq<u8>;

/// Whether the pairing of the generator with the signature equals the product
/// of the pairings of each public key with its digest.
pub uninterp spec fn pairing_equation_holds(
    signature: Seq<u8>,
    digests: Seq<Seq<u8>>,
    public_keys: Seq<Seq<u8>>,
) -> bool;

/// The encoding of the signature of a message under a private key.
pub uninterp spec fn signature_of(private_key: Seq<u8>, message: Seq<u8>) -> Seq<u8>;

/// The encoding of the public key that belongs to a private key.
pub uninterp spec fn public_key_of(private_key: Seq<u8>) -> Seq<u8>;

/// Every piece is the encoding of a signature.
pub open spec fn all_valid_signatures(pieces: Seq<Seq<u8>>) -> bool {
    forall|i: int| 0 <= i < pieces.len() ==> valid_signature(#[trigger] pieces[i])
}

/// Every piece is the encoding of a digest.
pub open spec fn all_valid_digests(pieces: Seq<Seq<u8>>) -> bool {
    forall|i: int| 0 <= i < pieces.len() ==> valid_digest(#[trigger] pieces[i])
}

/// Every piece is the encoding of a public key.
pub open spec fn all_valid_public_keys(pieces: Seq<Seq<u8>>) -> bool {
    forall|i: int| 0 <= i < pieces.len() ==> valid_public_key(#[trigger] pieces[i])
}

/// Pieces of 96 bytes as byte sequences.
pub open spec fn views_96(pieces: Seq<[u8; 96]>) -> Seq<Seq<u8>> {
    pieces.map_values(|piece: [u8; 96]| piece@)
}

/// Pieces of 48 bytes as byte sequences.
pub open spec fn views_48(pieces: Seq<[u8; 48]>) -> Seq<Seq<u8>> {
    pieces.map_values(|piece: [u8; 48]| piece@)
}

/// What holds of the signature of a message under a private key: it is the
/// named signature and decodes, the digest of the message and the public key
/// of the private key decode, and the pairing equation holds of the three.
/// The signature is the message's point times the key and the public key is
/// the generator times the key, so that, the pairing being bilinear, the
/// pairing of the generator with the signature is that of the public key with
/// the message's point.
pub open spec fn signed_by(signature: Seq<u8>, private_key: Seq<u8>, message: Seq<u8>) -> bool {
    &&& signature == signature_of(private_key, message)
    &&& valid_signature(signature)
    &&& digest_of(message).len() == 96
    &&& valid_digest(digest_of(message))
    &&& public_key_of(private_key).len() == 48
    &&& valid_public_key(public_key_of(private_key))
    &&& pairing_equation_holds(
        signature,
        seq![digest_of(message)],
        seq![public_key_of(private_key)],
    )
}

/// What holds of the sum of the given signatures: against digests and public
/// keys of which each pair satisfies the pairing equation with one of the
/// signatures, in whatever order the signatures stand, the sum satisfies it
/// with all of them. The pairing of the generator with a sum is the product
/// of its pairings with the summands.
pub open spec fn sum_satisfies(sum: Seq<u8>, signatures: Seq<Seq<u8>>) -> bool {
    forall|ordered: Seq<Seq<u8>>, digests: Seq<Seq<u8>>, public_keys: Seq<Seq<u8>>|
        #![trigger ordered.to_multiset(), pairing_equation_holds(sum, digests, public_keys)]
        {
            &&& ordered.to_multiset() == signatures.to_multiset()
            &&& digests.len() == ordered.len()
            &&& public_keys.len() == ordered.len()
            &&& all_valid_digests(digests)
            &&& all_valid_public_keys(public_keys)
            &&& forall|i: int|
                0 <= i < ordered.len() ==> pairing_equation_holds(
                    #[trigger] ordered[i],
                    seq![digests[i]],
                    seq![public_keys[i]],
                )
        } ==> pairing_equation_holds(sum, digests, public_keys)
}

/// The encoding of the identity of the group of signatures, the point at
/// infinity: the two flags of a compressed point at infinity, and zeros.
pub open spec fn identity_signature() -> Seq<u8> {
    Seq::new(96, |i: int| if i == 0 { 0xc0u8 } else { 0u8 })
}

/// `bls_signatures::hash`, followed by the compression of the point. Trusted:
/// the digest is a function of the message alone.
#[verifier::external_body]
pub(crate) fn hash_to_digest(message: &[u8]) -> (digest: [u8; 96])
    ensures
        digest@ == digest_of(message@),
{
    let mut raw = [0u8; 96];
    raw.copy_from_slice(bls_signatures::hash(message).into_affine().into_compressed().as_ref());
    raw
}

/// `Signature::from_bytes`, asked only whether it succeeds. Trusted: success
/// is a function of the bytes alone.
#[verifier::external_body]
pub(crate) fn signature_is_valid(raw: &[u8; 96]) -> (ok: bool)
    ensures
        ok == valid_signature(raw@),
{
    Signature::from_bytes(raw).is_ok()
}

/// `G2Compressed::into_affine` on a copy of the bytes, asked only whether it
/// succeeds. Trusted: success is a function of the bytes alone.
#[verifier::external_body]
pub(crate) fn digest_is_valid(raw: &[u8; 96]) -> (ok: bool)
    ensures
        ok == valid_digest(raw@),
{
    let mut point = G2Compressed::empty();
    point.as_mut().copy_from_slice(raw);
    point.into_affine().is_ok()
}

/// `PublicKey::from_bytes`, asked only whether it succeeds. Trusted: success
/// is a function of the bytes alone.
#[verifier::external_body]
pub(crate) fn public_key_is_valid(raw: &[u8; 48]) -> (ok: bool)
    ensures
        ok == valid_public_key(raw@),
{
    PublicKey::from_bytes(raw).is_ok()
}

/// `PrivateKey::from_bytes`, asked only whether it succeeds. Trusted: it
/// takes thirty-two bytes that spell, the first byte counting least, a number
/// below the order of the scalar field, and nothing else.
#[verifier::external_body]
pub(crate) fn private_key_is_valid(raw: &[u8; 32]) -> (ok: bool)
    ensures
        ok == valid_private_key(raw@),
{
    PrivateKey::from_bytes(raw).is_ok()
}

/// `bls_signatures::aggregate` on the decoded signatures, followed by the
/// encoding of the sum. Trusted: the result is the encoding of the sum of the
/// decoded signatures, which decodes again; the sum of none is the identity,
/// and the sum of one is that one, whose encoding is the one it was decoded
/// from; the sum satisfies the pairing equation with all the digests and
/// public keys with which its summands satisfy it one by one. Decoding an
/// invalid piece would panic, so every piece must be valid.
#[verifier::external_body]
pub(crate) fn sum_signatures(signatures: &Vec<[u8; 96]>) -> (sum: [u8; 96])
    requires
        all_valid_signatures(views_96(signatures@)),
    ensures
        sum@ == signature_sum(views_96(signatures@).to_multiset()),
        valid_signature(sum@),
        signatures@.len() == 0 ==> sum@ == identity_signature(),
        signatures@.len() == 1 ==> sum@ == signatures@[0]@,
        sum_satisfies(sum@, views_96(signatures@)),
{
    let points: Vec<Signature> =
        signatures.iter().map(|piece| Signature::from_bytes(piece).unwrap()).collect();
    let mut raw = [0u8; 96];
    bls_signatures::aggregate(&points).write_bytes(&mut raw.as_mut()).expect("preallocated");
    raw
}

/// `bls_signatures::verify` on the decoded signature, digests and public
/// keys. Trusted: the answer is a function of the encodings alone. Decoding an
/// invalid piece would panic, so all of them must be valid.
#[verifier::external_body]
pub(crate) fn pairing_check(
    signature: &[u8; 96],
    digests: &Vec<[u8; 96]>,
    public_keys: &Vec<[u8; 48]>,
) -> (ok: bool)
    requires
        valid_signature(signature@),
        all_valid_digests(views_96(digests@)),
        all_valid_public_keys(views_48(public_keys@)),
    ensures
        ok == pairing_equation_holds(signature@, views_96(digests@), views_48(public_keys@)),
{
    let signature = Signature::from_bytes(signature).unwrap();
    let hashes: Vec<G2> = digests.iter().map(|piece| {
        let mut point = G2Compressed::empty();
        point.as_mut().copy_from_slice(piece);
        point.into_affine().unwrap().into_projective()
    }).collect();
    let keys: Vec<PublicKey> =
        public_keys.iter().map(|piece| PublicKey::from_bytes(piece).unwrap()).collect();
    bls_signatures::verify(&signature, &hashes, &keys)
}

/// `PrivateKey::generate` with the operating system's random source, followed
/// by the encoding of the key. Trusted: whatever key comes out, it is a scalar
/// of the field, and its encoding spells it.
#[verifier::external_body]
pub(crate) fn random_private_key() -> (key: [u8; 32])
    ensures
        valid_private_key(key@),
{
    let mut raw = [0u8; 32];
    PrivateKey::generate(&mut OsRng).write_bytes(&mut raw.as_mut()).expect("preallocated");
    raw
}

/// `PrivateKey::sign` with the decoded key, followed by the encoding of the
/// signature. Trusted: the signature is a function of key and message alone,
/// and it verifies: with the digest of the message and the public key of the
/// key it satisfies the pairing equation, and all three decode. Decoding an
/// invalid key would panic.
#[verifier::external_body]
pub(crate) fn sign_message(private_key: &[u8; 32], message: &[u8]) -> (signature: [u8; 96])
    requires
        valid_private_key(private_key@),
    ensures
        signature@ == signature_of(private_key@, message@),
        signed_by(signature@, private_key@, message@),
{
    let key = PrivateKey::from_bytes(private_key).unwrap();
    let mut raw = [0u8; 96];
    key.sign(message).write_bytes(&mut raw.as_mut()).expect("preallocated");
    raw
}

/// `PrivateKey::public_key` with the decoded key, followed by the encoding of
/// the public key. Trusted: the public key is a function of the private key
/// alone. Decoding an invalid key would panic.
#[verifier::external_body]
pub(crate) fn derive_public_key(private_key: &[u8; 32]) -> (public_key: [u8; 48])
    requires
        valid_private_key(private_key@),
    ensures
        public_key@ == public_key_of(private_key@),
{
    let key = PrivateKey::from_bytes(private_key).unwrap();
    let mut raw = [0u8; 48];
    key.public_key().write_bytes(&mut raw.as_mut()).expect("preallocated");
    raw
}

} // verus!
