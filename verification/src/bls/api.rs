//! The signature operations.
use crate::bls::engine::{
    all_valid_digests, all_valid_public_keys, all_valid_signatures, derive_public_key,
    digest_is_valid, digest_of, hash_to_digest, identity_signature, pairing_check,
    pairing_equation_holds, private_key_is_valid, public_key_is_valid, public_key_of,
    random_private_key, sign_message, signature_is_valid, signature_of, signature_sum,
    signed_by, sum_satisfies, sum_signatures, valid_digest, valid_private_key, valid_public_key,
    valid_signature, views_48, views_96,
};
use crate::bls::types::{
    AggregateResponse, HashResponse, PrivateKeyGenerateResponse, PrivateKeyPublicKeyResponse,
    PrivateKeySignResponse,
};
use crate::chunks::chunks;
use vstd::prelude::*;

verus! {

pub const SIGNATURE_BYTES: usize = 96;

pub const PRIVATE_KEY_BYTES: usize = 32;

pub const PUBLIC_KEY_BYTES: usize = 48;

pub const DIGEST_BYTES: usize = 96;

pub type BLSSignature = [u8; 96];

pub type BLSPrivateKey = [u8; 32];

pub type BLSPublicKey = [u8; 48];

pub type BLSDigest = [u8; 96];

/// Compute the digest of a message.
pub fn hash(message: &[u8]) -> (response: HashResponse)
    ensures
        response.digest@ == digest_of(message@),
{
    HashResponse { digest: hash_to_digest(message) }
}

/// What aggregating the given pieces gives: their sum where each of them is
/// the encoding of a signature, nothing otherwise. No piece at all gives the
/// sum of nothing, which is the identity.
pub open spec fn aggregate_pieces(pieces: Seq<Seq<u8>>) -> Option<Seq<u8>> {
    if all_valid_signatures(pieces) {
        Some(signature_sum(pieces.to_multiset()))
    } else {
        None
    }
}

/// What `aggregate` returns for a buffer: the aggregate of its 96-byte
/// pieces, and nothing where it does not hold whole pieces.
pub open spec fn aggregate_spec(flattened: Seq<u8>) -> Option<Seq<u8>> {
    if flattened.len() % 96 == 0 {
        aggregate_pieces(chunks(flattened, 96))
    } else {
        None
    }
}

/// What `verify` returns: the signature, every digest and every public key
/// decode, there are as many digests as public keys, and the pairing equation
/// holds of them.
pub open spec fn verify_spec(signature: Seq<u8>, digests: Seq<u8>, public_keys: Seq<u8>) -> bool {
    &&& valid_signature(signature)
    &&& digests.len() % 96 == 0
    &&& public_keys.len() % 48 == 0
    &&& digests.len() / 96 == public_keys.len() / 48
    &&& all_valid_digests(chunks(digests, 96))
    &&& all_valid_public_keys(chunks(public_keys, 48))
    &&& pairing_equation_holds(signature, chunks(digests, 96), chunks(public_keys, 48))
}

/// Cuts a buffer of whole 96-byte pieces into its pieces, in order.
fn cut_96(flattened: &[u8]) -> (pieces: Vec<[u8; 96]>)
    requires
        flattened@.len() % 96 == 0,
    ensures
        views_96(pieces@) == chunks(flattened@, 96),
{
    let n = flattened.len();
    let mut pieces: Vec<[u8; 96]> = Vec::new();
    let mut start: usize = 0;
    while start < n
        invariant
            n == flattened@.len(),
            n % 96 == 0,
            start <= n,
            start == pieces@.len() * 96,
            pieces@.len() <= chunks(flattened@, 96).len(),
            forall|i: int|
                0 <= i < pieces@.len() ==> (#[trigger] pieces@[i])@ == chunks(flattened@, 96)[i],
        decreases n - start,
    {
        let mut piece = [0u8; 96];
        let mut j: usize = 0;
        while j < 96
            invariant
                j <= 96,
                start + 96 <= n,
                n == flattened@.len(),
                forall|k: int| 0 <= k < j ==> piece@[k] == flattened@[start + k],
            decreases 96 - j,
        {
            piece[j] = flattened[start + j];
            j = j + 1;
        }
        assert(piece@ == chunks(flattened@, 96)[pieces@.len() as int]);
        pieces.push(piece);
        start = start + 96;
    }
    assert(views_96(pieces@) =~= chunks(flattened@, 96));
    pieces
}

/// Cuts a buffer of whole 48-byte pieces into its pieces, in order.
fn cut_48(flattened: &[u8]) -> (pieces: Vec<[u8; 48]>)
    requires
        flattened@.len() % 48 == 0,
    ensures
        views_48(pieces@) == chunks(flattened@, 48),
{
    let n = flattened.len();
    let mut pieces: Vec<[u8; 48]> = Vec::new();
    let mut start: usize = 0;
    while start < n
        invariant
            n == flattened@.len(),
            n % 48 == 0,
            start <= n,
            start == pieces@.len() * 48,
            pieces@.len() <= chunks(flattened@, 48).len(),
            forall|i: int|
                0 <= i < pieces@.len() ==> (#[trigger] pieces@[i])@ == chunks(flattened@, 48)[i],
        decreases n - start,
    {
        let mut piece = [0u8; 48];
        let mut j: usize = 0;
        while j < 48
            invariant
                j <= 48,
                start + 48 <= n,
                n == flattened@.len(),
                forall|k: int| 0 <= k < j ==> piece@[k] == flattened@[start + k],
            decreases 48 - j,
        {
            piece[j] = flattened[start + j];
            j = j + 1;
        }
        assert(piece@ == chunks(flattened@, 48)[pieces@.len() as int]);
        pieces.push(piece);
        start = start + 48;
    }
    assert(views_48(pieces@) =~= chunks(flattened@, 48));
    pieces
}

/// Whether every piece is the encoding of a signature.
fn signatures_valid(pieces: &Vec<[u8; 96]>) -> (ok: bool)
    ensures
        ok == all_valid_signatures(views_96(pieces@)),
{
    let mut i: usize = 0;
    while i < pieces.len()
        invariant
            i <= pieces@.len(),
            forall|j: int| 0 <= j < i ==> valid_signature(#[trigger] views_96(pieces@)[j]),
        decreases pieces@.len() - i,
    {
        if !signature_is_valid(&pieces[i]) {
            assert(!valid_signature(views_96(pieces@)[i as int]));
            return false;
        }
        i = i + 1;
    }
    true
}

/// Whether every piece is the encoding of a digest.
fn digests_valid(pieces: &Vec<[u8; 96]>) -> (ok: bool)
    ensures
        ok == all_valid_digests(views_96(pieces@)),
{
    let mut i: usize = 0;
    while i < pieces.len()
        invariant
            i <= pieces@.len(),
            forall|j: int| 0 <= j < i ==> valid_digest(#[trigger] views_96(pieces@)[j]),
        decreases pieces@.len() - i,
    {
        if !digest_is_valid(&pieces[i]) {
            assert(!valid_digest(views_96(pieces@)[i as int]));
            return false;
        }
        i = i + 1;
    }
    true
}

/// Whether every piece is the encoding of a public key.
fn public_keys_valid(pieces: &Vec<[u8; 48]>) -> (ok: bool)
    ensures
        ok == all_valid_public_keys(views_48(pieces@)),
{
    let mut i: usize = 0;
    while i < pieces.len()
        invariant
            i <= pieces@.len(),
            forall|j: int| 0 <= j < i ==> valid_public_key(#[trigger] views_48(pieces@)[j]),
        decreases pieces@.len() - i,
    {
        if !public_key_is_valid(&pieces[i]) {
            assert(!valid_public_key(views_48(pieces@)[i as int]));
            return false;
        }
        i = i + 1;
    }
    true
}

/// Whether the buffer holds whole 96-byte pieces, each the encoding of a
/// signature.
pub fn all_signatures_valid(flattened: &[u8]) -> (ok: bool)
    ensures
        ok == (flattened@.len() % 96 == 0 && all_valid_signatures(chunks(flattened@, 96))),
{
    if flattened.len() % 96 != 0 {
        return false;
    }
    let pieces = cut_96(flattened);
    signatures_valid(&pieces)
}

/// Whether the buffer holds whole 96-byte pieces, each the encoding of a
/// digest.
pub fn all_digests_valid(flattened: &[u8]) -> (ok: bool)
    ensures
        ok == (flattened@.len() % 96 == 0 && all_valid_digests(chunks(flattened@, 96))),
{
    if flattened.len() % 96 != 0 {
        return false;
    }
    let pieces = cut_96(flattened);
    digests_valid(&pieces)
}

/// Whether the buffer holds whole 48-byte pieces, each the encoding of a
/// public key.
pub fn all_public_keys_valid(flattened: &[u8]) -> (ok: bool)
    ensures
        ok == (flattened@.len() % 48 == 0 && all_valid_public_keys(chunks(flattened@, 48))),
{
    if flattened.len() % 48 != 0 {
        return false;
    }
    let pieces = cut_48(flattened);
    public_keys_valid(&pieces)
}

/// Aggregate signatures together into a new signature. `None` where the
/// buffer does not hold whole signatures, or a piece of it is no signature.
/// The aggregate of no signature is the identity, and that of one signature
/// is that signature.
pub fn aggregate(flattened_signatures: &[u8]) -> (response: Option<AggregateResponse>)
    ensures
        response is Some <==> aggregate_spec(flattened_signatures@) is Some,
        response matches Some(r) ==> Some(r.signature@) == aggregate_spec(flattened_signatures@),
        response matches Some(r) ==> (flattened_signatures@.len() == 0 ==> r.signature@
            == identity_signature()),
        response matches Some(r) ==> (flattened_signatures@.len() == 96 ==> r.signature@
            == flattened_signatures@),
        response matches Some(r) ==> valid_signature(r.signature@) && sum_satisfies(
            r.signature@,
            chunks(flattened_signatures@, 96),
        ),
{
    if flattened_signatures.len() % 96 != 0 {
        return None;
    }
    let pieces = cut_96(flattened_signatures);
    if !signatures_valid(&pieces) {
        return None;
    }
    proof {
        assert(views_96(pieces@).len() == pieces@.len());
        if flattened_signatures@.len() == 96 {
            assert(chunks(flattened_signatures@, 96).len() == 1);
            assert(chunks(flattened_signatures@, 96)[0] == flattened_signatures@);
            assert(views_96(pieces@)[0] == pieces@[0]@);
        }
    }
    Some(AggregateResponse { signature: sum_signatures(&pieces) })
}

/// Verify that a signature is the aggregated signature of the digests under
/// the public keys. Anything malformed is refused with `false`.
pub fn verify(
    signature: &BLSSignature,
    flattened_digests: &[u8],
    flattened_public_keys: &[u8],
) -> (ok: bool)
    ensures
        ok == verify_spec(signature@, flattened_digests@, flattened_public_keys@),
{
    if !signature_is_valid(signature) {
        return false;
    }
    if flattened_digests.len() % DIGEST_BYTES != 0 {
        return false;
    }
    if flattened_public_keys.len() % PUBLIC_KEY_BYTES != 0 {
        return false;
    }
    if flattened_digests.len() / DIGEST_BYTES != flattened_public_keys.len() / PUBLIC_KEY_BYTES {
        return false;
    }
    let digests = cut_96(flattened_digests);
    if !digests_valid(&digests) {
        return false;
    }
    let public_keys = cut_48(flattened_public_keys);
    if !public_keys_valid(&public_keys) {
        return false;
    }
    pairing_check(signature, &digests, &public_keys)
}

/// Generate a new private key from the operating system's random source.
pub fn private_key_generate() -> (response: PrivateKeyGenerateResponse)
    ensures
        valid_private_key(response.private_key@),
{
    PrivateKeyGenerateResponse { private_key: random_private_key() }
}

/// Sign a message with a private key. `None` where the bytes are no private
/// key. The signature verifies against the digest of the message and the
/// public key of the private key.
pub fn private_key_sign(raw_private_key: &BLSPrivateKey, message: &[u8]) -> (response: Option<
    PrivateKeySignResponse,
>)
    ensures
        response is Some <==> valid_private_key(raw_private_key@),
        response matches Some(r) ==> r.signature@ == signature_of(raw_private_key@, message@),
        response matches Some(r) ==> signed_by(r.signature@, raw_private_key@, message@),
        response matches Some(r) ==> verify_spec(
            r.signature@,
            digest_of(message@),
            public_key_of(raw_private_key@),
        ),
{
    if !private_key_is_valid(raw_private_key) {
        return None;
    }
    let signature = sign_message(raw_private_key, message);
    proof {
        let digest = digest_of(message@);
        let public_key = public_key_of(raw_private_key@);
        assert(chunks(digest, 96).len() == 1);
        assert(chunks(digest, 96)[0] =~= digest);
        assert(chunks(digest, 96) =~= seq![digest]);
        assert(chunks(public_key, 48).len() == 1);
        assert(chunks(public_key, 48)[0] =~= public_key);
        assert(chunks(public_key, 48) =~= seq![public_key]);
    }
    Some(PrivateKeySignResponse { signature })
}

/// Derive the public key of a private key. `None` where the bytes are no
/// private key.
pub fn private_key_public_key(raw_private_key: &BLSPrivateKey) -> (response: Option<
    PrivateKeyPublicKeyResponse,
>)
    ensures
        response is Some <==> valid_private_key(raw_private_key@),
        response matches Some(r) ==> r.public_key@ == public_key_of(raw_private_key@),
{
    if !private_key_is_valid(raw_private_key) {
        return None;
    }
    Some(PrivateKeyPublicKeyResponse { public_key: derive_public_key(raw_private_key) })
}

/// Aggregation does not depend on the order of the signatures: two lists that
/// hold the same pieces, each as often as the other, aggregate to the same
/// result, and one is refused exactly when the other is.
pub proof fn aggregate_ignores_order(a: Seq<Seq<u8>>, b: Seq<Seq<u8>>)
    requires
        a.to_multiset() == b.to_multiset(),
    ensures
        aggregate_pieces(a) == aggregate_pieces(b),
{
    a.to_multiset_ensures();
    b.to_multiset_ensures();
    if all_valid_signatures(a) {
        assert forall|i: int| 0 <= i < b.len() implies valid_signature(#[trigger] b[i]) by {
            assert(b.contains(b[i]));
            assert(b.to_multiset().count(b[i]) > 0);
            assert(a.to_multiset().count(b[i]) > 0);
            assert(a.contains(b[i]));
        }
    }
    if all_valid_signatures(b) {
        assert forall|i: int| 0 <= i < a.len() implies valid_signature(#[trigger] a[i]) by {
            assert(a.contains(a[i]));
            assert(a.to_multiset().count(a[i]) > 0);
            assert(b.to_multiset().count(a[i]) > 0);
            assert(b.contains(a[i]));
        }
    }
}

/// The aggregate verifies: a signature that `aggregate` gives for some
/// signatures verifies against digests and public keys of which each pair
/// satisfies the pairing equation with one of these signatures, as the pair
/// of the digest of a message and the public key of a key does with the
/// signature of that message under that key, in whatever order the signatures
/// were aggregated.
pub proof fn aggregate_verifies(
    sum: Seq<u8>,
    aggregated: Seq<Seq<u8>>,
    ordered: Seq<Seq<u8>>,
    digests: Seq<u8>,
    public_keys: Seq<u8>,
)
    requires
        valid_signature(sum),
        sum_satisfies(sum, aggregated),
        ordered.to_multiset() == aggregated.to_multiset(),
        digests.len() == 96 * ordered.len(),
        public_keys.len() == 48 * ordered.len(),
        all_valid_digests(chunks(digests, 96)),
        all_valid_public_keys(chunks(public_keys, 48)),
        forall|i: int|
            0 <= i < ordered.len() ==> pairing_equation_holds(
                #[trigger] ordered[i],
                seq![chunks(digests, 96)[i]],
                seq![chunks(public_keys, 48)[i]],
            ),
    ensures
        verify_spec(sum, digests, public_keys),
{
    assert(chunks(digests, 96).len() == ordered.len());
    assert(chunks(public_keys, 48).len() == ordered.len());
    assert(ordered.to_multiset() == aggregated.to_multiset());
    assert(pairing_equation_holds(sum, chunks(digests, 96), chunks(public_keys, 48)));
}

/// Verification fails closed: a digest buffer or a public key buffer that
/// does not hold whole records, unequal numbers of digests and public keys,
/// and any piece that does not decode all give `false`.
pub proof fn verify_rejects_malformed(signature: Seq<u8>, digests: Seq<u8>, public_keys: Seq<u8>)
    requires
        !valid_signature(signature) || digests.len() % 96 != 0 || public_keys.len() % 48 != 0
            || digests.len() / 96 != public_keys.len() / 48 || !all_valid_digests(
            chunks(digests, 96),
        ) || !all_valid_public_keys(chunks(public_keys, 48)),
    ensures
        !verify_spec(signature, digests, public_keys),
{
}

} // verus!
