//! Extrinsic building and signing.
//!
//! The chain accepts version-4 signed extrinsics with a fixed, ordered list
//! of ten transaction extensions.  Each extension contributes explicit bytes
//! (carried in the extrinsic) and implicit bytes (signed but never sent):
//!
//! 1. non-zero-sender check: nothing, nothing
//! 2. spec-version check: nothing, 4-byte spec version
//! 3. tx-version check: nothing, 4-byte transaction version
//! 4. genesis check: nothing, 32-byte genesis hash
//! 5. era check: one byte `0x00` (immortal), 32-byte checkpoint hash
//!    (the genesis hash again, correct only for the immortal era)
//! 6. nonce check: compact nonce, nothing
//! 7. weight check: nothing, nothing
//! 8. fee/tip: compact tip (fixed 0), nothing
//! 9. metadata-hash mode: one byte `0x00` (disabled), one byte `0x00` (absent)
//! 10. weight-reclaim: nothing, nothing

use vstd::prelude::*;

use sp_core::crypto::Pair;
use sp_core::crypto::Ss58Codec;

use crate::bytesutil::le_bytes;
use crate::compact::{
    compact_decode_spec, compact_encode, compact_encode_u64, compact_of, lemma_compact_round_trip,
};
use crate::hexcode::{
    hex_bytes, hex_decode, hex_encode, hex_of, hex_valid, lemma_hex_of_append, lemma_hex_of_len,
};

verus! {

/// Payloads longer than this are hashed before signing; the signature then
/// covers the 32-byte digest instead of the raw bytes.  A fixed protocol
/// constant, not a tunable.
pub const SIGN_HASH_THRESHOLD: usize = 256;

/// An sr25519 keypair of the outside crypto crate, opaque to the library's
/// reasoning; the library only asks it to sign.
#[verifier::external_type_specification]
#[verifier::external_body]
pub struct ExSr25519Pair(sp_core::sr25519::Pair);

/// What the 256-bit digest of a byte string is; the bytes themselves are
/// pinned only by the outside hash function.
pub uninterp spec fn blake2_256_of(data: Seq<u8>) -> Seq<u8>;

/// What the checksummed text encoding of a 32-byte account id is, under the
/// fixed address-format prefix below; the exact characters are pinned only
/// by the outside crate.
pub uninterp spec fn ss58_of(account: Seq<u8>) -> Seq<char>;

/// Relies on sp_crypto_hashing::blake2_256: a 32-byte digest that depends on
/// the input bytes alone.
#[verifier::external_body]
fn blake2_256(data: &[u8]) -> (r: Vec<u8>)
    ensures
        r@ == blake2_256_of(data@),
        r@.len() == 32,
{
    sp_crypto_hashing::blake2_256(data).to_vec()
}

/// Relies on sp_core::crypto::Pair::sign for sr25519: a 64-byte signature.
/// Schnorr signing draws randomness, so two calls on one message may differ;
/// nothing beyond the length is stated.
#[verifier::external_body]
fn sr25519_sign(pair: &sp_core::sr25519::Pair, message: &[u8]) -> (r: Vec<u8>)
    ensures
        r@.len() == 64,
{
    pair.sign(message).0.to_vec()
}

/// The SS58 address-format prefix this client encodes addresses with: the
/// generic Substrate network.
pub const SS58_PREFIX: u16 = 42;

/// Relies on sp_core::crypto::Ss58Codec::to_ss58check_with_version: the
/// checksummed text encoding of an account id.  The format version is passed
/// explicitly, so the result is a function of the bytes alone.
#[verifier::external_body]
pub(crate) fn ss58_encode(account: &[u8]) -> (r: String)
    requires
        account@.len() == 32,
    ensures
        r@ == ss58_of(account@),
{
    let mut raw = [0u8; 32];
    raw.copy_from_slice(account);
    sp_core::sr25519::Public::from_raw(raw).to_ss58check_with_version(
        sp_core::crypto::Ss58AddressFormat::custom(SS58_PREFIX),
    )
}

/// The explicit extension bytes, in protocol order: era (immortal `0x00`),
/// compact nonce, compact tip (fixed 0), metadata-hash mode (`0x00`).
pub open spec fn explicit_extensions(nonce: u64) -> Seq<u8> {
    seq![0x00u8] + compact_of(nonce as u128) + compact_of(0u128) + seq![0x00u8]
}

/// The implicit extension bytes, in protocol order: spec version, transaction
/// version, genesis hash, era checkpoint hash (the genesis hash again), and
/// `0x00` for the absent metadata hash.
pub open spec fn implicit_extensions(spec_version: u32, transaction_version: u32, genesis: Seq<
    u8,
>) -> Seq<u8> {
    le_bytes(spec_version as nat, 4) + le_bytes(transaction_version as nat, 4) + genesis + genesis
        + seq![0x00u8]
}

/// The bytes the signature covers before the size rule is applied:
/// call data, then explicit, then implicit extension bytes.
pub open spec fn signing_payload_of(
    call: Seq<u8>,
    nonce: u64,
    spec_version: u32,
    transaction_version: u32,
    genesis: Seq<u8>,
) -> Seq<u8> {
    call + explicit_extensions(nonce) + implicit_extensions(
        spec_version,
        transaction_version,
        genesis,
    )
}

/// What is actually handed to the signer: the raw payload up to the
/// threshold, its digest above it.
pub open spec fn to_sign_of(payload: Seq<u8>) -> Seq<u8> {
    if payload.len() > SIGN_HASH_THRESHOLD {
        blake2_256_of(payload)
    } else {
        payload
    }
}

/// The extrinsic body: version tag `0x84`, address kind `0x00` and the
/// public key, signature kind `0x01` and the signature, the explicit
/// extension bytes, and the call data.
pub open spec fn extrinsic_body_of(pubkey: Seq<u8>, signature: Seq<u8>, nonce: u64, call: Seq<
    u8,
>) -> Seq<u8> {
    seq![0x84u8, 0x00u8] + pubkey + seq![0x01u8] + signature + explicit_extensions(nonce) + call
}

/// The wire form of a body: its own compact-encoded length, then the body.
pub open spec fn length_prefixed_of(body: Seq<u8>) -> Seq<u8> {
    compact_of(body.len() as u128) + body
}

/// The final output: `0x`, then the wire bytes in lowercase hex.
pub open spec fn wire_hex_of(body: Seq<u8>) -> Seq<char> {
    seq!['0', 'x'] + hex_of(length_prefixed_of(body))
}

/// Error from the signing step.  The protocol propagates signing failures to
/// the caller without retrying: they are not transient.
#[derive(Debug, Clone, PartialEq, Eq, Structural)]
pub enum SignError {
    /// The key material could not produce a signature.
    InvalidKeyMaterial,
}

/// A 32-bit integer as four little-endian bytes.
pub fn u32_le(x: u32) -> (r: Vec<u8>)
    ensures
        r@ == le_bytes(x as nat, 4),
{
    let mut out: Vec<u8> = Vec::new();
    out.push((x % 256) as u8);
    out.push(((x / 256) % 256) as u8);
    out.push(((x / 65536) % 256) as u8);
    out.push(((x / 16777216) % 256) as u8);
    proof {
        let vn = x as nat;
        assert(le_bytes(vn, 4) =~= seq![(vn % 256) as u8] + le_bytes(vn / 256, 3));
        assert(le_bytes(vn / 256, 3) =~= seq![((vn / 256) % 256) as u8] + le_bytes(vn / 65536, 2));
        assert(le_bytes(vn / 65536, 2) =~= seq![((vn / 65536) % 256) as u8] + le_bytes(
            vn / 16777216,
            1,
        ));
        assert(le_bytes(vn / 16777216, 1) =~= seq![((vn / 16777216) % 256) as u8] + le_bytes(
            vn / 4294967296,
            0,
        ));
        assert(le_bytes(vn / 4294967296, 0) =~= Seq::<u8>::empty());
        assert(out@ =~= le_bytes(vn, 4));
    }
    out
}

/// Build the signing payload: `call ++ explicitBytes ++ implicitBytes`, in
/// that exact order.
pub fn signing_payload(
    call_data: &[u8],
    nonce: u64,
    genesis_hash: &[u8],
    spec_version: u32,
    transaction_version: u32,
) -> (r: Vec<u8>)
    requires
        genesis_hash@.len() == 32,
    ensures
        r@ == signing_payload_of(
            call_data@,
            nonce,
            spec_version,
            transaction_version,
            genesis_hash@,
        ),
{
    let mut payload: Vec<u8> = Vec::new();
    payload.extend_from_slice(call_data);
    // Explicit extensions: era (immortal), compact nonce, compact tip 0,
    // metadata-hash mode disabled.
    payload.push(0x00);
    let mut nonce_bytes = compact_encode_u64(nonce);
    payload.append(&mut nonce_bytes);
    let mut tip_bytes = compact_encode(0);
    payload.append(&mut tip_bytes);
    payload.push(0x00);
    // Implicit extensions: spec version, tx version, genesis hash, era
    // checkpoint hash (genesis again), absent metadata hash.
    let mut sv = u32_le(spec_version);
    payload.append(&mut sv);
    let mut tv = u32_le(transaction_version);
    payload.append(&mut tv);
    payload.extend_from_slice(genesis_hash);
    payload.extend_from_slice(genesis_hash);
    payload.push(0x00);
    proof {
        assert(payload@ =~= signing_payload_of(
            call_data@,
            nonce,
            spec_version,
            transaction_version,
            genesis_hash@,
        ));
    }
    payload
}

/// The size-dependent hash-before-sign rule: payloads over the threshold are
/// replaced by their 256-bit digest, shorter ones pass through unchanged.
pub fn bytes_to_sign(payload: &Vec<u8>) -> (r: Vec<u8>)
    ensures
        r@ == to_sign_of(payload@),
        payload@.len() > SIGN_HASH_THRESHOLD ==> r@.len() == 32,
{
    if payload.len() > SIGN_HASH_THRESHOLD {
        blake2_256(payload.as_slice())
    } else {
        let mut copy: Vec<u8> = Vec::new();
        copy.extend_from_slice(payload.as_slice());
        copy
    }
}

/// Assemble the extrinsic body from its parts, in wire order.
pub fn assemble_extrinsic_body(
    pubkey: &[u8],
    signature: &[u8],
    nonce: u64,
    call_data: &[u8],
) -> (r: Vec<u8>)
    requires
        pubkey@.len() == 32,
        signature@.len() == 64,
    ensures
        r@ == extrinsic_body_of(pubkey@, signature@, nonce, call_data@),
{
    let mut body: Vec<u8> = Vec::new();
    // Version byte: signed flag (0x80) + protocol version 4.
    body.push(0x84);
    // Address: plain account id kind, then the public key.
    body.push(0x00);
    body.extend_from_slice(pubkey);
    // Signature: sr25519 kind, then the signature bytes.
    body.push(0x01);
    body.extend_from_slice(signature);
    // Explicit extensions.
    body.push(0x00);
    let mut nonce_bytes = compact_encode_u64(nonce);
    body.append(&mut nonce_bytes);
    let mut tip_bytes = compact_encode(0);
    body.append(&mut tip_bytes);
    body.push(0x00);
    // Call data.
    body.extend_from_slice(call_data);
    proof {
        assert(body@ =~= extrinsic_body_of(pubkey@, signature@, nonce, call_data@));
    }
    body
}

/// Prefix a body with its own compact-encoded byte length.
pub fn length_prefixed(body: &[u8]) -> (r: Vec<u8>)
    ensures
        r@ == length_prefixed_of(body@),
{
    let mut out = compact_encode(body.len() as u128);
    out.extend_from_slice(body);
    out
}

/// Build and sign an extrinsic for submission.
///
/// The output is the hex-encoded wire form, `0x`-prefixed and lowercase: the
/// compact-encoded body length, then the body, whose layout
/// `extrinsic_body_of` fixes byte for byte around the given public key and a
/// fresh 64-byte signature over `signing_payload_of` (hashed first when it
/// runs over the threshold).  Everything but the signature bytes is pinned;
/// callers take `public_key` from the same capability as `keypair`.
pub fn build_signed_extrinsic(
    call_data: &[u8],
    nonce: u64,
    genesis_hash: &[u8],
    spec_version: u32,
    transaction_version: u32,
    public_key: &[u8],
    keypair: &sp_core::sr25519::Pair,
) -> (r: Result<String, SignError>)
    requires
        genesis_hash@.len() == 32,
        public_key@.len() == 32,
    ensures
        match r {
            Ok(s) => exists|sg: Seq<u8>|
                sg.len() == 64 && s@ == wire_hex_of(
                    #[trigger] extrinsic_body_of(public_key@, sg, nonce, call_data@),
                ),
            Err(_) => false,
        },
{
    let payload = signing_payload(call_data, nonce, genesis_hash, spec_version, transaction_version);
    let to_sign = bytes_to_sign(&payload);
    let signature = sr25519_sign(keypair, to_sign.as_slice());
    let body = assemble_extrinsic_body(public_key, signature.as_slice(), nonce, call_data);
    let wire = length_prefixed(body.as_slice());
    let hex_part = hex_encode(wire.as_slice());
    let out = String::from_str("0x").concat(hex_part.as_str());
    proof {
        reveal_strlit("0x");
        assert(out@ =~= wire_hex_of(extrinsic_body_of(public_key@, signature@, nonce, call_data@)));
    }
    Ok(out)
}

/// Law: the compact length prefix recovered by re-parsing an assembled
/// extrinsic equals the exact byte length of its body, and what follows the
/// prefix is the body itself.
pub proof fn lemma_wire_round_trip(body: Seq<u8>)
    requires
        body.len() <= usize::MAX,
    ensures
        compact_decode_spec(length_prefixed_of(body), 0) == Some(
            (body.len() as u128, compact_of(body.len() as u128).len() as int),
        ),
        length_prefixed_of(body).skip(compact_of(body.len() as u128).len() as int) =~= body,
{
    lemma_compact_round_trip(body.len() as u128, body);
}

/// Law: with one public key, nonce and call, the builder's output varies
/// only in the signature.  The wire-hex forms of two bodies that differ at
/// most in their signature bytes agree at every character outside the 128
/// that spell the signature.
pub proof fn lemma_output_varies_only_in_signature(
    pk: Seq<u8>,
    sg1: Seq<u8>,
    sg2: Seq<u8>,
    nonce: u64,
    call: Seq<u8>,
)
    requires
        pk.len() == 32,
        sg1.len() == 64,
        sg2.len() == 64,
    ensures
        ({
            let w1 = wire_hex_of(extrinsic_body_of(pk, sg1, nonce, call));
            let w2 = wire_hex_of(extrinsic_body_of(pk, sg2, nonce, call));
            let p = compact_of(
                extrinsic_body_of(pk, sg1, nonce, call).len() as u128,
            ).len() as int;
            &&& w1.len() == w2.len()
            &&& forall|i: int|
                0 <= i < w1.len() && !(2 + 2 * (p + 35) <= i < 2 + 2 * (p + 99)) ==> w1[i]
                    == w2[i]
        }),
{
    let b1 = extrinsic_body_of(pk, sg1, nonce, call);
    let b2 = extrinsic_body_of(pk, sg2, nonce, call);
    let head = seq![0x84u8, 0x00u8] + pk + seq![0x01u8];
    let tail = explicit_extensions(nonce) + call;
    assert(b1 =~= head + sg1 + tail);
    assert(b2 =~= head + sg2 + tail);
    assert(head.len() == 35);
    assert(b1.len() == b2.len());
    let cp = compact_of(b1.len() as u128);
    let pre = cp + head;
    assert(length_prefixed_of(b1) =~= pre + sg1 + tail);
    assert(length_prefixed_of(b2) =~= pre + sg2 + tail);
    lemma_hex_of_append(pre, sg1);
    lemma_hex_of_append(pre + sg1, tail);
    lemma_hex_of_append(pre, sg2);
    lemma_hex_of_append(pre + sg2, tail);
    lemma_hex_of_len(pre);
    lemma_hex_of_len(sg1);
    lemma_hex_of_len(sg2);
    let hp = hex_of(pre);
    let h1 = hex_of(sg1);
    let h2 = hex_of(sg2);
    let ht = hex_of(tail);
    let w1 = wire_hex_of(b1);
    let w2 = wire_hex_of(b2);
    assert(w1 =~= seq!['0', 'x'] + hp + h1 + ht);
    assert(w2 =~= seq!['0', 'x'] + hp + h2 + ht);
    let p = cp.len() as int;
    assert(hp.len() == 2 * (p + 35));
    assert(h1.len() == 128 && h2.len() == 128);
    assert(w1.len() == w2.len());
    assert forall|i: int|
        0 <= i < w1.len() && !(2 + 2 * (p + 35) <= i < 2 + 2 * (p + 99)) implies w1[i] == w2[i] by {
        if i < 2 + hp.len() {
            if i < 2 {
                assert(w1[i] == (seq!['0', 'x'])[i]);
                assert(w2[i] == (seq!['0', 'x'])[i]);
            } else {
                assert(w1[i] == hp[i - 2]);
                assert(w2[i] == hp[i - 2]);
            }
        } else {
            assert(w1[i] == ht[i - 2 - hp.len() - 128]);
            assert(w2[i] == ht[i - 2 - hp.len() - 128]);
        }
    }
}

/// An input rejected before any encoding work: malformed hex, or a genesis
/// hash of the wrong size.  No partial extrinsic is produced.
#[derive(Debug, Clone, PartialEq, Eq, Structural)]
pub enum DecodeError {
    /// Odd length or a character outside the hex digits.
    InvalidHex,
    /// Well-formed hex that does not spell exactly 32 bytes.
    WrongLength,
}

/// A hex string with one leading `0x` marker, if any, removed.
pub open spec fn strip_0x(s: Seq<char>) -> Seq<char> {
    if s.len() >= 2 && s[0] == '0' && s[1] == 'x' {
        s.skip(2)
    } else {
        s
    }
}

/// The `0x`-stripped text of a hex input.
fn strip_hex_prefix<'a>(s: &'a str) -> (r: &'a str)
    ensures
        r@ == strip_0x(s@),
{
    let n = s.unicode_len();
    if n >= 2 {
        if s.get_char(0) == '0' && s.get_char(1) == 'x' {
            let rest = s.substring_char(2, n);
            proof {
                assert(rest@ =~= s@.skip(2));
            }
            return rest;
        }
    }
    s
}

/// Decode server-supplied call data: hex with an optional `0x` prefix.
pub fn decode_call_data(s: &str) -> (r: Result<Vec<u8>, DecodeError>)
    ensures
        match r {
            Ok(v) => hex_valid(strip_0x(s@)) && v@ == hex_bytes(strip_0x(s@)),
            Err(e) => e == DecodeError::InvalidHex && !hex_valid(strip_0x(s@)),
        },
{
    let stripped = strip_hex_prefix(s);
    match hex_decode(stripped) {
        Some(v) => Ok(v),
        None => Err(DecodeError::InvalidHex),
    }
}

/// Decode a chain genesis hash: hex with an optional `0x` prefix, spelling
/// exactly 32 bytes.
pub fn decode_genesis_hash(s: &str) -> (r: Result<Vec<u8>, DecodeError>)
    ensures
        match r {
            Ok(v) => hex_valid(strip_0x(s@)) && v@ == hex_bytes(strip_0x(s@)) && v@.len() == 32,
            Err(DecodeError::InvalidHex) => !hex_valid(strip_0x(s@)),
            Err(DecodeError::WrongLength) => hex_valid(strip_0x(s@)) && hex_bytes(
                strip_0x(s@),
            ).len() != 32,
        },
{
    let stripped = strip_hex_prefix(s);
    match hex_decode(stripped) {
        Some(v) => if v.len() == 32 {
            Ok(v)
        } else {
            Err(DecodeError::WrongLength)
        },
        None => Err(DecodeError::InvalidHex),
    }
}

} // verus!
