//! The extrinsic builder end to end: the fixed mnemonic vector, the wire
//! layout of the output, the compact length prefix, the hash-before-sign
//! threshold, and the hex input edges.

use lobster::compact::compact_decode;
use lobster::extrinsic::{
    build_signed_extrinsic, bytes_to_sign, decode_call_data, decode_genesis_hash, signing_payload,
    DecodeError, SIGN_HASH_THRESHOLD,
};
use sp_core::crypto::Pair as _;

const TEST_PHRASE: &str =
    "abandon abandon abandon abandon abandon abandon abandon abandon abandon abandon abandon about";

fn test_keypair() -> sp_core::sr25519::Pair {
    let (pair, _seed) = sp_core::sr25519::Pair::from_phrase(TEST_PHRASE, None).unwrap();
    pair
}

fn public_key_of(pair: &sp_core::sr25519::Pair) -> [u8; 32] {
    pair.public().0
}

#[test]
fn test_build_extrinsic_format() {
    // This is just a smoke test to ensure the encoding doesn't panic
    let keypair = test_keypair();

    let call_data = vec![0x00, 0x01, 0x02]; // Dummy call data
    let genesis_hash = [0u8; 32];
    let public_key = public_key_of(&keypair);

    let result =
        build_signed_extrinsic(&call_data, 0, &genesis_hash[..], 1, 1, &public_key[..], &keypair);

    assert!(result.is_ok());
    assert!(result.unwrap().starts_with("0x"));
}

#[test]
fn extrinsic_length_prefix_matches_body() {
    let keypair = test_keypair();
    let call_data = vec![0x00, 0x01, 0x02];
    let genesis_hash = [0u8; 32];
    let public_key = public_key_of(&keypair);

    let hex_out =
        build_signed_extrinsic(&call_data, 0, &genesis_hash[..], 1, 1, &public_key[..], &keypair)
            .unwrap();
    let wire = hex::decode(&hex_out[2..]).unwrap();

    let (body_len, consumed) = compact_decode(wire.as_slice(), 0).unwrap();
    let body = &wire[consumed..];
    // The recovered prefix is the exact byte length of the body.
    assert_eq!(body_len, body.len() as u128);
    // The first body byte is the signed-version tag.
    assert_eq!(body[0], 0x84);
}

#[test]
fn extrinsic_body_layout_and_signature_verify() {
    let keypair = test_keypair();
    let call_data = vec![0x0a, 0x0b, 0x0c, 0x0d];
    let genesis_hash = [7u8; 32];
    let nonce = 5u64;

    let public_key = public_key_of(&keypair);
    let hex_out = build_signed_extrinsic(
        &call_data,
        nonce,
        &genesis_hash[..],
        3,
        2,
        &public_key[..],
        &keypair,
    )
    .unwrap();
    let wire = hex::decode(&hex_out[2..]).unwrap();
    let (_, consumed) = compact_decode(wire.as_slice(), 0).unwrap();
    let body = &wire[consumed..];

    // [0x84][0x00][pubkey:32][0x01][signature:64][era][nonce][tip][mode][call]
    assert_eq!(body[0], 0x84);
    assert_eq!(body[1], 0x00);
    let pubkey: [u8; 32] = body[2..34].try_into().unwrap();
    assert_eq!(pubkey, keypair.public().0);
    assert_eq!(body[34], 0x01);
    let signature: [u8; 64] = body[35..99].try_into().unwrap();
    // Explicit extensions: era 0x00, compact nonce 5 -> 0x14, compact tip 0,
    // metadata-hash mode 0x00, then the call data.
    assert_eq!(&body[99..], &[0x00, 0x14, 0x00, 0x00, 0x0a, 0x0b, 0x0c, 0x0d]);

    // The signature verifies over the signing payload (short, so unhashed).
    let payload = signing_payload(&call_data, nonce, &genesis_hash[..], 3, 2);
    let to_sign = bytes_to_sign(&payload);
    assert_eq!(to_sign, payload);
    let sig = sp_core::sr25519::Signature::from_raw(signature);
    assert!(sp_core::sr25519::Pair::verify(&sig, &to_sign, &keypair.public()));
}

#[test]
fn empty_call_data_still_encodes() {
    let keypair = test_keypair();
    let genesis_hash = [0u8; 32];
    let public_key = public_key_of(&keypair);
    let hex_out =
        build_signed_extrinsic(&[], 0, &genesis_hash[..], 1, 1, &public_key[..], &keypair)
            .unwrap();
    let wire = hex::decode(&hex_out[2..]).unwrap();
    let (body_len, consumed) = compact_decode(wire.as_slice(), 0).unwrap();
    // Tag, address, signature, and the four explicit extension bytes.
    assert_eq!(body_len, (2 + 32 + 1 + 64 + 4) as u128);
    assert_eq!(wire.len() - consumed, 103);
}

#[test]
fn repeated_builds_differ_only_in_the_signature_field() {
    let keypair = test_keypair();
    let call_data = vec![0x01, 0x02, 0x03];
    let genesis_hash = [4u8; 32];
    let public_key = public_key_of(&keypair);
    let build = || {
        build_signed_extrinsic(
            &call_data,
            9,
            &genesis_hash[..],
            1,
            1,
            &public_key[..],
            &keypair,
        )
        .unwrap()
    };
    let w1 = hex::decode(&build()[2..]).unwrap();
    let w2 = hex::decode(&build()[2..]).unwrap();
    assert_eq!(w1.len(), w2.len());
    let (_, consumed) = compact_decode(w1.as_slice(), 0).unwrap();
    // The signature occupies body bytes 35..99; everything else is equal.
    for i in 0..w1.len() {
        if !(consumed + 35 <= i && i < consumed + 99) {
            assert_eq!(w1[i], w2[i], "wire byte {} outside the signature differs", i);
        }
    }
}

#[test]
fn signing_payload_layout_is_exact() {
    let call_data = vec![0xaa, 0xbb];
    let genesis_hash = [9u8; 32];
    let payload = signing_payload(&call_data, 70, &genesis_hash[..], 1, 2);

    let mut expected = vec![0xaa, 0xbb];
    expected.push(0x00); // era: immortal
    expected.extend_from_slice(&[0x19, 0x01]); // compact 70, two-byte mode
    expected.push(0x00); // compact tip 0
    expected.push(0x00); // metadata-hash mode: disabled
    expected.extend_from_slice(&1u32.to_le_bytes()); // spec version
    expected.extend_from_slice(&2u32.to_le_bytes()); // transaction version
    expected.extend_from_slice(&genesis_hash); // genesis check
    expected.extend_from_slice(&genesis_hash); // era checkpoint
    expected.push(0x00); // absent metadata hash
    assert_eq!(payload, expected);
}

#[test]
fn payload_at_threshold_is_signed_raw() {
    // Overhead around the call data: 4 explicit + 73 implicit bytes.
    let call = vec![0x55u8; SIGN_HASH_THRESHOLD - 77];
    let payload = signing_payload(&call, 0, &[0u8; 32][..], 1, 1);
    assert_eq!(payload.len(), SIGN_HASH_THRESHOLD);
    assert_eq!(bytes_to_sign(&payload), payload);
}

#[test]
fn payload_over_threshold_is_signed_hashed() {
    let call = vec![0x55u8; SIGN_HASH_THRESHOLD - 76];
    let payload = signing_payload(&call, 0, &[0u8; 32][..], 1, 1);
    assert_eq!(payload.len(), SIGN_HASH_THRESHOLD + 1);
    let to_sign = bytes_to_sign(&payload);
    assert_eq!(to_sign, sp_crypto_hashing::blake2_256(&payload).to_vec());
}

#[test]
fn call_data_hex_decodes_with_and_without_prefix() {
    assert_eq!(decode_call_data("0x00ff10"), Ok(vec![0x00, 0xff, 0x10]));
    assert_eq!(decode_call_data("00ff10"), Ok(vec![0x00, 0xff, 0x10]));
    assert_eq!(decode_call_data("0x"), Ok(vec![]));
    assert_eq!(decode_call_data("0xAbCd"), Ok(vec![0xab, 0xcd]));
}

#[test]
fn malformed_call_data_is_rejected() {
    assert_eq!(decode_call_data("0x123"), Err(DecodeError::InvalidHex));
    assert_eq!(decode_call_data("zz"), Err(DecodeError::InvalidHex));
}

#[test]
fn genesis_hash_must_spell_32_bytes() {
    let good = format!("0x{}", "11".repeat(32));
    assert_eq!(decode_genesis_hash(&good), Ok(vec![0x11u8; 32]));
    let short = format!("0x{}", "11".repeat(31));
    assert_eq!(decode_genesis_hash(&short), Err(DecodeError::WrongLength));
    assert_eq!(decode_genesis_hash("0xnope"), Err(DecodeError::InvalidHex));
}
