use std::num::NonZeroU32;

use akarin::crypto::chacha20_poly1305::{init_crypto, ChaCha20Poly1305, KEY_ITERATIONS};
use akarin::crypto::frame::{assemble_frame, split_frame};
use akarin::crypto::primitives::{KEY_LEN, MAX_MESSAGE_LEN, NONCE_LEN, TAG_LEN};
use akarin::crypto::{Ciphers, Crypto};
use akarin::error::Error;
use ring::aead::{Aad, LessSafeKey, Nonce, UnboundKey, CHACHA20_POLY1305};
use ring::pbkdf2;

fn cipher() -> ChaCha20Poly1305 {
    ChaCha20Poly1305::new("realityone".as_bytes()).unwrap()
}

/// The key the password stretches into, computed here with no help from
/// the library.
fn reference_key(password: &[u8]) -> LessSafeKey {
    let mut key = [0u8; 32];
    pbkdf2::derive(pbkdf2::PBKDF2_HMAC_SHA256, NonZeroU32::new(1024).unwrap(), &[], password, &mut key);
    LessSafeKey::new(UnboundKey::new(&CHACHA20_POLY1305, &key).unwrap())
}

fn reference_seal(password: &[u8], nonce: [u8; 12], message: &[u8]) -> Vec<u8> {
    let mut sealed = message.to_vec();
    reference_key(password)
        .seal_in_place_append_tag(Nonce::assume_unique_for_key(nonce), Aad::empty(), &mut sealed)
        .unwrap();
    sealed
}

#[test]
fn chacha20_poly1305_test_encrypt_and_decrypt() {
    let origin_message = "# akarin\n\nLightweight and stateless IP tunnel.\n".as_bytes().to_vec();
    let crypto = ChaCha20Poly1305::new("realityone".as_bytes()).unwrap();

    let cipher_text = {
        let message = origin_message.to_vec();
        crypto.encrypt(&message).unwrap()
    };

    let plain_text = {
        let message = cipher_text.to_vec();
        crypto.decrypt(&message).unwrap()
    };

    assert_eq!(origin_message, plain_text);
}

#[test]
fn round_trip_of_empty_and_mtu_sized_payloads() {
    let crypto = cipher();
    for len in [0usize, 1, 20, 1432, 1500, 65_535] {
        let payload: Vec<u8> = (0..len).map(|i| (i % 251) as u8).collect();
        let frame = crypto.encrypt(&payload).unwrap();
        assert_eq!(frame.len(), NONCE_LEN + len + TAG_LEN);
        assert_eq!(crypto.decrypt(&frame), Ok(payload));
    }
}

#[test]
fn lengths_and_name_belong_to_the_cipher() {
    let crypto = cipher();
    assert_eq!(crypto.nonce_len(), 12);
    assert_eq!(crypto.tag_len(), 16);
    assert_eq!(NONCE_LEN, 12);
    assert_eq!(TAG_LEN, 16);
    assert_eq!(KEY_LEN, 32);
    assert_eq!(KEY_ITERATIONS, 1024);
    assert_eq!(MAX_MESSAGE_LEN, ((1u64 << 32) - 1) * 64);
    assert_eq!(Crypto::name(&crypto), "chacha20_poly1305");
    assert_eq!(ChaCha20Poly1305::name(), "chacha20_poly1305");
}

#[test]
fn frame_is_nonce_then_ciphertext_then_tag() {
    let crypto = cipher();
    let message = b"layout".to_vec();
    let nonce = [7u8; 12];
    let frame = crypto.seal_with(Some(nonce.to_vec()), &message).unwrap();
    let sealed = reference_seal(b"realityone", nonce, &message);
    assert_eq!(sealed.len(), message.len() + 16);
    assert_ne!(&sealed[..message.len()], &message[..]);
    assert_eq!(&frame[..12], &nonce[..]);
    assert_eq!(&frame[12..], &sealed[..]);
}

#[test]
fn key_is_stretched_from_the_password() {
    let message = b"for the other side".to_vec();
    let frame = ChaCha20Poly1305::new(b"hunter2").unwrap().encrypt(&message).unwrap();
    let mut nonce = [0u8; 12];
    nonce.copy_from_slice(&frame[..12]);
    let mut body = frame[12..].to_vec();
    let opened = reference_key(b"hunter2")
        .open_in_place(Nonce::assume_unique_for_key(nonce), Aad::empty(), &mut body)
        .unwrap();
    assert_eq!(opened, &message[..]);
    assert!(ChaCha20Poly1305::new(b"hunter3").unwrap().decrypt(&frame).is_err());
}

#[test]
fn decrypt_opens_what_another_endpoint_sealed() {
    let message = b"sealed elsewhere".to_vec();
    let nonce = [0x5Au8; 12];
    let mut frame = nonce.to_vec();
    frame.extend_from_slice(&reference_seal(b"realityone", nonce, &message));
    assert_eq!(cipher().decrypt(&frame), Ok(message));
}

#[test]
fn seal_with_refuses_a_missing_or_misshapen_nonce() {
    let crypto = cipher();
    assert_eq!(crypto.seal_with(None, b"x"), Err(Error::RandomFailed));
    assert_eq!(crypto.seal_with(Some(vec![0u8; 11]), b"x"), Err(Error::RandomFailed));
    assert_eq!(crypto.seal_with(Some(vec![0u8; 13]), b"x"), Err(Error::RandomFailed));
    assert_eq!(crypto.seal_with(Some(Vec::new()), b"x"), Err(Error::RandomFailed));
    assert!(crypto.seal_with(Some(vec![0u8; 12]), b"x").is_ok());
}

#[test]
fn nonces_are_fresh() {
    let crypto = cipher();
    let a = crypto.encrypt(b"same").unwrap();
    let b = crypto.encrypt(b"same").unwrap();
    assert_ne!(a[..12], b[..12]);
    assert_ne!(a, b);
    assert_eq!(crypto.decrypt(&a), crypto.decrypt(&b));
}

#[test]
fn flipping_any_bit_of_a_frame_is_rejected() {
    let crypto = cipher();
    let message = b"do not touch".to_vec();
    let frame = crypto.encrypt(&message).unwrap();
    for byte in 0..frame.len() {
        for bit in 0..8 {
            let mut tampered = frame.clone();
            tampered[byte] ^= 1 << bit;
            assert_eq!(crypto.decrypt(&tampered), Err(Error::InvalidMessage));
        }
    }
    assert_eq!(crypto.decrypt(&frame), Ok(message));
}

#[test]
fn short_frames_are_rejected() {
    let crypto = cipher();
    let frame = crypto.encrypt(b"").unwrap();
    assert_eq!(frame.len(), 28);
    assert_eq!(crypto.decrypt(&frame), Ok(Vec::new()));
    for len in 0..28 {
        assert_eq!(crypto.decrypt(&frame[..len]), Err(Error::InvalidMessage));
    }
    let mut longer = frame.clone();
    longer.push(0);
    assert_eq!(crypto.decrypt(&longer), Err(Error::InvalidMessage));
}

#[test]
fn frames_are_put_together_and_taken_apart() {
    assert_eq!(assemble_frame(&[1, 2, 3], &[4, 5]), vec![1, 2, 3, 4, 5]);
    assert_eq!(assemble_frame(&[], &[]), Vec::<u8>::new());
    let frame = [1u8, 2, 3, 4, 5];
    assert_eq!(split_frame(&frame, 3, 2), Some((&frame[..3], &frame[3..])));
    assert_eq!(split_frame(&frame, 3, 1), Some((&frame[..3], &frame[3..])));
    assert_eq!(split_frame(&frame, 5, 0), Some((&frame[..], &frame[5..])));
    assert_eq!(split_frame(&frame, 3, 3), None);
    assert_eq!(split_frame(&frame, 6, 0), None);
    assert_eq!(split_frame(&frame, usize::MAX, usize::MAX), None);
    assert_eq!(split_frame(&[], 12, 16), None);
}

#[test]
fn ciphers_are_selected_by_name() {
    assert_eq!(Ciphers::from("chacha20_poly1305"), Ciphers::CHACHA20_POLY1305);
    assert_eq!(Ciphers::from("anything else"), Ciphers::CHACHA20_POLY1305);
    let message = b"through the factory".to_vec();
    let made = Ciphers::CHACHA20_POLY1305.init("realityone");
    let frame = made.encrypt(&message).unwrap();
    assert_eq!(cipher().decrypt(&frame), Ok(message.clone()));
    assert_eq!(init_crypto("realityone").decrypt(&frame), Ok(message));
}
