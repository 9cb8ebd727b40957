use clip_verse::cipher::{decrypt_image, encrypt_image};
use clip_verse::digest::sha256_hex;

#[test]
fn encrypted_copy_decrypts_back() {
    let data: Vec<u8> = (0..=255u8).cycle().take(1000).collect();
    let enc = encrypt_image(&data, "clip-verse-default-key").unwrap();
    assert_eq!(enc.len(), 12 + data.len() + 16);
    assert_eq!(decrypt_image(&enc, "clip-verse-default-key"), Some(data));
}

#[test]
fn wrong_passphrase_fails() {
    let enc = encrypt_image(b"pixels", "right").unwrap();
    assert_eq!(decrypt_image(&enc, "wrong"), None);
}

#[test]
fn tampered_copy_fails() {
    let mut enc = encrypt_image(b"pixels", "k").unwrap();
    let last = enc.len() - 1;
    enc[last] ^= 1;
    assert_eq!(decrypt_image(&enc, "k"), None);
}

#[test]
fn short_file_fails() {
    assert_eq!(decrypt_image(&[1, 2, 3], "k"), None);
}

#[test]
fn ciphertext_hides_repeated_plaintext() {
    let data = vec![0u8; 64];
    let enc = encrypt_image(&data, "k").unwrap();
    let body = &enc[12..12 + 64];
    assert_ne!(&body[0..16], &body[16..32]);
    assert_ne!(body, &data[..]);
}

#[test]
fn nonce_is_derived_from_key_and_plaintext() {
    let enc = encrypt_image(b"abc", "k").unwrap();
    let key = hex_to_bytes(&sha256_hex(b"k"));
    let mut keyed = key.clone();
    keyed.extend_from_slice(b"abc");
    let nonce = hex_to_bytes(&sha256_hex(&keyed));
    assert_eq!(&enc[..12], &nonce[..12]);
    assert_eq!(encrypt_image(b"abc", "k").unwrap(), enc);
    assert_ne!(&encrypt_image(b"abd", "k").unwrap()[..12], &enc[..12]);
}

fn hex_to_bytes(h: &str) -> Vec<u8> {
    (0..h.len()).step_by(2).map(|i| u8::from_str_radix(&h[i..i + 2], 16).unwrap()).collect()
}
