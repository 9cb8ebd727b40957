use clip_verse::digest::{hex_lower, image_fingerprint, image_fingerprint_bytes, sha256_hex, text_fingerprint};

#[test]
fn hex_is_lower_case_two_digits_per_byte() {
    assert_eq!(hex_lower(&[0x0a, 0x14, 0x1e, 0xff, 0x00]), "0a141eff00");
    assert_eq!(hex_lower(&[]), "");
}

#[test]
fn sha256_of_abc() {
    assert_eq!(
        sha256_hex(b"abc"),
        "ba7816bf8f01cfea414140de5dae2223b00361a396177a9cb410ff61f20015ad"
    );
}

#[test]
fn sha256_of_nothing() {
    assert_eq!(
        sha256_hex(b""),
        "e3b0c44298fc1c149afbf4c8996fb92427ae41e4649b934ca495991b7852b855"
    );
}

#[test]
fn text_fingerprint_hashes_utf8_bytes() {
    assert_eq!(text_fingerprint("abc"), sha256_hex(b"abc"));
    assert_eq!(text_fingerprint("图片"), sha256_hex("图片".as_bytes()));
    assert_eq!(text_fingerprint("abc").len(), 64);
}

#[test]
fn same_text_same_fingerprint_different_text_different() {
    assert_eq!(text_fingerprint("copy me"), text_fingerprint("copy me"));
    assert_ne!(text_fingerprint("copy me"), text_fingerprint("copy me!"));
}

#[test]
fn image_fingerprint_input_layout() {
    let bytes = image_fingerprint_bytes(2, 0x0102, &[9, 8, 7]);
    assert_eq!(
        bytes,
        vec![2, 0, 0, 0, 0, 0, 0, 0, 0x02, 0x01, 0, 0, 0, 0, 0, 0, 9, 8, 7]
    );
}

#[test]
fn image_fingerprint_covers_size() {
    let pixels = vec![1u8; 8];
    assert_ne!(image_fingerprint(1, 2, &pixels), image_fingerprint(2, 1, &pixels));
    let mut expected = Vec::new();
    expected.extend_from_slice(&1u64.to_le_bytes());
    expected.extend_from_slice(&2u64.to_le_bytes());
    expected.extend_from_slice(&pixels);
    assert_eq!(image_fingerprint(1, 2, &pixels), sha256_hex(&expected));
}
