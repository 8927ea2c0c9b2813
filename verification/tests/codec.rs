use zero_to_prod::codec::{
    canonical_encode, hex_decode, hex_encode, percent_encode, sign, verify, QueryParams,
};

#[test]
fn hex_encode_exact_digits() {
    let r = hex_encode(&[0x00, 0xab, 0xff, 0x1a]);
    assert_eq!(r, b"00abff1a".to_vec());
}

#[test]
fn hex_decode_inverts_encode() {
    let bytes = vec![0u8, 1, 2, 250, 255, 16, 32];
    let enc = hex_encode(&bytes);
    assert_eq!(hex_decode(&enc), Ok(bytes));
}

#[test]
fn hex_decode_accepts_upper_case() {
    assert_eq!(hex_decode(b"AB0f"), Ok(vec![0xab, 0x0f]));
}

#[test]
fn hex_decode_rejects_odd_length_and_bad_digits() {
    assert!(hex_decode(b"abc").is_err());
    assert!(hex_decode(b"zz").is_err());
}

#[test]
fn percent_encode_keeps_unreserved_and_escapes_the_rest() {
    assert_eq!(
        percent_encode(b"Authentication failed"),
        b"Authentication%20failed".to_vec()
    );
    assert_eq!(percent_encode(b"a-b._~C9"), b"a-b._~C9".to_vec());
    assert_eq!(percent_encode(b"%&="), b"%25%26%3d".to_vec());
}

#[test]
fn canonical_encoding_prefixes_the_error_key() {
    assert_eq!(canonical_encode(b"oops"), b"error=oops".to_vec());
    assert_eq!(canonical_encode(b"a b"), b"error=a%20b".to_vec());
}

#[test]
fn sign_produces_a_sixty_four_digit_tag() {
    let tag = sign(b"Authentication failed", b"super-long-and-secret-random-key");
    assert_eq!(tag.len(), 64);
    assert!(tag.iter().all(|b| b.is_ascii_hexdigit()));
    // The tag depends on the key.
    let other = sign(b"Authentication failed", b"another-key");
    assert_ne!(tag, other);
}

#[test]
fn verify_accepts_a_genuine_tag() {
    let key = b"super-long-and-secret-random-key";
    let payload = b"Authentication failed";
    let tag = sign(payload, key);
    assert!(verify(payload, &tag, key).is_ok());
}

#[test]
fn verify_rejects_a_flipped_tag_byte() {
    let key = b"super-long-and-secret-random-key";
    let payload = b"Authentication failed";
    let mut tag = sign(payload, key);
    // Replace the first digit with a different one.
    tag[0] = if tag[0] == b'0' { b'1' } else { b'0' };
    assert!(verify(payload, &tag, key).is_err());
}

#[test]
fn verify_rejects_an_altered_payload() {
    let key = b"super-long-and-secret-random-key";
    let tag = sign(b"Authentication failed", key);
    assert!(verify(b"Authentication failed!", &tag, key).is_err());
    assert!(verify(b"authentication failed", &tag, key).is_err());
}

#[test]
fn verify_rejects_a_wrong_key() {
    let payload = b"Authentication failed";
    let tag = sign(payload, b"key-one");
    assert!(verify(payload, &tag, b"key-two").is_err());
}

#[test]
fn verify_rejects_malformed_tags() {
    let payload = b"Authentication failed";
    let key = b"key";
    assert!(verify(payload, b"abc", key).is_err());
    assert!(verify(payload, b"not hex at all!!", key).is_err());
    assert!(verify(payload, b"", key).is_err());
}

#[test]
fn query_params_verify_returns_the_payload() {
    let key = b"super-long-and-secret-random-key";
    let tag = sign(b"Authentication failed", key);
    let params = QueryParams { error: b"Authentication failed".to_vec(), tag };
    assert_eq!(params.verify(key), Ok(b"Authentication failed".to_vec()));
}

#[test]
fn query_params_verify_fails_closed_on_tampering() {
    let key = b"super-long-and-secret-random-key";
    let tag = sign(b"Authentication failed", key);
    let params = QueryParams { error: b"Authentication passed".to_vec(), tag };
    assert!(params.verify(key).is_err());
}
