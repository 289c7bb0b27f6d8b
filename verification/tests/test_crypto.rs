use gekidan::crypto::{digest_header, hex_to_bytes, signature_header, signing_string};

#[test]
fn digest_header_hashes_once_and_encodes_raw_bytes() {
    // The raw SHA-256 digest bytes of "hello", base64-encoded — not the hex
    // text re-encoded.
    assert_eq!(
        digest_header("hello"),
        "SHA-256=LPJNul+wow4m6DsqxbninhsWHlwfp0JecwQzYpOLmCQ="
    );
}

#[test]
fn digest_header_of_empty_body() {
    assert_eq!(
        digest_header(""),
        "SHA-256=47DEQpj8HBSa+/TImW+5JCeuQeRkm5NMpJWZG3hSuFU="
    );
}

#[test]
fn hex_to_bytes_decodes_pairs() {
    assert_eq!(hex_to_bytes("00ff10"), Some(vec![0u8, 255u8, 16u8]));
    assert_eq!(hex_to_bytes(""), Some(vec![]));
    assert_eq!(hex_to_bytes("abc"), None);
    assert_eq!(hex_to_bytes("zz"), None);
    assert_eq!(hex_to_bytes("AB"), None);
}

#[test]
fn signing_string_has_the_four_lines() {
    let s = signing_string("/inbox", "remote.example", "Mon, 01 Jan 2024 00:00:00 GMT", "SHA-256=abc");
    assert_eq!(
        s,
        "(request-target): post /inbox\nhost: remote.example\ndate: Mon, 01 Jan 2024 00:00:00 GMT\ndigest: SHA-256=abc"
    );
}

#[test]
fn signature_header_has_the_fixed_skeleton() {
    let h = signature_header("https://local/users/u1#main-key", "c2ln");
    assert_eq!(
        h,
        "keyId=\"https://local/users/u1#main-key\",algorithm=\"rsa-sha256\",headers=\"(request-target) host date digest\",signature=\"c2ln\""
    );
}
