use snowflake_auth::fingerprint::gen_public_key_fp;

#[test]
fn deterministic_on_same_der() {
    let der: Vec<u8> = vec![48, 130, 1, 34, 3, 7, 99];
    let a = gen_public_key_fp(&der);
    let b = gen_public_key_fp(&der);
    assert_eq!(a, b);
}

#[test]
fn always_prefixed_sha256() {
    let der: Vec<u8> = vec![1, 2, 3, 4, 5];
    let fp = gen_public_key_fp(&der);
    assert!(fp.starts_with("SHA256:"));
}

#[test]
fn exact_value_for_empty_input() {
    let fp = gen_public_key_fp(&[]);
    assert_eq!(fp, "SHA256:47DEQpj8HBSa+/TImW+5JCeuQeRkm5NMpJWZG3hSuFU=");
}

#[test]
fn matches_direct_digest_and_base64() {
    let der: Vec<u8> = vec![0, 255, 17, 34, 51, 68];
    let digest = <sha2::Sha256 as sha2::Digest>::digest(&der);
    let expected = format!("SHA256:{}", base64::encode(digest));
    assert_eq!(gen_public_key_fp(&der), expected);
}

#[test]
fn different_der_gives_different_fingerprint() {
    let a = gen_public_key_fp(&[1, 2, 3]);
    let b = gen_public_key_fp(&[1, 2, 4]);
    assert_ne!(a, b);
}
