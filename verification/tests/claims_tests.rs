use snowflake_auth::claims::build_claims;

#[test]
fn issuer_and_subject_follow_the_dotted_forms() {
    let c = build_claims("XY12345", "alice", "SHA256:abc", 1_700_000_000, 3600);
    assert_eq!(c.iss, "XY12345.ALICE.SHA256:abc");
    assert_eq!(c.sub, "XY12345.ALICE");
    assert_eq!(c.iat, 1_700_000_000);
    assert_eq!(c.exp, 1_700_003_600);
}

#[test]
fn exp_minus_iat_equals_expiry_threshold() {
    let c = build_claims("A", "u", "SHA256:x", 42, 900);
    assert_eq!(c.exp - c.iat, 900);
}

#[test]
fn username_is_uppercased_in_both_claims() {
    let c = build_claims("ACC", "MixedCase", "SHA256:f", 0, 1);
    assert_eq!(c.iss, "ACC.MIXEDCASE.SHA256:f");
    assert_eq!(c.sub, "ACC.MIXEDCASE");
}

#[test]
fn zero_expiry_threshold_gives_exp_equal_iat() {
    let c = build_claims("ACC", "u", "SHA256:f", 777, 0);
    assert_eq!(c.exp, 777);
    assert_eq!(c.iat, 777);
}
