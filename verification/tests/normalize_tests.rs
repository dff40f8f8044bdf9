use snowflake_auth::normalize::normalize_account_identifier;

#[test]
fn truncates_at_first_dot() {
    assert_eq!(normalize_account_identifier("ABC123.us-east-1"), "ABC123");
}

#[test]
fn global_without_dash_uppercases_whole() {
    assert_eq!(normalize_account_identifier("xy12345.global"), "XY12345.GLOBAL");
}

#[test]
fn global_with_dash_truncates_at_dash() {
    assert_eq!(normalize_account_identifier("xy-12345.global"), "XY");
}

#[test]
fn no_delimiter_keeps_whole_uppercased() {
    assert_eq!(normalize_account_identifier("abc123"), "ABC123");
}

#[test]
fn idempotent_on_delimiter_free_output() {
    let once = normalize_account_identifier("abc123.eu-central-1");
    assert_eq!(once, "ABC123");
    let twice = normalize_account_identifier(&once);
    assert_eq!(twice, once);
}

#[test]
fn empty_identifier_stays_empty() {
    assert_eq!(normalize_account_identifier(""), "");
}

#[test]
fn multibyte_characters_count_as_one() {
    assert_eq!(normalize_account_identifier("äöü.region"), "ÄÖÜ");
}

#[test]
fn dash_without_global_is_kept() {
    assert_eq!(normalize_account_identifier("ab-cd.ef"), "AB-CD");
}
