use void_bootstrap::validation::{
    validate_hostname, validate_locale, validate_timezone, validate_username,
};

#[test]
fn hostname_valid() {
    assert!(validate_hostname("voidlinux").is_ok());
    assert!(validate_hostname("my-host").is_ok());
    assert!(validate_hostname("a").is_ok());
}

#[test]
fn hostname_rejects_empty() {
    assert!(validate_hostname("").is_err());
}

#[test]
fn hostname_rejects_leading_dash() {
    assert!(validate_hostname("-bad").is_err());
}

#[test]
fn hostname_rejects_trailing_dash() {
    assert!(validate_hostname("bad-").is_err());
}

#[test]
fn hostname_rejects_special_chars() {
    assert!(validate_hostname("host.name").is_err());
    assert!(validate_hostname("host_name").is_err());
    assert!(validate_hostname("host name").is_err());
}

#[test]
fn hostname_rejects_oversized() {
    let long = "a".repeat(254);
    assert!(validate_hostname(&long).is_err());
}

#[test]
fn hostname_accepts_max_length() {
    let max = "a".repeat(253);
    assert!(validate_hostname(&max).is_ok());
}

#[test]
fn username_valid() {
    assert!(validate_username("baobao").is_ok());
    assert!(validate_username("_svc").is_ok());
    assert!(validate_username("user-1").is_ok());
    assert!(validate_username("a1_b2").is_ok());
}

#[test]
fn username_rejects_uppercase_start() {
    assert!(validate_username("Admin").is_err());
}

#[test]
fn username_rejects_digit_start() {
    assert!(validate_username("1user").is_err());
}

#[test]
fn username_rejects_dash_start() {
    assert!(validate_username("-user").is_err());
}

#[test]
fn username_rejects_oversized() {
    let long = "a".repeat(33);
    assert!(validate_username(&long).is_err());
}

#[test]
fn username_accepts_max_length() {
    let max = "a".repeat(32);
    assert!(validate_username(&max).is_ok());
}

#[test]
fn locale_valid_standard() {
    assert!(validate_locale("en_US.UTF-8").is_ok());
    assert!(validate_locale("ja_JP.EUC-JP").is_ok());
    assert!(validate_locale("ko_KR.EUC-KR").is_ok());
}

#[test]
fn locale_valid_special() {
    assert!(validate_locale("C").is_ok());
    assert!(validate_locale("POSIX").is_ok());
}

#[test]
fn locale_rejects_invalid_encoding() {
    assert!(validate_locale("en_US.GARBAGE").is_err());
}

#[test]
fn locale_rejects_bad_territory() {
    assert!(validate_locale("en_USXX.UTF-8").is_err());
}

#[test]
fn locale_rejects_missing_territory() {
    assert!(validate_locale("en.UTF-8").is_err());
}

#[test]
fn locale_rejects_empty() {
    assert!(validate_locale("").is_err());
}

// The zoneinfo lookup is the caller's: these pass what it finds for each
// zone (a present America/Phoenix; /etc/passwd, which exists; a missing
// Fake/Zone).

#[test]
fn timezone_valid_with_real_path() {
    assert!(validate_timezone("America/Phoenix", true).is_ok());
}

#[test]
fn timezone_rejects_traversal() {
    assert!(validate_timezone("../../etc/passwd", true).is_err());
}

#[test]
fn timezone_rejects_nonexistent() {
    assert!(validate_timezone("Fake/Zone", false).is_err());
}

// ── Further cases ───────────────────────────────────────────────

#[test]
fn validation_messages() {
    assert_eq!(
        validate_hostname("").unwrap_err(),
        "Invalid hostname format. Please try again."
    );
    assert_eq!(validate_username("X").unwrap_err(), "Invalid username format. Try again.");
    assert_eq!(
        validate_locale("x").unwrap_err(),
        "Invalid locale format (e.g., en_US.UTF-8). Please try again."
    );
    assert_eq!(
        validate_timezone("Fake/Zone", false).unwrap_err(),
        "Timezone not found or invalid format. Please try again."
    );
}

#[test]
fn hostname_edge_cases() {
    assert!(validate_hostname("-").is_err());
    assert!(validate_hostname("a-b-c").is_ok());
    assert!(validate_hostname("HOST9").is_ok());
    assert!(validate_hostname("hóst").is_err());
}

#[test]
fn username_edge_cases() {
    assert!(validate_username("").is_err());
    assert!(validate_username("_").is_ok());
    assert!(validate_username("a.b").is_err());
    assert!(validate_username("ab-").is_ok());
}

#[test]
fn locale_edge_cases() {
    assert!(validate_locale("de_DE.ISO8859-15").is_ok());
    assert!(validate_locale("en_us.UTF-8").is_err());
    assert!(validate_locale("EN_US.UTF-8").is_err());
    assert!(validate_locale("en_US.UTF-8.x").is_err());
    assert!(validate_locale("en_US").is_err());
    assert!(validate_locale("c").is_err());
}

#[test]
fn timezone_form() {
    assert!(validate_timezone("Etc/GMT+5", true).is_ok());
    assert!(validate_timezone("America/Phoenix", false).is_err());
    assert!(validate_timezone("Europe/..x", true).is_err());
    assert!(validate_timezone("Bad Zone", true).is_err());
}
