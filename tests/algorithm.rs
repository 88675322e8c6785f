use otp_cache::OtpAlgorithm;

#[test]
fn algorithm_text_round_trip() {
    for a in [OtpAlgorithm::Hotp, OtpAlgorithm::Totp] {
        assert_eq!(OtpAlgorithm::from_str(&a.to_string()).unwrap(), a);
    }
    assert_eq!(OtpAlgorithm::Hotp.as_str(), "hotp");
    assert_eq!(OtpAlgorithm::Totp.to_string(), "totp");
}

#[test]
fn algorithm_unknown_text() {
    let e = OtpAlgorithm::from_str("TOTP").unwrap_err();
    assert_eq!(e.text, "TOTP");
    assert!(OtpAlgorithm::from_str("").is_err());
    assert!(OtpAlgorithm::from_str("hotp ").is_err());
}
