use age_otp::engine::OtpEngine;
use age_otp::error::{Error, GenerationError, KeyError, VerificationError};
use age_otp::types::{compute_hmac, truncate, validate_code_len, validate_skew_steps, validate_step_secs};
use age_otp::{Charset, OtpCode, OtpSeed, PublicKey};

const TEST_PK: &str = "age1ysxuaeqlk7xd8uqsh8lsnfwt9jzzjlqf49ruhpjrrj5yatlcuf7qke4pqe";
const TEST_SEED_HEX: &str = "4d1e4c5705c7b222f5f206025ea02b99a7a307ff1e2a36d2f90142aef073bf70";

fn engine() -> OtpEngine {
    OtpEngine::from_public_key(&PublicKey::new(TEST_PK.into()).unwrap()).unwrap()
}

#[test]
fn seed_of_known_key() {
    let seed = OtpSeed::from_key_text(TEST_PK).unwrap();
    assert_eq!(seed.to_hex(), TEST_SEED_HEX);
    assert_eq!(engine().seed().to_hex(), TEST_SEED_HEX);
}

#[test]
fn hmac_of_known_step() {
    let tag = compute_hmac(&[1u8; 32], 100).unwrap();
    let hex = OtpSeed::from_bytes(tag).to_hex();
    assert_eq!(hex, "e8b60c65960c440e46fc721cf27a1b63854ff61c8dde492fe97d40f87a455879");
}

#[test]
fn truncation_of_known_hashes() {
    let ab = [0xABu8; 32];
    assert_eq!(truncate(&ab, Charset::Numeric, 6).unwrap(), "154539");
    assert_eq!(truncate(&ab, Charset::Numeric, 16).unwrap(), "0000002880154539");
    let long = truncate(&ab, Charset::Numeric, 64).unwrap();
    assert_eq!(long.len(), 64);
    assert!(long.ends_with("0000002880154539"));
    assert!(long[..54].chars().all(|c| c == '0'));
    assert_eq!(truncate(&ab, Charset::HexLower, 16).unwrap(), "00000000abababab");
    assert_eq!(truncate(&ab, Charset::AlphanumericUpper, 8).unwrap(), "01BMRPGR");
    let fortytwo = [0x42u8; 32];
    assert_eq!(truncate(&fortytwo, Charset::Numeric, 8).unwrap(), "11638594");
    assert_eq!(truncate(&fortytwo, Charset::HexLower, 16).unwrap(), "0000000042424242");
}

#[test]
fn codes_of_known_steps() {
    let e = engine();
    assert_eq!(e.generate(6, 1000, 30, Charset::Numeric).unwrap().as_str(), "592439");
    assert_eq!(e.generate(6, 1001, 30, Charset::Numeric).unwrap().as_str(), "348123");
    assert_eq!(e.generate(6, 999, 30, Charset::Numeric).unwrap().as_str(), "791330");
    assert_eq!(e.generate(6, 1000, 30, Charset::Numeric).unwrap().born_at(), 30000);
}

#[test]
fn raw_code_verifies_within_its_window() {
    let e = engine();
    assert!(e.verify_raw_at("592439", 6, 1000, 30, 30, Charset::Numeric, 30000).is_ok());
    assert!(e.verify_raw_at("592439", 6, 1000, 30, 30, Charset::Numeric, 30029).is_ok());
    match e.verify_raw_at("592439", 6, 1000, 30, 30, Charset::Numeric, 30030) {
        Err(Error::Verification(VerificationError::Expired(at, now))) => {
            assert_eq!((at, now), (30030, 30030));
        }
        _ => panic!("expected expiry"),
    }
    match e.verify_raw_at("592439", 6, 1000, 30, 30, Charset::Numeric, 29999) {
        Err(Error::Verification(VerificationError::Expired(at, now))) => {
            assert_eq!((at, now), (30030, 29999));
        }
        _ => panic!("expected expiry"),
    }
    assert!(matches!(
        e.verify_raw_at("348123", 6, 1000, 30, 30, Charset::Numeric, 30000),
        Err(Error::Verification(VerificationError::Mismatch))
    ));
}

#[test]
fn code_object_verifies_within_its_window() {
    let e = engine();
    let code = e.generate(6, 1000, 30, Charset::Numeric).unwrap();
    assert!(e.verify_at(&code, 1000, 60, 30, Charset::Numeric, 30059).is_ok());
    assert!(matches!(
        e.verify_at(&code, 1000, 60, 30, Charset::Numeric, 30060),
        Err(Error::Verification(VerificationError::Expired(30060, 30060)))
    ));
    assert!(matches!(
        e.verify_at(&code, 1001, 60, 30, Charset::Numeric, 30000),
        Err(Error::Verification(VerificationError::Mismatch))
    ));
    let short = OtpCode::new("123".into(), 1000, 30).unwrap();
    assert!(matches!(
        e.verify_at(&short, 1000, 60, 30, Charset::Numeric, 30000),
        Err(Error::Generation(GenerationError::InvalidLength(_)))
    ));
}

#[test]
fn skew_finds_neighbouring_steps() {
    let e = engine();
    assert!(e.verify_with_skew_at("592439", 6, 1001, 30, 30, Charset::Numeric, 1, 30000).is_ok());
    assert!(e.verify_with_skew_at("592439", 6, 999, 30, 30, Charset::Numeric, 1, 30000).is_ok());
    assert!(matches!(
        e.verify_with_skew_at("592439", 6, 1002, 30, 30, Charset::Numeric, 1, 30000),
        Err(Error::Verification(VerificationError::Mismatch))
    ));
    assert!(matches!(
        e.verify_with_skew_at("592439", 6, 1001, 30, 30, Charset::Numeric, 1, 40000),
        Err(Error::Verification(VerificationError::Expired(30030, 40000)))
    ));
}

#[test]
fn zero_skew_agrees_with_raw_verification() {
    let e = engine();
    for (raw, now) in [("592439", 30000), ("592439", 30030), ("348123", 30000), ("12a456", 30000)] {
        let a = e.verify_raw_at(raw, 6, 1000, 30, 30, Charset::Numeric, now);
        let b = e.verify_with_skew_at(raw, 6, 1000, 30, 30, Charset::Numeric, 0, now);
        assert_eq!(a.err().map(|x| x.to_string()), b.err().map(|x| x.to_string()));
    }
}

#[test]
fn skew_scan_reports_overflowing_steps() {
    let e = engine();
    assert!(matches!(
        e.verify_with_skew_at("000000", 6, u64::MAX, 30, 30, Charset::Numeric, 0, 0),
        Err(Error::Generation(GenerationError::Overflow))
    ));
    assert!(matches!(
        e.generate(6, u64::MAX, 2, Charset::Numeric),
        Err(Error::Generation(GenerationError::Overflow))
    ));
}

#[test]
fn key_errors_and_messages() {
    match OtpSeed::from_key_text("") {
        Err(e) => assert_eq!(e.to_string(), "Key error: Key is empty"),
        Ok(_) => panic!("empty key accepted"),
    }
    match OtpSeed::from_key_text("ssh-rsa AAAA") {
        Err(Error::Key(KeyError::InvalidPrefix(p))) => assert_eq!(p, "ssh-rsa AA"),
        _ => panic!("prefix accepted"),
    }
    match OtpSeed::from_key_text("ssh-rsa AAAA") {
        Err(e) => assert_eq!(e.to_string(), "Key error: Invalid prefix: expected 'age1', got 'ssh-rsa AA'"),
        Ok(_) => panic!("prefix accepted"),
    }
    match OtpSeed::from_key_text("age1!!!!invalid!!!") {
        Err(e) => assert!(e.to_string().starts_with("Key error: Bech32 decode failed: Bech32 parse error: ")),
        Ok(_) => panic!("bad bech32 accepted"),
    }
    match OtpSeed::from_key_text("age1qqqsyqcyq5rqwzqfpg9scrgwpunevqvv") {
        Err(e) => {
            assert!(matches!(e, Error::Key(KeyError::InvalidDecodedLength(16))));
            assert_eq!(e.to_string(), "Key error: Invalid decoded length: expected 32 bytes, got 16");
        }
        Ok(_) => panic!("short key accepted"),
    }
}

#[test]
fn parameter_errors_and_messages() {
    assert_eq!(
        validate_code_len(3).unwrap_err().to_string(),
        "Generation error: Invalid length: code length must be 4-64, got 3"
    );
    assert!(validate_code_len(4).is_ok() && validate_code_len(64).is_ok());
    assert_eq!(
        validate_step_secs(0).unwrap_err().to_string(),
        "Generation error: Truncation failed: step_secs must be 1-3600, got 0"
    );
    assert!(validate_step_secs(1).is_ok() && validate_step_secs(3600).is_ok());
    assert_eq!(
        validate_skew_steps(11).unwrap_err().to_string(),
        "Verification error: Invalid format: skew_steps must be <= 10, got 11"
    );
    assert!(validate_skew_steps(10).is_ok());
    assert_eq!(
        Error::Generation(GenerationError::Overflow).to_string(),
        "Generation error: Overflow computing born time"
    );
    assert_eq!(Error::Generation(GenerationError::HmacFailed).to_string(), "Generation error: HMAC failed");
    assert_eq!(
        Error::Verification(VerificationError::Expired(30030, 30031)).to_string(),
        "Verification error: Expired at 30030, current 30031"
    );
    assert_eq!(
        Error::Verification(VerificationError::Mismatch).to_string(),
        "Verification error: Code mismatch"
    );
    let e = engine();
    assert_eq!(
        e.verify_raw_at("12345", 6, 1000, 30, 30, Charset::Numeric, 0).unwrap_err().to_string(),
        "Verification error: Invalid format: expected length 6, got 5"
    );
    assert_eq!(
        e.verify_raw_at("abcdef", 6, 1000, 30, 30, Charset::Numeric, 0).unwrap_err().to_string(),
        "Verification error: Invalid format: invalid charset"
    );
}

#[test]
fn seed_debug_text_shows_eight_digits() {
    let seed = OtpSeed::from_bytes([0xABu8; 32]);
    assert_eq!(seed.debug_text(), "OtpSeed { hex_prefix: \"abababab\", .. }");
    let engine = OtpEngine::from_seed(seed);
    assert_eq!(engine.debug_text(), "OtpEngine { seed: OtpSeed { hex_prefix: \"abababab\", .. } }");
}

#[test]
fn code_accessors() {
    let code = OtpCode::new("123456".into(), 100, 30).unwrap();
    assert_eq!(code.as_str(), "123456");
    assert_eq!(code.len(), 6);
    assert!(!code.is_empty());
    assert!(OtpCode::new(String::new(), 0, 30).unwrap().is_empty());
    assert!(code.is_valid_at(u64::MAX - 1, u64::MAX));
    let late = OtpCode::new("123456".into(), u64::MAX / 2, 2).unwrap();
    assert_eq!(late.born_at(), u64::MAX - 1);
    assert!(late.is_valid_at(u64::MAX, 10));
    assert!(!late.is_valid_at(u64::MAX, 1));
    assert!(!late.is_valid_at(u64::MAX - 2, 10));
}

#[test]
fn charset_default_is_numeric() {
    assert_eq!(Charset::default(), Charset::Numeric);
}

#[test]
fn code_debug_text_is_masked() {
    let code = OtpCode::new("123456".into(), 100, 30).unwrap();
    assert_eq!(code.debug_text(), "OtpCode { code: \"12***\", born: 3000 }");
    let short = OtpCode::new("7".into(), 0, 30).unwrap();
    assert_eq!(short.debug_text(), "OtpCode { code: \"***\", born: 0 }");
    let quoted = OtpCode::new("\"x\"".into(), 1, 1).unwrap();
    assert_eq!(quoted.debug_text(), "OtpCode { code: \"\\\"x***\", born: 1 }");
}

#[test]
fn window_end_past_u64_max_still_holds() {
    let code = OtpCode::new("123456".into(), u64::MAX, 1).unwrap();
    assert!(code.is_valid_at(u64::MAX, 1));
    assert!(code.is_valid_at(u64::MAX, u64::MAX));
    assert!(!code.is_valid_at(u64::MAX, 0));
    assert!(!code.is_valid_at(u64::MAX - 1, u64::MAX));
}
