use matchbot::clock::current_epoch_seconds;
use matchbot::config::{env_config_from_raw, ConfigService, EnvironmentConfig, FeatureFlags};
use matchbot::errors::{MediaServiceError, StoreError};
use matchbot::text::{
    escape_markdown_v2, parse_number, parse_u32, str_eq, token_matches, tokenize, trim,
};

#[test]
fn test_escape_markdown_v2_common_chars() {
    assert_eq!(escape_markdown_v2("Hello_World*Test[]()."), "Hello\\_World\\*Test\\[\\]\\(\\)\\.");
    assert_eq!(escape_markdown_v2("No special chars"), "No special chars");
    assert_eq!(escape_markdown_v2("`code` and ~strike~"), "\\`code\\` and \\~strike\\~");
    assert_eq!(escape_markdown_v2(">#+-=|{}.!"), "\\>\\#\\+\\-\\=\\|\\{\\}\\.\\!");
    assert_eq!(escape_markdown_v2("Test-string=value"), "Test\\-string\\=value");
}

#[test]
fn test_escape_markdown_v2_empty_and_unicode() {
    assert_eq!(escape_markdown_v2(""), "");
    assert_eq!(escape_markdown_v2("Jöhn_Doé*"), "Jöhn\\_Doé\\*");
}

#[test]
fn test_trim_removes_ascii_whitespace() {
    assert_eq!(trim("  hello  "), "hello");
    assert_eq!(trim("\t\n x y \r\n"), "x y");
    assert_eq!(trim("plain"), "plain");
    assert_eq!(trim("   "), "");
    assert_eq!(trim(""), "");
}

#[test]
fn test_tokenize_splits_on_whitespace() {
    assert_eq!(tokenize("/profile edit name"), vec!["/profile", "edit", "name"]);
    assert_eq!(tokenize("  a   b  "), vec!["a", "b"]);
    assert_eq!(tokenize(""), Vec::<String>::new());
    assert_eq!(tokenize("   "), Vec::<String>::new());
    assert_eq!(tokenize("one"), vec!["one"]);
}

#[test]
fn test_parse_number_bounds() {
    assert_eq!(parse_number("0"), Some(0));
    assert_eq!(parse_number("2"), Some(2));
    assert_eq!(parse_number("042"), Some(42));
    assert_eq!(parse_number("999999"), Some(999_999));
    assert_eq!(parse_number("1234567"), None);
    assert_eq!(parse_number(""), None);
    assert_eq!(parse_number("2a"), None);
    assert_eq!(parse_number("-2"), None);
    assert_eq!(parse_number(" 2"), None);
}

#[test]
fn test_str_eq_and_token_matches() {
    assert!(str_eq("abc", "abc"));
    assert!(!str_eq("abc", "abd"));
    assert!(!str_eq("abc", "ab"));
    assert!(token_matches("/START", "/start"));
    assert!(token_matches("/Start", "/start"));
    assert!(!token_matches("/startx", "/start"));
    assert!(!token_matches("start", "/start"));
}

#[test]
fn test_current_epoch_seconds_is_recent() {
    // A sane machine clock is far past the epoch.
    assert!(current_epoch_seconds() > 1_000_000_000);
}

#[test]
fn test_environment_config_defaults() {
    let config = EnvironmentConfig::default();
    assert_eq!(config.log_level, "INFO");
    assert_eq!(config.environment, "dev");
    assert_eq!(config.session_timeout_minutes, 30);
    let flags = FeatureFlags::default();
    assert!(!flags.enable_new_matching_algorithm);
    assert!(!flags.enable_real_time_chat);
    let _service = ConfigService::new();
}

#[test]
fn test_parse_u32_bounds() {
    assert_eq!(parse_u32("0"), Some(0));
    assert_eq!(parse_u32("45"), Some(45));
    assert_eq!(parse_u32("4294967295"), Some(u32::MAX));
    assert_eq!(parse_u32("4294967296"), None);
    assert_eq!(parse_u32("12345678901"), None);
    assert_eq!(parse_u32("4x"), None);
    assert_eq!(parse_u32(""), None);
    assert_eq!(parse_u32("-1"), None);
}

#[test]
fn test_env_config_from_raw_defaults_and_overrides() {
    let config = env_config_from_raw(None, None, None);
    assert_eq!(config.environment, "dev");
    assert_eq!(config.log_level, "INFO");
    assert_eq!(config.session_timeout_minutes, 30);

    let config = env_config_from_raw(
        Some("prod".to_string()),
        Some("DEBUG".to_string()),
        Some("45"),
    );
    assert_eq!(config.environment, "prod");
    assert_eq!(config.log_level, "DEBUG");
    assert_eq!(config.session_timeout_minutes, 45);

    // A timeout that is not a whole u32 falls back to the default.
    let config = env_config_from_raw(None, None, Some("soon"));
    assert_eq!(config.session_timeout_minutes, 30);
}

#[test]
fn test_store_error_user_messages() {
    assert_eq!(
        StoreError::NotFound.user_message(),
        "Something went wrong. Please use /start to continue."
    );
    assert_eq!(
        StoreError::Conflict.user_message(),
        "Something went wrong. Please use /start to continue."
    );
    assert_eq!(StoreError::LimitExceeded.user_message(), "Media limit (5) reached.");
    assert_eq!(StoreError::Validation.user_message(), "Invalid input.");
    assert_eq!(
        StoreError::StoreUnavailable.user_message(),
        "Sorry, something is wrong on our side. Please try again later."
    );
}

#[test]
fn test_media_service_error_messages() {
    assert_eq!(
        MediaServiceError::R2OperationFailed("boom".to_string()).message(),
        "R2 operation failed: boom"
    );
    assert_eq!(
        MediaServiceError::InvalidFileName("x/y".to_string()).message(),
        "Invalid file name: x/y"
    );
    assert_eq!(MediaServiceError::UploadTooLarge.message(), "Uploaded file is too large.");
    assert_eq!(
        MediaServiceError::ConfigurationError("no bucket".to_string()).message(),
        "Configuration error: no bucket"
    );
}
