use rey::common::config::{config_format, AppConfig, AppConfigFile, ConfigError, ConfigFormat};
use rey::common::error::{format_error_chain, CommonError};
use rey::common::result::{CommonResultExt, ResultExt};
use rey::common::time::{
    elapsed_between, elapsed_ms, from_ms, is_older_than, now_ms, now_utc, older_than, signed_millis,
    to_ms, utc_from_offset,
};
use std::io;

// Time.

#[test]
fn test_now_ms_returns_reasonable_timestamp() {
    let ts = now_ms();
    assert!(ts > 1_700_000_000_000);
    assert!(ts < 4_102_444_800_000);
}

#[test]
fn test_now_ms_is_monotonically_increasing() {
    let first = now_ms();
    let second = now_ms();
    assert!(second >= first);
}

#[test]
fn test_from_ms_to_ms_roundtrip() {
    let original = 1_700_000_000_000i64;
    let time = from_ms(original);
    let recovered = to_ms(time);
    assert_eq!(recovered, original);
}

#[test]
fn test_elapsed_ms_returns_some_for_past_timestamp() {
    let past = now_ms() - 5000;
    let elapsed = elapsed_ms(past);
    assert!(elapsed.is_some());
    assert!(elapsed.unwrap() >= 0);
}

#[test]
fn test_elapsed_ms_returns_none_for_future_timestamp() {
    let future = now_ms() + 10_000_000;
    let elapsed = elapsed_ms(future);
    assert!(elapsed.is_none());
}

#[test]
fn test_is_older_than_true_for_old_timestamp() {
    let old = now_ms() - 10_000;
    assert!(is_older_than(old, 5));
}

#[test]
fn test_is_older_than_false_for_recent_timestamp() {
    let recent = now_ms();
    assert!(!is_older_than(recent, 5));
}

#[test]
fn elapsed_between_exact_values() {
    assert_eq!(elapsed_between(10_000, 4_000), Some(6_000));
    assert_eq!(elapsed_between(4_000, 4_000), Some(0));
    assert_eq!(elapsed_between(4_000, 10_000), None);
    assert_eq!(elapsed_between(i64::MAX, -1), None);
    assert_eq!(elapsed_between(i64::MAX, 0), Some(i64::MAX));
}

#[test]
fn older_than_compares_milliseconds() {
    assert!(older_than(Some(5_001), 5));
    assert!(!older_than(Some(5_000), 5));
    assert!(!older_than(None, 0));
    assert!(older_than(Some(0), -1));
}

// Results with context.

#[test]
fn test_result_ext_context_on_ok() {
    let result: std::result::Result<i32, io::Error> = Ok(42);
    let wrapped = result.context("this should not be used");
    assert_eq!(wrapped.unwrap(), 42);
}

#[test]
fn test_result_ext_context_on_error() {
    let io_err = io::Error::new(io::ErrorKind::NotFound, "file missing");
    let result: std::result::Result<(), _> = Err(io_err);
    let wrapped = result.context("failed to read config");
    match wrapped {
        Err(CommonError::Parse(msg)) => {
            assert!(msg.contains("failed to read config"));
            assert!(msg.contains("file missing"));
        }
        _ => panic!("Expected CommonError::Parse"),
    }
}

#[test]
fn test_result_ext_with_context_lazy() {
    let io_err = io::Error::new(io::ErrorKind::PermissionDenied, "denied");
    let result: std::result::Result<(), _> = Err(io_err);
    let wrapped = result.with_context(|| format!("accessing {}", "/secret/path"));
    match wrapped {
        Err(CommonError::Parse(msg)) => {
            assert!(msg.contains("accessing /secret/path"));
            assert!(msg.contains("denied"));
        }
        _ => panic!("Expected CommonError::Parse"),
    }
}

#[test]
fn test_common_result_ext_context() {
    let err: rey::common::result::Result<i32> = Err(CommonError::Parse("original error".to_string()));
    let wrapped = CommonResultExt::context(err, "outer context");
    match wrapped {
        Err(CommonError::Parse(msg)) => {
            assert!(msg.contains("outer context"));
            assert!(msg.contains("original error"));
        }
        _ => panic!("Expected CommonError::Parse"),
    }
}

#[test]
fn context_message_is_exact() {
    let result: std::result::Result<(), io::Error> =
        Err(io::Error::new(io::ErrorKind::NotFound, "gone"));
    match result.context("open") {
        Err(CommonError::Parse(msg)) => assert_eq!(msg, "open: gone"),
        _ => panic!("Expected CommonError::Parse"),
    }
    let err: rey::common::result::Result<()> = Err(CommonError::Io("disk".to_string()));
    match CommonResultExt::context(err, "save") {
        Err(CommonError::Parse(msg)) => assert_eq!(msg, "save: I/O error: disk"),
        _ => panic!("Expected CommonError::Parse"),
    }
}

// Error messages and chains.

#[test]
fn test_format_error_chain_single() {
    let err = CommonError::Parse("something went wrong".to_string());
    let output = format_error_chain(&vec![err.to_string()]);
    assert!(output.starts_with("Error: parse error: something went wrong"));
}

#[test]
fn test_format_error_chain_with_cause() {
    let config_err = ConfigError::IoError("access denied".to_string());
    let common = CommonError::Config(config_err.clone());
    let output = format_error_chain(&vec![common.to_string(), config_err.to_string()]);
    assert!(output.contains("configuration error"));
    assert!(output.contains("Caused by:"));
    assert!(output.contains("I/O error"));
    assert!(output.contains("access denied"));
}

#[test]
fn test_format_error_chain_multi_level() {
    let io_err = io::Error::new(io::ErrorKind::NotFound, "No such file or directory");
    let parse_err = CommonError::Parse(format!("config load failed: {io_err}"));
    let output = format_error_chain(&vec![parse_err.to_string()]);
    assert!(output.contains("config load failed"));
}

#[test]
fn format_error_chain_numbers_causes_from_zero() {
    let chain = vec!["top".to_string(), "middle".to_string(), "bottom".to_string()];
    assert_eq!(
        format_error_chain(&chain),
        "Error: top\nCaused by:\n  0: middle\n  1: bottom"
    );
    assert_eq!(format_error_chain(&vec!["only".to_string()]), "Error: only");
}

#[test]
fn error_messages_are_exact() {
    assert_eq!(
        ConfigError::MissingEnvVar { name: "REY_X".to_string() }.to_string(),
        "missing environment variable: REY_X"
    );
    assert_eq!(
        ConfigError::ParseError { field: "a.toml".to_string(), source: "bad".to_string() }
            .to_string(),
        "failed to parse config field 'a.toml': bad"
    );
    assert_eq!(CommonError::Serde("eof".to_string()).to_string(), "serialization error: eof");
    assert_eq!(CommonError::Io("eof".to_string()).to_string(), "I/O error: eof");
    assert_eq!(
        CommonError::Config(ConfigError::IoError("x".to_string())).to_string(),
        "configuration error: I/O error: x"
    );
}

// Configuration.

#[test]
fn from_values_uses_defaults_when_nothing_is_set() {
    let config = AppConfig::from_values(None, None, Some("/work".to_string()), None, None, None);
    assert_eq!(config.server_url, "http://localhost:3002");
    assert_eq!(config.log_level, "info");
    assert_eq!(config.db_path, "/work/rey.db");
    assert_eq!(config.cache_dir, "/tmp/rey");
}

#[test]
fn from_values_prefers_the_variables() {
    let config = AppConfig::from_values(
        Some("https://api.example.com".to_string()),
        Some("/tmp/test.db".to_string()),
        Some("/work".to_string()),
        Some("/c".to_string()),
        Some("/home/u/.cache".to_string()),
        Some("debug".to_string()),
    );
    assert_eq!(config.server_url, "https://api.example.com");
    assert_eq!(config.db_path, "/tmp/test.db");
    assert_eq!(config.cache_dir, "/c");
    assert_eq!(config.log_level, "debug");
    let config = AppConfig::from_values(None, None, None, None, Some("/home/u/.cache".to_string()), None);
    assert_eq!(config.db_path, "./rey.db");
    assert_eq!(config.cache_dir, "/home/u/.cache/rey");
}

#[test]
fn into_app_config_overrides_defaults() {
    let defaults = AppConfig::from_values(None, None, Some("/w".to_string()), None, None, None);
    let file = AppConfigFile {
        server_url: Some("https://test.example.com".to_string()),
        db_path: None,
        cache_dir: Some("/cache".to_string()),
        log_level: Some("trace".to_string()),
    };
    let config = file.into_app_config(defaults);
    assert_eq!(config.server_url, "https://test.example.com");
    assert_eq!(config.db_path, "/w/rey.db");
    assert_eq!(config.cache_dir, "/cache");
    assert_eq!(config.log_level, "trace");
}

#[test]
fn config_format_by_extension() {
    assert_eq!(config_format(Some("toml")).unwrap(), ConfigFormat::Toml);
    assert_eq!(config_format(Some("json")).unwrap(), ConfigFormat::Json);
    for ext in [Some("yaml"), Some("TOML"), Some(""), None] {
        match config_format(ext) {
            Err(ConfigError::ParseError { field, source }) => {
                assert_eq!(field, "extension");
                assert_eq!(source, "Unsupported config file format. Use .toml or .json");
            }
            _ => panic!("expected a parse error"),
        }
    }
}

#[test]
fn common_error_from_io_and_config() {
    let io_err = io::Error::new(io::ErrorKind::NotFound, "file not found");
    let common: CommonError = io_err.into();
    match &common {
        CommonError::Io(m) => assert_eq!(m, "file not found"),
        _ => panic!("Expected CommonError::Io"),
    }
    let common: CommonError = ConfigError::IoError("x".to_string()).into();
    assert!(matches!(common, CommonError::Config(ConfigError::IoError(_))));
}

#[test]
fn signed_millis_before_and_after_the_epoch() {
    assert_eq!(signed_millis(Ok(1500)), 1500);
    assert_eq!(signed_millis(Ok(0)), 0);
    assert_eq!(signed_millis(Err(250)), -250);
    assert_eq!(signed_millis(Err(i64::MAX as u128)), -i64::MAX);
    assert_eq!(signed_millis(Err(i64::MAX as u128 + 1)), i64::MIN);
    assert_eq!(signed_millis(Err(u128::MAX)), i64::MIN);
    assert_eq!(signed_millis(Ok((1u128 << 64) | 5)), 5);
}

#[test]
fn now_utc_agrees_with_now_ms() {
    let before = now_ms();
    let t = now_utc();
    let after = now_ms();
    let m = t.millis().expect("the clock is after the epoch") as i64;
    assert!(before <= m && m <= after);
}

#[test]
fn utc_from_offset_before_and_after_the_epoch() {
    assert_eq!(utc_from_offset(Ok(1500)).millis(), Some(1500));
    assert_eq!(utc_from_offset(Ok(0)).millis(), Some(0));
    assert_eq!(utc_from_offset(Err(250)).millis(), None);
}
