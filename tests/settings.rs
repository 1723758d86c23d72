use imd::configuration::{
    check_civitai_key_exists, check_huggingface_key_exists, Configuration, DEFAULT_INITIAL_INTERVAL,
    DEFAULT_MAX_RETRY, DEFAULT_MULTIPLIER_PERCENT,
};
use imd::transfer::{accept_response, ProgressState};
use imd::retry::FailureKind;
use imd::utils::{duration_to_sec_string, seconds_to_string};
use std::time::Duration;

#[test]
fn default_configuration_is_empty() {
    let c = Configuration::default();
    assert!(!check_civitai_key_exists(&c));
    assert!(!check_huggingface_key_exists(&c));
    assert!(!c.proxy.use_proxy);
    assert_eq!(c.backoff.initial_interval, DEFAULT_INITIAL_INTERVAL);
    assert_eq!(c.backoff.multiplier_percent, DEFAULT_MULTIPLIER_PERCENT);
    assert_eq!(c.backoff.max_retry, DEFAULT_MAX_RETRY);
}

#[test]
fn access_keys_set_and_clear() {
    let mut c = Configuration::default();
    c.set_civitai_api_key("k1".to_string());
    c.set_huggingface_api_key("k2".to_string());
    assert!(check_civitai_key_exists(&c));
    assert_eq!(c.huggingface.api_key.as_deref(), Some("k2"));
    c.clear_civitai_api_key();
    assert!(!check_civitai_key_exists(&c));
    assert!(check_huggingface_key_exists(&c));
    c.clear_huggingface_api_key();
    assert!(!check_huggingface_key_exists(&c));
}

#[test]
fn proxy_set_and_clear() {
    let mut c = Configuration::default();
    c.set_use_proxy(true);
    c.set_proxy("http".to_string(), "127.0.0.1".to_string(), Some(8080), Some("u".to_string()), None);
    assert!(c.proxy.use_proxy);
    assert_eq!(c.proxy.host.as_deref(), Some("127.0.0.1"));
    assert_eq!(c.proxy.port, Some(8080));
    c.clear_proxy();
    assert!(!c.proxy.use_proxy);
    assert!(c.proxy.host.is_none());
}

#[test]
fn retry_parameters_set_and_clear() {
    let mut c = Configuration::default();
    c.set_backoff(Some(9), None, Some(2));
    assert_eq!(c.backoff.initial_interval, 9);
    assert_eq!(c.backoff.multiplier_percent, DEFAULT_MULTIPLIER_PERCENT);
    assert_eq!(c.backoff.max_retry, 2);
    c.clear_backoff();
    assert_eq!(c.backoff.initial_interval, DEFAULT_INITIAL_INTERVAL);
}

#[test]
fn response_acceptance() {
    let p = accept_response(200, Some(1000)).unwrap();
    assert_eq!((p.bytes_transferred, p.total_bytes), (0, 1000));
    assert_eq!(accept_response(200, None).unwrap_err(), FailureKind::MissingContentLength);
    assert_eq!(accept_response(503, Some(10)).unwrap_err(), FailureKind::HttpStatus(503));
    assert_eq!(accept_response(404, None).unwrap_err(), FailureKind::HttpStatus(404));
}

#[test]
fn progress_is_clamped_to_total() {
    let mut p = ProgressState::new(100);
    p.advance(40);
    assert_eq!(p.bytes_transferred, 40);
    p.advance(50);
    assert_eq!(p.bytes_transferred, 90);
    p.advance(50);
    assert_eq!(p.bytes_transferred, 100);
    p.advance(u64::MAX);
    assert_eq!(p.bytes_transferred, 100);
}

#[test]
fn seconds_rendering() {
    assert_eq!(seconds_to_string(0), "0s");
    assert_eq!(seconds_to_string(75), "75s");
    assert_eq!(duration_to_sec_string(&Duration::from_millis(12_900)), "12s");
}
