use object_store_aws::http::{
    connect_timeouts, timeout_setting_secs, Builder, ConnectTimeouts, CryptoMode, DummyAuth,
    DEFAULT_CONNECT_TIMEOUT_SECS, DEFAULT_TIMEOUT_SECS, POOL_TIMEOUT_SECS,
};
use object_store_aws::time::TimeSpan;

#[test]
fn builder_defaults_to_three_minutes_pool_timeout() {
    let builder = Builder::new();
    assert_eq!(POOL_TIMEOUT_SECS, 180);
    assert_eq!(builder.pool_idle_timeout(), Some(TimeSpan { secs: 180, nanos: 0 }));
}

#[test]
fn zero_pool_timeout_disables_the_timeout() {
    let builder = Builder::new().with_idle_pool_timeout(TimeSpan::from_secs(0));
    assert_eq!(builder.pool_idle_timeout(), None);
}

#[test]
fn pool_timeout_is_what_was_set() {
    let builder = Builder::new().with_idle_pool_timeout(TimeSpan::from_millis(2_500)).with_ring();
    assert_eq!(builder.pool_idle_timeout(), Some(TimeSpan { secs: 2, nanos: 500_000_000 }));
    let _ = CryptoMode::Ring;
}

#[test]
fn builder_creates_https_client() {
    let client = Builder::new().create();
    let _copy = client.clone();
    let _disabled = Builder::new().with_idle_pool_timeout(TimeSpan::from_secs(0)).create();
}

#[test]
fn missing_timeouts_use_defaults() {
    assert_eq!(DEFAULT_CONNECT_TIMEOUT_SECS, 10);
    assert_eq!(DEFAULT_TIMEOUT_SECS, 30);
    assert_eq!(connect_timeouts(None, None), ConnectTimeouts { connect_secs: 10, read_secs: 30 });
}

#[test]
fn numeric_timeouts_are_seconds() {
    assert_eq!(connect_timeouts(Some("5"), Some("45")), ConnectTimeouts { connect_secs: 5, read_secs: 45 });
    assert_eq!(timeout_setting_secs(Some("+3"), 10), 3);
}

#[test]
fn unreadable_timeouts_fall_back_to_defaults() {
    assert_eq!(connect_timeouts(Some("5s"), Some("1m")), ConnectTimeouts { connect_secs: 10, read_secs: 30 });
    assert_eq!(connect_timeouts(Some(""), Some("-4")), ConnectTimeouts { connect_secs: 10, read_secs: 30 });
    assert_eq!(timeout_setting_secs(Some("99999999999999999999"), 7), 7);
}

#[test]
fn dummy_auth_offers_only_no_auth() {
    let options = DummyAuth.resolve_auth_scheme_options();
    assert_eq!(options.len(), 1);
    assert_eq!(options[0], aws_smithy_runtime_api::client::auth::AuthSchemeId::new("noAuth"));
    assert_eq!(DummyAuth::auth_schema().inner(), "noAuth");
}
