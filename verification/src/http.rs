//! HTTP client based on aws-smithy-http-client, for use as the connector of an object store.

use vstd::prelude::*;
use crate::decimal::{decimal_digits, lemma_parse_decimal_round_trip, parse_u64, parse_u64_spec};
use crate::time::TimeSpan;

verus! {

#[verifier::external_type_specification]
#[verifier::external_body]
pub struct ExSharedHttpClient(aws_smithy_runtime_api::client::http::SharedHttpClient);

#[verifier::external_type_specification]
#[verifier::external_body]
pub struct ExSharedHttpConnector(aws_smithy_runtime_api::client::http::SharedHttpConnector);

#[verifier::external_type_specification]
#[verifier::external_body]
pub struct ExHttpConnectorSettings(aws_smithy_runtime_api::client::http::HttpConnectorSettings);

#[verifier::external_type_specification]
#[verifier::external_body]
pub struct ExRuntimeComponents(aws_smithy_runtime_api::client::runtime_components::RuntimeComponents);

#[verifier::external_type_specification]
#[verifier::external_body]
pub struct ExAuthSchemeId(aws_smithy_runtime_api::client::auth::AuthSchemeId);

#[verifier::external_type_specification]
#[verifier::external_body]
pub struct ExClientOptions(object_store::ClientOptions);

/// `Clone` of `SharedHttpClient`: derived over its one `Arc` field, so the
/// copy is the same handle.
pub assume_specification[ <aws_smithy_runtime_api::client::http::SharedHttpClient as Clone>::clone ](
    client: &aws_smithy_runtime_api::client::http::SharedHttpClient,
) -> (r: aws_smithy_runtime_api::client::http::SharedHttpClient)
    ensures
        r == *client,
;

/// `Clone` of `SharedHttpConnector`: derived over its one `Arc` field, so the
/// copy is the same handle.
pub assume_specification[ <aws_smithy_runtime_api::client::http::SharedHttpConnector as Clone>::clone ](
    connector: &aws_smithy_runtime_api::client::http::SharedHttpConnector,
) -> (r: aws_smithy_runtime_api::client::http::SharedHttpConnector)
    ensures
        r == *connector,
;

/// `Clone` of `RuntimeComponents`: derived over its fields, which hold shared
/// handles (`Arc`s) and plain values, so the copy holds the same components.
pub assume_specification[ <aws_smithy_runtime_api::client::runtime_components::RuntimeComponents as Clone>::clone ](
    components: &aws_smithy_runtime_api::client::runtime_components::RuntimeComponents,
) -> (r: aws_smithy_runtime_api::client::runtime_components::RuntimeComponents)
    ensures
        r == *components,
;

/// Default idle timeout of the connection pool, in seconds (three minutes).
///
/// Load balancers commonly close idle connections after a short while, so
/// there is no sense in keeping one for longer than that.
pub const POOL_TIMEOUT_SECS: u64 = 180;

/// Connect timeout, in seconds, used when the client options set none that reads as a number.
pub const DEFAULT_CONNECT_TIMEOUT_SECS: u64 = 10;

/// Read timeout, in seconds, used when the client options set none that reads as a number.
pub const DEFAULT_TIMEOUT_SECS: u64 = 30;

/// Crypto backend of the TLS layer.
///
/// This build carries the `ring` backend of rustls.
#[derive(Clone, Copy, Debug, PartialEq, Eq)]
pub enum CryptoMode {
    /// rustls with the ring crypto backend.
    Ring,
}

/// What a [`Builder`] holds.
pub struct BuilderView {
    pub crypto: CryptoMode,
    pub idle_pool_timeout: TimeSpan,
}

/// [`AwsSmithyHttpConnector`] builder.
#[derive(Clone, Debug)]
pub struct Builder {
    crypto: CryptoMode,
    idle_pool_timeout: TimeSpan,
}

impl View for Builder {
    type V = BuilderView;

    closed spec fn view(&self) -> BuilderView {
        BuilderView { crypto: self.crypto, idle_pool_timeout: self.idle_pool_timeout }
    }
}

impl Builder {
    /// A builder is well formed when its idle timeout is.
    pub closed spec fn wf(&self) -> bool {
        self.idle_pool_timeout.wf()
    }

    /// Creates the default builder: ring crypto and an idle pool timeout of three minutes.
    pub fn new() -> (r: Builder)
        ensures
            r.wf(),
            r@.crypto == CryptoMode::Ring,
            r@.idle_pool_timeout == (TimeSpan { secs: POOL_TIMEOUT_SECS, nanos: 0 }),
    {
        Builder { crypto: CryptoMode::Ring, idle_pool_timeout: TimeSpan::from_secs(POOL_TIMEOUT_SECS) }
    }

    /// Selects the ring crypto backend.
    pub fn with_ring(self) -> (r: Builder)
        ensures
            r.wf() == self.wf(),
            r@.crypto == CryptoMode::Ring,
            r@.idle_pool_timeout == self@.idle_pool_timeout,
    {
        Builder { crypto: CryptoMode::Ring, ..self }
    }

    /// Sets the idle timeout of the connection pool; zero disables the timeout,
    /// which is not recommended.
    pub fn with_idle_pool_timeout(self, timeout: TimeSpan) -> (r: Builder)
        requires
            timeout.wf(),
        ensures
            r.wf(),
            r@.crypto == self@.crypto,
            r@.idle_pool_timeout == timeout,
    {
        Builder { idle_pool_timeout: timeout, ..self }
    }

    /// The idle timeout handed to the connection pool: none when the builder's
    /// timeout is zero, the timeout otherwise.
    pub fn pool_idle_timeout(&self) -> (r: Option<TimeSpan>)
        ensures
            r == (if self@.idle_pool_timeout.total_nanos() == 0 {
                None
            } else {
                Some(self@.idle_pool_timeout)
            }),
    {
        if self.idle_pool_timeout.is_zero() {
            None
        } else {
            Some(self.idle_pool_timeout)
        }
    }

    /// Builds the HTTPS client with the selected crypto backend and the pool
    /// idle timeout (none when the builder's timeout is zero).
    pub fn create(&self) -> (r: aws_smithy_runtime_api::client::http::SharedHttpClient)
        requires
            self.wf(),
        ensures
            spec_client_crypto(r) == self@.crypto,
            spec_client_pool_idle_timeout(r) == (if self@.idle_pool_timeout.total_nanos() == 0 {
                None
            } else {
                Some(self@.idle_pool_timeout)
            }),
    {
        build_https_client(self.crypto, self.pool_idle_timeout())
    }
}

/// The crypto backend that an HTTPS client was built with.
pub uninterp spec fn spec_client_crypto(client: aws_smithy_runtime_api::client::http::SharedHttpClient) -> CryptoMode;

/// The idle timeout of the connection pool that an HTTPS client was built
/// with (none: no timeout).
pub uninterp spec fn spec_client_pool_idle_timeout(
    client: aws_smithy_runtime_api::client::http::SharedHttpClient,
) -> Option<TimeSpan>;

/// Builds an HTTPS client with `aws_smithy_http_client::Builder`: `new`, then
/// `tls_provider` with rustls and the given crypto backend, then
/// `pool_idle_timeout`, then `build_https`.
///
/// The client is a fresh shared handle, so it gets no name; the source shows
/// that it keeps the crypto backend and the pool idle timeout it was built
/// with, named [`spec_client_crypto`] and [`spec_client_pool_idle_timeout`].
#[verifier::external_body]
fn build_https_client(
    crypto: CryptoMode,
    pool_idle_timeout: Option<TimeSpan>,
) -> (r: aws_smithy_runtime_api::client::http::SharedHttpClient)
    requires
        pool_idle_timeout matches Some(t) ==> t.wf(),
    ensures
        spec_client_crypto(r) == crypto,
        spec_client_pool_idle_timeout(r) == pool_idle_timeout,
{
    let provider = match crypto {
        CryptoMode::Ring => aws_smithy_http_client::tls::Provider::Rustls(
            aws_smithy_http_client::tls::rustls_provider::CryptoMode::Ring,
        ),
    };
    let timeout = match pool_idle_timeout {
        Some(t) => Some(std::time::Duration::new(t.secs, t.nanos)),
        None => None,
    };
    aws_smithy_http_client::Builder::new().tls_provider(provider).pool_idle_timeout(timeout).build_https()
}

/// Seconds of a timeout setting: the number that `value` writes, or `default`
/// when there is no value or it does not read as a `u64`.
pub open spec fn setting_secs(value: Option<Seq<char>>, default: u64) -> u64 {
    match value {
        Some(v) => match parse_u64_spec(v) {
            Some(n) => n,
            None => default,
        },
        None => default,
    }
}

/// Seconds of a timeout setting, read as [`setting_secs`] says.
pub fn timeout_setting_secs(value: Option<&str>, default: u64) -> (r: u64)
    ensures
        r == setting_secs(
            match value {
                Some(v) => Some(v@),
                None => None,
            },
            default,
        ),
{
    match value {
        Some(v) => match parse_u64(v) {
            Some(n) => n,
            None => default,
        },
        None => default,
    }
}

/// A timeout setting that writes a number of seconds in decimal gives that
/// number of seconds, whatever the default.
pub proof fn lemma_numeric_setting_is_used(secs: u64, default: u64)
    ensures
        setting_secs(Some(decimal_digits(secs as nat)), default) == secs,
{
    lemma_parse_decimal_round_trip(secs);
}

/// The timeouts of a connection, in seconds.
#[derive(Clone, Copy, Debug, PartialEq, Eq)]
pub struct ConnectTimeouts {
    /// Timeout for establishing a connection.
    pub connect_secs: u64,
    /// Timeout for reading a response.
    pub read_secs: u64,
}

/// The timeouts of a connection from the client options' connect timeout and
/// timeout values (10 and 30 seconds where a value is missing or not a number).
pub fn connect_timeouts(connect_value: Option<&str>, timeout_value: Option<&str>) -> (r: ConnectTimeouts)
    ensures
        r.connect_secs == setting_secs(
            match connect_value {
                Some(v) => Some(v@),
                None => None,
            },
            DEFAULT_CONNECT_TIMEOUT_SECS,
        ),
        r.read_secs == setting_secs(
            match timeout_value {
                Some(v) => Some(v@),
                None => None,
            },
            DEFAULT_TIMEOUT_SECS,
        ),
{
    ConnectTimeouts {
        connect_secs: timeout_setting_secs(connect_value, DEFAULT_CONNECT_TIMEOUT_SECS),
        read_secs: timeout_setting_secs(timeout_value, DEFAULT_TIMEOUT_SECS),
    }
}

/// The client options that the connector reads.
#[derive(Clone, Copy, Debug, PartialEq, Eq)]
pub enum ClientSetting {
    /// `ClientConfigKey::ConnectTimeout`.
    ConnectTimeout,
    /// `ClientConfigKey::Timeout`.
    Timeout,
}

/// The value that `object_store::ClientOptions::get_config_value` gives for a setting.
pub uninterp spec fn spec_config_value(options: object_store::ClientOptions, setting: ClientSetting) -> Option<Seq<char>>;

/// Reads a value of the client options with
/// `object_store::ClientOptions::get_config_value`, named [`spec_config_value`].
#[verifier::external_body]
fn client_setting(options: &object_store::ClientOptions, setting: ClientSetting) -> (r: Option<String>)
    ensures
        match r {
            Some(v) => spec_config_value(*options, setting) == Some(v@),
            None => spec_config_value(*options, setting) is None,
        },
{
    let key = match setting {
        ClientSetting::ConnectTimeout => object_store::ClientConfigKey::ConnectTimeout,
        ClientSetting::Timeout => object_store::ClientConfigKey::Timeout,
    };
    options.get_config_value(&key)
}

/// The connect timeout of connector settings (`HttpConnectorSettings::connect_timeout`).
pub uninterp spec fn spec_settings_connect_timeout(
    settings: aws_smithy_runtime_api::client::http::HttpConnectorSettings,
) -> Option<TimeSpan>;

/// The read timeout of connector settings (`HttpConnectorSettings::read_timeout`).
pub uninterp spec fn spec_settings_read_timeout(
    settings: aws_smithy_runtime_api::client::http::HttpConnectorSettings,
) -> Option<TimeSpan>;

/// Builds connector settings with
/// `aws_smithy_runtime_api::client::http::HttpConnectorSettings::builder`,
/// setting the read timeout and the connect timeout to the given seconds.
/// As the source shows, `build` keeps the two timeouts that were set, which
/// the getters then return.
#[verifier::external_body]
fn connector_settings(
    timeouts: ConnectTimeouts,
) -> (r: aws_smithy_runtime_api::client::http::HttpConnectorSettings)
    ensures
        spec_settings_connect_timeout(r) == Some(TimeSpan { secs: timeouts.connect_secs, nanos: 0 }),
        spec_settings_read_timeout(r) == Some(TimeSpan { secs: timeouts.read_secs, nanos: 0 }),
{
    aws_smithy_runtime_api::client::http::HttpConnectorSettings::builder()
        .read_timeout(std::time::Duration::from_secs(timeouts.read_secs))
        .connect_timeout(std::time::Duration::from_secs(timeouts.connect_secs))
        .build()
}

/// Whether `connector` is what `HttpClient::http_connector` of `client` handed
/// out when it was asked with `settings` and `components`.
///
/// This is a relation and not a function of the arguments: a client may keep
/// its connectors and hand the same one out to several requests (the client
/// of aws-smithy-http-client does so for settings with equal timeouts), and
/// a fresh connector is a new shared handle.
pub uninterp spec fn spec_selected_connector(
    connector: aws_smithy_runtime_api::client::http::SharedHttpConnector,
    client: aws_smithy_runtime_api::client::http::SharedHttpClient,
    settings: aws_smithy_runtime_api::client::http::HttpConnectorSettings,
    components: aws_smithy_runtime_api::client::runtime_components::RuntimeComponents,
) -> bool;

/// Selects a connector of the client with
/// `aws_smithy_runtime_api::client::http::HttpClient::http_connector`; the
/// connector is the one handed out for these arguments
/// ([`spec_selected_connector`]).
#[verifier::external_body]
fn select_http_connector(
    http: &aws_smithy_runtime_api::client::http::SharedHttpClient,
    settings: &aws_smithy_runtime_api::client::http::HttpConnectorSettings,
    components: &aws_smithy_runtime_api::client::runtime_components::RuntimeComponents,
) -> (r: aws_smithy_runtime_api::client::http::SharedHttpConnector)
    ensures
        spec_selected_connector(r, *http, *settings, *components),
{
    aws_smithy_runtime_api::client::http::HttpClient::http_connector(http, settings, components)
}

/// The connect timeout that a connector is opened with for the client
/// options: their connect timeout value in seconds, 10 seconds by default.
pub open spec fn options_connect_timeout(options: object_store::ClientOptions) -> TimeSpan {
    TimeSpan {
        secs: setting_secs(spec_config_value(options, ClientSetting::ConnectTimeout), DEFAULT_CONNECT_TIMEOUT_SECS),
        nanos: 0,
    }
}

/// The read timeout that a connector is opened with for the client options:
/// their timeout value in seconds, 30 seconds by default.
pub open spec fn options_read_timeout(options: object_store::ClientOptions) -> TimeSpan {
    TimeSpan {
        secs: setting_secs(spec_config_value(options, ClientSetting::Timeout), DEFAULT_TIMEOUT_SECS),
        nanos: 0,
    }
}

/// AWS Smithy client used as an object store HTTP connector.
#[derive(Debug)]
pub struct AwsSmithyHttpConnector {
    http: aws_smithy_runtime_api::client::http::SharedHttpClient,
    components: aws_smithy_runtime_api::client::runtime_components::RuntimeComponents,
}

impl Clone for AwsSmithyHttpConnector {
    /// A copy that shares the same HTTP client and holds the same runtime components.
    fn clone(&self) -> (r: AwsSmithyHttpConnector)
        ensures
            r == *self,
    {
        AwsSmithyHttpConnector { http: self.http.clone(), components: self.components.clone() }
    }
}

impl AwsSmithyHttpConnector {
    /// The HTTP client that the connector holds.
    pub closed spec fn spec_http(&self) -> aws_smithy_runtime_api::client::http::SharedHttpClient {
        self.http
    }

    /// The runtime components that the connector holds.
    pub closed spec fn spec_components(
        &self,
    ) -> aws_smithy_runtime_api::client::runtime_components::RuntimeComponents {
        self.components
    }

    /// Creates a new instance.
    pub fn new(
        http: aws_smithy_runtime_api::client::http::SharedHttpClient,
        components: aws_smithy_runtime_api::client::runtime_components::RuntimeComponents,
    ) -> (r: AwsSmithyHttpConnector)
        ensures
            r.spec_http() == http,
            r.spec_components() == components,
    {
        AwsSmithyHttpConnector { http, components }
    }

    /// The underlying AWS HTTP client.
    pub fn http_client(&self) -> (r: &aws_smithy_runtime_api::client::http::SharedHttpClient)
        ensures
            *r == self.spec_http(),
    {
        &self.http
    }

    /// The runtime components handed to the HTTP client.
    pub fn components(
        &self,
    ) -> (r: &aws_smithy_runtime_api::client::runtime_components::RuntimeComponents)
        ensures
            *r == self.spec_components(),
    {
        &self.components
    }

    /// Opens an HTTP client for an object store: reads the connect timeout and
    /// the timeout of the client options as whole seconds (10 and 30 seconds
    /// by default), and selects a connector of the AWS client with them and
    /// the connector's runtime components.
    pub fn connect(&self, options: &object_store::ClientOptions) -> (r: AwsSmithyHttpClient)
        ensures
            exists|settings: aws_smithy_runtime_api::client::http::HttpConnectorSettings|
                #[trigger] spec_selected_connector(r.spec_http(), self.spec_http(), settings, self.spec_components())
                && spec_settings_connect_timeout(settings) == Some(options_connect_timeout(*options))
                && spec_settings_read_timeout(settings) == Some(options_read_timeout(*options)),
    {
        let connect_value = client_setting(options, ClientSetting::ConnectTimeout);
        let timeout_value = client_setting(options, ClientSetting::Timeout);
        let connect_ref: Option<&str> = match &connect_value {
            Some(v) => Some(v.as_str()),
            None => None,
        };
        let timeout_ref: Option<&str> = match &timeout_value {
            Some(v) => Some(v.as_str()),
            None => None,
        };
        let timeouts = connect_timeouts(connect_ref, timeout_ref);
        let settings = connector_settings(timeouts);
        let http = select_http_connector(&self.http, &settings, &self.components);
        let r = AwsSmithyHttpClient { http };
        assert(spec_selected_connector(r.spec_http(), self.spec_http(), settings, self.spec_components()));
        r
    }
}

/// AWS Smithy client used as an object store HTTP service.
#[derive(Debug)]
pub struct AwsSmithyHttpClient {
    http: aws_smithy_runtime_api::client::http::SharedHttpConnector,
}

impl Clone for AwsSmithyHttpClient {
    /// A copy that shares the same connector.
    fn clone(&self) -> (r: AwsSmithyHttpClient)
        ensures
            r == *self,
    {
        AwsSmithyHttpClient { http: self.http.clone() }
    }
}

impl AwsSmithyHttpClient {
    /// The connector that the client holds.
    pub closed spec fn spec_http(&self) -> aws_smithy_runtime_api::client::http::SharedHttpConnector {
        self.http
    }


    /// The connector that requests are sent through.
    pub fn connector(&self) -> (r: &aws_smithy_runtime_api::client::http::SharedHttpConnector)
        ensures
            *r == self.spec_http(),
    {
        &self.http
    }
}

/// The authentication scheme id that `AuthSchemeId::new` makes of a name.
pub uninterp spec fn spec_auth_scheme_id(name: Seq<char>) -> aws_smithy_runtime_api::client::auth::AuthSchemeId;

/// Creates an authentication scheme id with
/// `aws_smithy_runtime_api::client::auth::AuthSchemeId::new`, named
/// [`spec_auth_scheme_id`].
#[verifier::external_body]
fn auth_scheme_id(name: &'static str) -> (r: aws_smithy_runtime_api::client::auth::AuthSchemeId)
    ensures
        r == spec_auth_scheme_id(name@),
{
    aws_smithy_runtime_api::client::auth::AuthSchemeId::new(name)
}

/// Authentication that offers the single scheme without authentication.
#[derive(Debug, Copy, Clone)]
pub struct DummyAuth;

impl DummyAuth {
    /// The one scheme that is offered: `noAuth`.
    pub fn auth_schema() -> (r: aws_smithy_runtime_api::client::auth::AuthSchemeId)
        ensures
            r == spec_auth_scheme_id("noAuth"@),
    {
        auth_scheme_id("noAuth")
    }

    /// The scheme options: exactly one, `noAuth`.
    pub fn resolve_auth_scheme_options(&self) -> (r: Vec<aws_smithy_runtime_api::client::auth::AuthSchemeId>)
        ensures
            r@ == seq![spec_auth_scheme_id("noAuth"@)],
    {
        let mut options = Vec::new();
        options.push(Self::auth_schema());
        options
    }
}

/// The read timeout of a connector depends on the client options' timeout
/// value alone: two sets of options with the same timeout value get the same
/// read timeout, whatever else they hold.
pub proof fn lemma_read_timeout_depends_on_timeout_value_only(
    a: object_store::ClientOptions,
    b: object_store::ClientOptions,
)
    requires
        spec_config_value(a, ClientSetting::Timeout) == spec_config_value(b, ClientSetting::Timeout),
    ensures
        options_read_timeout(a) == options_read_timeout(b),
{
}

/// The connect timeout of a connector depends on the client options' connect
/// timeout value alone: two sets of options with the same connect timeout
/// value get the same connect timeout, whatever else they hold.
pub proof fn lemma_connect_timeout_depends_on_connect_value_only(
    a: object_store::ClientOptions,
    b: object_store::ClientOptions,
)
    requires
        spec_config_value(a, ClientSetting::ConnectTimeout) == spec_config_value(b, ClientSetting::ConnectTimeout),
    ensures
        options_connect_timeout(a) == options_connect_timeout(b),
{
}

/// A timeout value that is missing or is not a number gives a read timeout of
/// 30 seconds; a value that writes a number of seconds gives that many seconds.
pub proof fn lemma_read_timeout_values(options: object_store::ClientOptions, secs: u64)
    ensures
        (spec_config_value(options, ClientSetting::Timeout) matches Some(v) ==> parse_u64_spec(v) is None)
            ==> options_read_timeout(options) == (TimeSpan { secs: 30, nanos: 0 }),
        spec_config_value(options, ClientSetting::Timeout) == Some(decimal_digits(secs as nat))
            ==> options_read_timeout(options) == (TimeSpan { secs: secs, nanos: 0 }),
{
    lemma_parse_decimal_round_trip(secs);
}

/// A connect timeout value that is missing or is not a number gives a connect
/// timeout of 10 seconds; a value that writes a number of seconds gives that
/// many seconds.
pub proof fn lemma_connect_timeout_values(options: object_store::ClientOptions, secs: u64)
    ensures
        (spec_config_value(options, ClientSetting::ConnectTimeout) matches Some(v) ==> parse_u64_spec(v) is None)
            ==> options_connect_timeout(options) == (TimeSpan { secs: 10, nanos: 0 }),
        spec_config_value(options, ClientSetting::ConnectTimeout) == Some(decimal_digits(secs as nat))
            ==> options_connect_timeout(options) == (TimeSpan { secs: secs, nanos: 0 }),
{
    lemma_parse_decimal_round_trip(secs);
}

/// The timeouts that `connect_timeouts` computes follow the same rule: each
/// comes from its own value alone, with 10 and 30 seconds where a value is
/// missing or not a number.
pub proof fn lemma_connect_timeouts_rule(connect: Option<Seq<char>>, timeout: Option<Seq<char>>)
    ensures
        (connect matches Some(v) ==> parse_u64_spec(v) is None) ==> setting_secs(connect, DEFAULT_CONNECT_TIMEOUT_SECS) == 10,
        (timeout matches Some(v) ==> parse_u64_spec(v) is None) ==> setting_secs(timeout, DEFAULT_TIMEOUT_SECS) == 30,
        forall|v: Seq<char>|
            connect == Some(v) && #[trigger] parse_u64_spec(v) is Some
                ==> setting_secs(connect, DEFAULT_CONNECT_TIMEOUT_SECS) == parse_u64_spec(v).unwrap(),
        forall|v: Seq<char>|
            timeout == Some(v) && #[trigger] parse_u64_spec(v) is Some
                ==> setting_secs(timeout, DEFAULT_TIMEOUT_SECS) == parse_u64_spec(v).unwrap(),
{
}

} // verus!
