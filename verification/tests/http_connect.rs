use aws_smithy_runtime_api::box_error::BoxError;
use aws_smithy_runtime_api::client::auth::{
    AuthScheme, AuthSchemeEndpointConfig, AuthSchemeId, AuthSchemeOptionResolverParams,
    ResolveAuthSchemeOptions, Sign,
};
use aws_smithy_runtime_api::client::endpoint::{EndpointFuture, EndpointResolverParams, ResolveEndpoint};
use aws_smithy_runtime_api::client::http::{
    HttpClient as AwsHttpClient, HttpConnector as AwsHttpConnector, HttpConnectorFuture,
    HttpConnectorSettings, SharedHttpClient, SharedHttpConnector,
};
use aws_smithy_runtime_api::client::identity::{
    Identity, IdentityFuture, ResolveCachedIdentity, ResolveIdentity, SharedIdentityResolver,
};
use aws_smithy_runtime_api::client::interceptors::context::InterceptorContext;
use aws_smithy_runtime_api::client::orchestrator::HttpRequest;
use aws_smithy_runtime_api::client::result::ConnectorError;
use aws_smithy_runtime_api::client::retries::{RetryStrategy, ShouldAttempt};
use aws_smithy_runtime_api::client::runtime_components::{
    GetIdentityResolver, RuntimeComponents,
};
use aws_smithy_types::config_bag::ConfigBag;
use object_store::{ClientConfigKey, ClientOptions};
use object_store_aws::http::{AwsSmithyHttpConnector, DummyAuth};
use std::borrow::Cow;
use std::sync::{Arc, Mutex};
use std::time::Duration;

/// An HTTP client that records the timeouts of the settings it is asked for.
#[derive(Debug, Default)]
struct RecordingClient {
    seen: Arc<Mutex<Vec<(Option<Duration>, Option<Duration>)>>>,
}

impl AwsHttpClient for RecordingClient {
    fn http_connector(&self, settings: &HttpConnectorSettings, _components: &RuntimeComponents) -> SharedHttpConnector {
        self.seen.lock().unwrap().push((settings.connect_timeout(), settings.read_timeout()));
        SharedHttpConnector::new(RefusingConnector)
    }
}

#[derive(Debug)]
struct RefusingConnector;

impl AwsHttpConnector for RefusingConnector {
    fn call(&self, _request: HttpRequest) -> HttpConnectorFuture {
        HttpConnectorFuture::ready(Err(ConnectorError::other("no network in tests".into(), None)))
    }
}

/// Runtime components that are never exercised by these tests.
#[derive(Debug, Clone, Copy)]
struct Unused;

impl ResolveAuthSchemeOptions for Unused {
    fn resolve_auth_scheme_options(&self, _params: &AuthSchemeOptionResolverParams) -> Result<Cow<'_, [AuthSchemeId]>, BoxError> {
        Ok(Cow::Owned(DummyAuth.resolve_auth_scheme_options()))
    }
}

impl ResolveEndpoint for Unused {
    fn resolve_endpoint<'a>(&'a self, _params: &'a EndpointResolverParams) -> EndpointFuture<'a> {
        EndpointFuture::ready(Err("unused".into()))
    }
}

impl AuthScheme for Unused {
    fn scheme_id(&self) -> AuthSchemeId {
        DummyAuth::auth_schema()
    }
    fn identity_resolver(&self, identity_resolvers: &dyn GetIdentityResolver) -> Option<SharedIdentityResolver> {
        identity_resolvers.identity_resolver(self.scheme_id())
    }
    fn signer(&self) -> &dyn Sign {
        self
    }
}

impl Sign for Unused {
    fn sign_http_request(
        &self,
        _request: &mut HttpRequest,
        _identity: &Identity,
        _config: AuthSchemeEndpointConfig<'_>,
        _components: &RuntimeComponents,
        _bag: &ConfigBag,
    ) -> Result<(), BoxError> {
        Ok(())
    }
}

impl ResolveIdentity for Unused {
    fn resolve_identity<'a>(&'a self, _components: &'a RuntimeComponents, _bag: &'a ConfigBag) -> IdentityFuture<'a> {
        IdentityFuture::ready(Ok(Identity::new((), None)))
    }
}

impl ResolveCachedIdentity for Unused {
    fn resolve_cached_identity<'a>(
        &'a self,
        _resolver: SharedIdentityResolver,
        _components: &'a RuntimeComponents,
        _bag: &'a ConfigBag,
    ) -> IdentityFuture<'a> {
        IdentityFuture::ready(Ok(Identity::new((), None)))
    }
}

impl RetryStrategy for Unused {
    fn should_attempt_initial_request(&self, _c: &RuntimeComponents, _b: &ConfigBag) -> Result<ShouldAttempt, BoxError> {
        Ok(ShouldAttempt::Yes)
    }
    fn should_attempt_retry(&self, _x: &InterceptorContext, _c: &RuntimeComponents, _b: &ConfigBag) -> Result<ShouldAttempt, BoxError> {
        Ok(ShouldAttempt::No)
    }
}

fn components() -> RuntimeComponents {
    RuntimeComponents::builder("test")
        .with_auth_scheme_option_resolver(Some(Unused))
        .with_endpoint_resolver(Some(Unused))
        .with_auth_scheme(Unused)
        .with_identity_cache(Some(Unused))
        .with_identity_resolver(DummyAuth::auth_schema(), Unused)
        .with_retry_strategy(Some(Unused))
        .build()
        .expect("all required components")
}

fn connector() -> (AwsSmithyHttpConnector, Arc<Mutex<Vec<(Option<Duration>, Option<Duration>)>>>) {
    let recording = RecordingClient::default();
    let seen = recording.seen.clone();
    (AwsSmithyHttpConnector::new(SharedHttpClient::new(recording), components()), seen)
}

#[test]
fn connect_uses_default_timeouts_without_options() {
    let (conn, seen) = connector();
    let _client = conn.connect(&ClientOptions::new());
    assert_eq!(*seen.lock().unwrap(), vec![(Some(Duration::from_secs(10)), Some(Duration::from_secs(30)))]);
}

#[test]
fn connect_reads_numeric_timeouts_from_options() {
    let (conn, seen) = connector();
    let options = ClientOptions::new()
        .with_config(ClientConfigKey::ConnectTimeout, "5")
        .with_config(ClientConfigKey::Timeout, "45");
    let _client = conn.connect(&options);
    assert_eq!(*seen.lock().unwrap(), vec![(Some(Duration::from_secs(5)), Some(Duration::from_secs(45)))]);
}

#[test]
fn connect_falls_back_on_unreadable_timeouts() {
    let (conn, seen) = connector();
    let options = ClientOptions::new()
        .with_config(ClientConfigKey::ConnectTimeout, "5s")
        .with_timeout(Duration::from_secs(7));
    let _client = conn.connect(&options);
    assert_eq!(*seen.lock().unwrap(), vec![(Some(Duration::from_secs(10)), Some(Duration::from_secs(30)))]);
}

#[test]
fn connector_keeps_its_client_and_components() {
    let (conn, seen) = connector();
    let _components: &RuntimeComponents = conn.components();
    let copy = conn.clone();
    let _ = copy.http_client().http_connector(&HttpConnectorSettings::builder().build(), conn.components());
    assert_eq!(seen.lock().unwrap().len(), 1);
    let client = conn.connect(&ClientOptions::new());
    let _connector: &SharedHttpConnector = client.connector();
    assert_eq!(seen.lock().unwrap().len(), 2);
}
