//! Cached AWS credentials and the rules by which they are refreshed.

use vstd::prelude::*;
use aws_credential_types::provider::error::CredentialsError;
use aws_credential_types::Credentials;
use crate::error::{credentials_error_kind, spec_credentials_error_kind, CredentialsErrorKind};
use crate::time::{spec_timestamp_of, timestamp_from_system_time, Timestamp};

verus! {

#[verifier::external_type_specification]
#[verifier::external_body]
pub struct ExCredentials(aws_credential_types::Credentials);

#[verifier::external_type_specification]
#[verifier::external_body]
pub struct ExAwsCredential(object_store::aws::AwsCredential);

/// The object store access key made of a key id, a secret key and an
/// optional session token.
pub uninterp spec fn spec_aws_credential(
    key_id: Seq<char>,
    secret_key: Seq<char>,
    token: Option<Seq<char>>,
) -> object_store::aws::AwsCredential;

/// Builds an `object_store::aws::AwsCredential` of its three public fields.
/// The value holds nothing but the three strings, so it is named
/// [`spec_aws_credential`] of them.
#[verifier::external_body]
fn aws_credential(key_id: String, secret_key: String, token: Option<String>) -> (r: object_store::aws::AwsCredential)
    ensures
        r == spec_aws_credential(
            key_id@,
            secret_key@,
            match token {
                Some(t) => Some(t@),
                None => None,
            },
        ),
{
    object_store::aws::AwsCredential { key_id, secret_key, token }
}

/// Shares a cached access key with `Arc::clone`: the copy points to the same key.
#[verifier::external_body]
fn share(key: &std::sync::Arc<object_store::aws::AwsCredential>) -> (r: std::sync::Arc<object_store::aws::AwsCredential>)
    ensures
        r == *key,
{
    std::sync::Arc::clone(key)
}

/// Whether credentials with the given expiry have expired at `now`: they have
/// when they expire at or before `now`; credentials without expiry never do.
pub open spec fn is_expired(expiry: Option<Timestamp>, now: Timestamp) -> bool {
    match expiry {
        Some(t) => t.spec_le(now),
        None => false,
    }
}

/// What a cache lookup at `now` serves: the access key, unless the
/// credentials have expired.
pub open spec fn cached_spec(data: CredentialsData, now: Timestamp) -> Option<std::sync::Arc<object_store::aws::AwsCredential>> {
    if is_expired(data.expiry, now) {
        None
    } else {
        Some(data.data)
    }
}

/// Credentials as they are cached: the access key and when it expires.
#[derive(Debug)]
pub struct CredentialsData {
    /// When the credentials expire, if ever.
    pub expiry: Option<Timestamp>,
    /// The access key, shared with every lookup that serves it.
    pub data: std::sync::Arc<object_store::aws::AwsCredential>,
}

/// The access key id of SDK credentials (`Credentials::access_key_id`).
pub uninterp spec fn spec_access_key_id(creds: Credentials) -> Seq<char>;

/// The secret access key of SDK credentials (`Credentials::secret_access_key`).
pub uninterp spec fn spec_secret_access_key(creds: Credentials) -> Seq<char>;

/// The session token of SDK credentials (`Credentials::session_token`).
pub uninterp spec fn spec_session_token(creds: Credentials) -> Option<Seq<char>>;

/// The expiry of SDK credentials (`Credentials::expiry`).
pub uninterp spec fn spec_credentials_expiry(creds: Credentials) -> Option<std::time::SystemTime>;

/// The expiry of SDK credentials as a point in time.
pub open spec fn converted_expiry(creds: Credentials) -> Option<Timestamp> {
    match spec_credentials_expiry(creds) {
        Some(t) => Some(spec_timestamp_of(t)),
        None => None,
    }
}

/// Whether an access key is the one of the SDK credentials: same key id,
/// secret key and session token.
pub open spec fn is_key_of(c: object_store::aws::AwsCredential, creds: Credentials) -> bool {
    c == spec_aws_credential(spec_access_key_id(creds), spec_secret_access_key(creds), spec_session_token(creds))
}

/// Whether cached credentials hold the SDK credentials: their access key and
/// their expiry.
pub open spec fn holds_credentials(d: CredentialsData, creds: Credentials) -> bool {
    is_key_of(*d.data, creds) && d.expiry == converted_expiry(creds)
}

/// Reads the access key id of credentials with `Credentials::access_key_id`,
/// named [`spec_access_key_id`].
#[verifier::external_body]
fn access_key_id(creds: &Credentials) -> (r: String)
    ensures
        r@ == spec_access_key_id(*creds),
{
    creds.access_key_id().to_owned()
}

/// Reads the secret access key of credentials with
/// `Credentials::secret_access_key`, named [`spec_secret_access_key`].
#[verifier::external_body]
fn secret_access_key(creds: &Credentials) -> (r: String)
    ensures
        r@ == spec_secret_access_key(*creds),
{
    creds.secret_access_key().to_owned()
}

/// Reads the session token of credentials with `Credentials::session_token`,
/// named [`spec_session_token`].
#[verifier::external_body]
fn session_token(creds: &Credentials) -> (r: Option<String>)
    ensures
        match r {
            Some(t) => spec_session_token(*creds) == Some(t@),
            None => spec_session_token(*creds) is None,
        },
{
    match creds.session_token() {
        Some(token) => Some(token.to_owned()),
        None => None,
    }
}

/// Reads the expiry of credentials with `Credentials::expiry`, named
/// [`spec_credentials_expiry`].
#[verifier::external_body]
fn credentials_expiry(creds: &Credentials) -> (r: Option<std::time::SystemTime>)
    ensures
        r == spec_credentials_expiry(*creds),
{
    creds.expiry()
}

impl CredentialsData {
    /// Well formed: the expiry, if any, is a well-formed point in time.
    pub open spec fn wf(&self) -> bool {
        match self.expiry {
            Some(t) => t.wf(),
            None => true,
        }
    }

    /// Cached credentials made of the given parts.
    pub fn new(key_id: String, secret_key: String, token: Option<String>, expiry: Option<Timestamp>) -> (r: CredentialsData)
        ensures
            r.expiry == expiry,
            *r.data == spec_aws_credential(
                key_id@,
                secret_key@,
                match token {
                    Some(t) => Some(t@),
                    None => None,
                },
            ),
    {
        CredentialsData { expiry, data: std::sync::Arc::new(aws_credential(key_id, secret_key, token)) }
    }

    /// Converts credentials of the AWS SDK: access key id, secret access key,
    /// session token and expiry.
    pub fn from_aws_credential_types(creds: &Credentials) -> (r: CredentialsData)
        ensures
            r.wf(),
            holds_credentials(r, *creds),
            *r.data == spec_aws_credential(
                spec_access_key_id(*creds),
                spec_secret_access_key(*creds),
                spec_session_token(*creds),
            ),
            r.expiry is Some <==> spec_credentials_expiry(*creds) is Some,
            spec_credentials_expiry(*creds) matches Some(t) ==> r.expiry == Some(spec_timestamp_of(t)),
    {
        let expiry = match credentials_expiry(creds) {
            Some(t) => Some(timestamp_from_system_time(t)),
            None => None,
        };
        CredentialsData::new(access_key_id(creds), secret_access_key(creds), session_token(creds), expiry)
    }

    /// Whether the credentials have expired at `now`.
    pub fn is_expired(&self, now: Timestamp) -> (r: bool)
        ensures
            r == is_expired(self.expiry, now),
    {
        match &self.expiry {
            Some(t) => t.is_at_or_before(&now),
            None => false,
        }
    }

    /// The cached access key, unless it has expired at `now` and must be refreshed.
    pub fn cached(&self, now: Timestamp) -> (r: Option<std::sync::Arc<object_store::aws::AwsCredential>>)
        ensures
            r == cached_spec(*self, now),
    {
        if self.is_expired(now) {
            None
        } else {
            Some(share(&self.data))
        }
    }

    /// Replaces the cached credentials by freshly loaded ones and returns their access key.
    pub fn replace(&mut self, fresh: CredentialsData) -> (r: std::sync::Arc<object_store::aws::AwsCredential>)
        ensures
            *final(self) == fresh,
            r == fresh.data,
    {
        let r = share(&fresh.data);
        *self = fresh;
        r
    }
}

/// What a refresh does when the provider failed.
#[derive(Clone, Copy, Debug, PartialEq, Eq)]
pub enum FailureAction {
    /// Ask the provider for its fallback credentials.
    UseFallback,
    /// Give up and report the error.
    Fail,
}

/// What a refresh does after a failed provider call of the given kind: only a
/// provider that timed out is asked for fallback credentials.
pub fn failure_action(kind: CredentialsErrorKind) -> (r: FailureAction)
    ensures
        r == (if kind == CredentialsErrorKind::ProviderTimedOut {
            FailureAction::UseFallback
        } else {
            FailureAction::Fail
        }),
{
    match kind {
        CredentialsErrorKind::ProviderTimedOut => FailureAction::UseFallback,
        _ => FailureAction::Fail,
    }
}

/// The result of handing a provider's answer to the cache.
#[derive(Debug)]
pub enum RefreshOutcome {
    /// The cache holds fresh credentials; this is their access key.
    Refreshed(std::sync::Arc<object_store::aws::AwsCredential>),
    /// The provider timed out: its fallback credentials are to be tried.
    TryFallback(CredentialsError),
    /// The refresh failed with this error.
    Failed(CredentialsError),
}

impl CredentialsData {
    /// Hands the answer of the credentials provider to the cache: fresh
    /// credentials replace the cached ones and their access key is returned;
    /// on an error the cache is left as it was, and a timed out provider is
    /// to be asked for its fallback credentials.
    pub fn refresh(&mut self, provided: Result<Credentials, CredentialsError>) -> (r: RefreshOutcome)
        requires
            old(self).wf(),
        ensures
            final(self).wf(),
            match provided {
                Ok(creds) => holds_credentials(*final(self), creds)
                    && r == RefreshOutcome::Refreshed(final(self).data),
                Err(e) => *final(self) == *old(self) && r == (if spec_credentials_error_kind(e)
                    == CredentialsErrorKind::ProviderTimedOut {
                    RefreshOutcome::TryFallback(e)
                } else {
                    RefreshOutcome::Failed(e)
                }),
            },
    {
        match provided {
            Ok(creds) => RefreshOutcome::Refreshed(self.replace(CredentialsData::from_aws_credential_types(&creds))),
            Err(error) => match failure_action(credentials_error_kind(&error)) {
                FailureAction::UseFallback => RefreshOutcome::TryFallback(error),
                FailureAction::Fail => RefreshOutcome::Failed(error),
            },
        }
    }

    /// Hands the provider's fallback credentials, if it had any, to the cache:
    /// they replace the cached ones and their access key is returned; without
    /// them the cache is left as it was and the provider's error is returned.
    pub fn apply_fallback(&mut self, fallback: Option<Credentials>, error: CredentialsError) -> (r: Result<std::sync::Arc<object_store::aws::AwsCredential>, CredentialsError>)
        requires
            old(self).wf(),
        ensures
            final(self).wf(),
            match fallback {
                Some(creds) => holds_credentials(*final(self), creds)
                    && r == Ok::<std::sync::Arc<object_store::aws::AwsCredential>, CredentialsError>(final(self).data),
                None => *final(self) == *old(self) && r == Err::<std::sync::Arc<object_store::aws::AwsCredential>, CredentialsError>(error),
            },
    {
        match fallback {
            Some(creds) => Ok(self.replace(CredentialsData::from_aws_credential_types(&creds))),
            None => Err(error),
        }
    }
}

/// Where one credentials lookup stands.
#[derive(Debug)]
pub enum Lookup {
    /// Holding the cache for writing after it was found expired; the clock is read again.
    Writing,
    /// Waiting for the credentials provider.
    AwaitingProvider,
    /// Waiting for the provider's fallback credentials after it timed out with this error.
    AwaitingFallback(CredentialsError),
    /// The lookup has ended.
    Finished,
}

/// What the outside world reports to a lookup.
#[derive(Debug)]
pub enum LookupEvent {
    /// The clock was read.
    Clock(Timestamp),
    /// The credentials provider answered.
    Provided(Result<Credentials, CredentialsError>),
    /// The provider's fallback credentials, if it had any.
    Fallback(Option<Credentials>),
}

/// What a lookup asks the outside world to do next.
#[derive(Debug)]
pub enum LookupAction {
    /// End the lookup with this access key.
    Serve(std::sync::Arc<object_store::aws::AwsCredential>),
    /// Give up the read access to the cache, take write access, and read the clock.
    LockForWriting,
    /// Ask the credentials provider for credentials.
    CallProvider,
    /// Ask the credentials provider for its fallback credentials.
    CallFallback,
    /// End the lookup with this error.
    Fail(CredentialsError),
}

/// Whether `event` is what a lookup in `phase` waits for.
pub open spec fn event_fits(phase: Lookup, event: LookupEvent) -> bool {
    match phase {
        Lookup::Writing => event is Clock,
        Lookup::AwaitingProvider => event is Provided,
        Lookup::AwaitingFallback(_) => event is Fallback,
        Lookup::Finished => false,
    }
}

/// The first step of a credentials lookup, with read access to the cache and
/// the clock read at `now`: the cached key is served while it has not
/// expired; otherwise the lookup goes on with write access.
pub fn begin_lookup(cache: &CredentialsData, now: Timestamp) -> (r: (Lookup, LookupAction))
    ensures
        if is_expired(cache.expiry, now) {
            r == (Lookup::Writing, LookupAction::LockForWriting)
        } else {
            r == (Lookup::Finished, LookupAction::Serve(cache.data))
        },
{
    match cache.cached(now) {
        Some(c) => (Lookup::Finished, LookupAction::Serve(c)),
        None => (Lookup::Writing, LookupAction::LockForWriting),
    }
}

/// A later step of a credentials lookup, with write access to the cache. The
/// cache is checked again, so that of several lookups that found it expired
/// only the first asks the provider. Fresh credentials replace the cached
/// ones and are served; a provider that timed out is asked for its fallback
/// credentials; any other failure ends the lookup with the provider's error
/// and leaves the cache as it was.
pub fn lookup_step(phase: Lookup, cache: &mut CredentialsData, event: LookupEvent) -> (r: (Lookup, LookupAction))
    requires
        old(cache).wf(),
        event_fits(phase, event),
    ensures
        final(cache).wf(),
        match (phase, event) {
            (Lookup::Writing, LookupEvent::Clock(now)) => *final(cache) == *old(cache) && if is_expired(old(cache).expiry, now) {
                r == (Lookup::AwaitingProvider, LookupAction::CallProvider)
            } else {
                r == (Lookup::Finished, LookupAction::Serve(old(cache).data))
            },
            (Lookup::AwaitingProvider, LookupEvent::Provided(Ok(creds))) => holds_credentials(*final(cache), creds)
                && r == (Lookup::Finished, LookupAction::Serve(final(cache).data)),
            (Lookup::AwaitingProvider, LookupEvent::Provided(Err(e))) => *final(cache) == *old(cache)
                && r == (if spec_credentials_error_kind(e) == CredentialsErrorKind::ProviderTimedOut {
                    (Lookup::AwaitingFallback(e), LookupAction::CallFallback)
                } else {
                    (Lookup::Finished, LookupAction::Fail(e))
                }),
            (Lookup::AwaitingFallback(_), LookupEvent::Fallback(Some(creds))) => holds_credentials(*final(cache), creds)
                && r == (Lookup::Finished, LookupAction::Serve(final(cache).data)),
            (Lookup::AwaitingFallback(e), LookupEvent::Fallback(None)) => *final(cache) == *old(cache)
                && r == (Lookup::Finished, LookupAction::Fail(e)),
            _ => false,
        },
{
    match phase {
        Lookup::Writing => match event {
            LookupEvent::Clock(now) => match cache.cached(now) {
                Some(c) => (Lookup::Finished, LookupAction::Serve(c)),
                None => (Lookup::AwaitingProvider, LookupAction::CallProvider),
            },
            _ => vstd::pervasive::unreached(),
        },
        Lookup::AwaitingProvider => match event {
            LookupEvent::Provided(provided) => match cache.refresh(provided) {
                RefreshOutcome::Refreshed(c) => (Lookup::Finished, LookupAction::Serve(c)),
                RefreshOutcome::TryFallback(e) => (Lookup::AwaitingFallback(e), LookupAction::CallFallback),
                RefreshOutcome::Failed(e) => (Lookup::Finished, LookupAction::Fail(e)),
            },
            _ => vstd::pervasive::unreached(),
        },
        Lookup::AwaitingFallback(error) => match event {
            LookupEvent::Fallback(fallback) => match cache.apply_fallback(fallback, error) {
                Ok(c) => (Lookup::Finished, LookupAction::Serve(c)),
                Err(e) => (Lookup::Finished, LookupAction::Fail(e)),
            },
            _ => vstd::pervasive::unreached(),
        },
        Lookup::Finished => vstd::pervasive::unreached(),
    }
}

/// Credentials that have expired stay expired: a later clock reading never
/// makes them usable again.
pub proof fn lemma_expired_stays_expired(expiry: Option<Timestamp>, now: Timestamp, later: Timestamp)
    requires
        is_expired(expiry, now),
        now.spec_le(later),
    ensures
        is_expired(expiry, later),
{
}

/// Credentials without an expiry are served from the cache at every time.
pub proof fn lemma_no_expiry_never_refreshed(data: CredentialsData, now: Timestamp)
    requires
        data.expiry is None,
    ensures
        !is_expired(data.expiry, now),
{
}

/// Credentials that a refresh stored are served, without asking the provider
/// again, by every lookup before the provider's expiry, and by none after it.
pub proof fn lemma_refreshed_credentials_served_until_expiry(cache: CredentialsData, creds: Credentials, now: Timestamp)
    requires
        holds_credentials(cache, creds),
    ensures
        !is_expired(converted_expiry(creds), now) ==> cached_spec(cache, now) == Some(cache.data)
            && is_key_of(*cache.data, creds),
        is_expired(converted_expiry(creds), now) ==> cached_spec(cache, now) is None,
{
}

/// Credentials that the provider gave without an expiry are served from the
/// cache at every time: the provider is never asked again.
pub proof fn lemma_credentials_without_expiry_never_refreshed(cache: CredentialsData, creds: Credentials, now: Timestamp)
    requires
        holds_credentials(cache, creds),
        spec_credentials_expiry(creds) is None,
    ensures
        cached_spec(cache, now) == Some(cache.data),
{
}

/// Whether a lookup asks the provider: by `begin_lookup` and then
/// `lookup_step`, it does exactly when the cache has expired both at the
/// clock reading under read access and at the one under write access.
pub open spec fn lookup_asks_provider(cache: CredentialsData, read_now: Timestamp, write_now: Timestamp) -> bool {
    is_expired(cache.expiry, read_now) && is_expired(cache.expiry, write_now)
}

/// Once a lookup has stored the provider's credentials, the lookups that
/// follow it under the lock (among them those that found the old
/// credentials expired and waited for write access) do not ask the provider
/// again, as long as one of their clock readings falls before the new expiry;
/// they serve the stored key. So concurrent lookups of an expired cache ask
/// the provider once.
pub proof fn lemma_one_refresh_for_waiting_lookups(
    cache: CredentialsData,
    creds: Credentials,
    readings: Seq<(Timestamp, Timestamp)>,
)
    requires
        holds_credentials(cache, creds),
        forall|i: int|
            0 <= i < readings.len() ==> !is_expired(converted_expiry(creds), #[trigger] readings[i].0)
                || !is_expired(converted_expiry(creds), readings[i].1),
    ensures
        forall|i: int|
            0 <= i < readings.len() ==> !lookup_asks_provider(cache, #[trigger] readings[i].0, readings[i].1),
        forall|i: int|
            0 <= i < readings.len() && !is_expired(converted_expiry(creds), #[trigger] readings[i].1)
                ==> cached_spec(cache, readings[i].1) == Some(cache.data),
{
}

/// Credentials have expired exactly when their expiry is at or before the
/// clock, in nanoseconds since the epoch; credentials without expiry never
/// expire.
pub proof fn lemma_expiry_follows_the_clock(expiry: Option<Timestamp>, now: Timestamp)
    requires
        now.wf(),
        expiry matches Some(t) ==> t.wf(),
    ensures
        expiry matches Some(t) ==> (is_expired(expiry, now) <==> t.epoch_nanos() <= now.epoch_nanos()),
        expiry is None ==> !is_expired(expiry, now),
{
    if let Some(t) = expiry {
        crate::time::lemma_le_is_nanos_order(t, now);
    }
}

/// Cached credentials that hold SDK credentials hold exactly their key id,
/// secret key and whole session token, and exactly their expiry: present
/// when the SDK credentials have one, and then its point in time.
pub proof fn lemma_cache_holds_the_sdk_credentials(d: CredentialsData, creds: Credentials)
    requires
        holds_credentials(d, creds),
    ensures
        *d.data == spec_aws_credential(
            spec_access_key_id(creds),
            spec_secret_access_key(creds),
            spec_session_token(creds),
        ),
        d.expiry is Some <==> spec_credentials_expiry(creds) is Some,
        spec_credentials_expiry(creds) matches Some(t) ==> d.expiry == Some(spec_timestamp_of(t)),
{
}

} // verus!
