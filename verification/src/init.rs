//! Start-up of the credentials source: retry policy, region and first credentials.

use vstd::prelude::*;
use aws_credential_types::provider::error::CredentialsError;
use aws_credential_types::Credentials;
use crate::credentials::{holds_credentials, CredentialsData};
use crate::error::{credentials_error_kind, spec_credentials_error_kind, CredentialsErrorKind, Error};
use crate::time::TimeSpan;

verus! {

#[verifier::external_type_specification]
#[verifier::external_body]
pub struct ExRegion(aws_config::Region);

#[verifier::external_type_specification]
#[verifier::external_body]
pub struct ExRetryConfig(aws_smithy_types::retry::RetryConfig);

/// How the AWS SDK decides to retry.
#[derive(Clone, Copy, Debug, PartialEq, Eq)]
pub enum RetryPolicyMode {
    /// The standard retry rules across AWS SDKs.
    Standard,
    /// The standard rules with client-side rate limiting.
    Adaptive,
}

/// The retry policy of the AWS SDK calls.
#[derive(Clone, Copy, Debug, PartialEq, Eq)]
pub struct RetrySettings {
    /// Retry mode.
    pub mode: RetryPolicyMode,
    /// Most attempts of one call, the first included.
    pub max_attempts: u32,
    /// Delay before the first retry.
    pub initial_backoff: TimeSpan,
    /// Longest delay between two attempts.
    pub max_backoff: TimeSpan,
}

/// The retry policy used to load the AWS config: the standard mode, at most
/// five attempts, with a backoff that starts at half a second and grows to at
/// most one minute.
pub fn retry_settings() -> (r: RetrySettings)
    ensures
        r.mode == RetryPolicyMode::Standard,
        r.max_attempts == 5,
        r.initial_backoff.wf(),
        r.initial_backoff.total_nanos() == 500_000_000,
        r.max_backoff.wf(),
        r.max_backoff.total_nanos() == 60_000_000_000,
{
    RetrySettings {
        mode: RetryPolicyMode::Standard,
        max_attempts: 5,
        initial_backoff: TimeSpan::from_millis(500),
        max_backoff: TimeSpan::from_secs(60),
    }
}

/// The retry config that `aws_smithy_types::retry::RetryConfigBuilder` builds
/// from the given settings.
pub uninterp spec fn spec_retry_config(settings: RetrySettings) -> aws_smithy_types::retry::RetryConfig;

/// Builds a retry config with `aws_smithy_types::retry::RetryConfigBuilder`:
/// `new`, `mode`, `max_attempts`, `initial_backoff`, `max_backoff`, then
/// `build`. The builder only stores the values, so the config is a function
/// of the settings, named [`spec_retry_config`].
#[verifier::external_body]
fn build_retry_config(settings: RetrySettings) -> (r: aws_smithy_types::retry::RetryConfig)
    requires
        settings.initial_backoff.wf(),
        settings.max_backoff.wf(),
    ensures
        r == spec_retry_config(settings),
{
    let mode = match settings.mode {
        RetryPolicyMode::Standard => aws_smithy_types::retry::RetryMode::Standard,
        RetryPolicyMode::Adaptive => aws_smithy_types::retry::RetryMode::Adaptive,
    };
    aws_smithy_types::retry::RetryConfigBuilder::new()
        .mode(mode)
        .max_attempts(settings.max_attempts)
        .initial_backoff(std::time::Duration::new(settings.initial_backoff.secs, settings.initial_backoff.nanos))
        .max_backoff(std::time::Duration::new(settings.max_backoff.secs, settings.max_backoff.nanos))
        .build()
}

/// The retry config of the AWS SDK calls, made from [`retry_settings`].
pub fn retry_config() -> (r: aws_smithy_types::retry::RetryConfig)
    ensures
        r == spec_retry_config(
            RetrySettings {
                mode: RetryPolicyMode::Standard,
                max_attempts: 5,
                initial_backoff: TimeSpan { secs: 0, nanos: 500_000_000 },
                max_backoff: TimeSpan { secs: 60, nanos: 0 },
            },
        ),
{
    let settings = retry_settings();
    assert(settings.initial_backoff == TimeSpan { secs: 0, nanos: 500_000_000 });
    build_retry_config(settings)
}

/// The region of the AWS config, which the credentials source requires.
pub fn require_region(region: Option<aws_config::Region>) -> (r: Result<aws_config::Region, Error>)
    ensures
        match region {
            Some(g) => r == Ok::<aws_config::Region, Error>(g),
            None => r == Err::<aws_config::Region, Error>(Error::MissingRegion),
        },
{
    match region {
        Some(g) => Ok(g),
        None => Err(Error::MissingRegion),
    }
}

/// What a failed first load of credentials becomes: a provider that loaded
/// nothing means credentials are missing; any other error is kept.
pub fn init_error(kind: CredentialsErrorKind, error: CredentialsError) -> (r: Error)
    ensures
        r == (if kind == CredentialsErrorKind::CredentialsNotLoaded {
            Error::MissingCredentials
        } else {
            Error::CredentialsError(error)
        }),
{
    match kind {
        CredentialsErrorKind::CredentialsNotLoaded => Error::MissingCredentials,
        _ => Error::CredentialsError(error),
    }
}

/// The first credentials of the source from what the config's credentials
/// provider gave (`None` when the config has no provider).
pub fn init_credentials(provided: Option<Result<Credentials, CredentialsError>>) -> (r: Result<CredentialsData, Error>)
    ensures
        match provided {
            None => r == Err::<CredentialsData, Error>(Error::MissingCredentials),
            Some(Err(e)) => r == Err::<CredentialsData, Error>(
                if spec_credentials_error_kind(e) == CredentialsErrorKind::CredentialsNotLoaded {
                    Error::MissingCredentials
                } else {
                    Error::CredentialsError(e)
                },
            ),
            Some(Ok(creds)) => r matches Ok(d) && d.wf() && holds_credentials(d, creds),
        },
{
    match provided {
        None => Err(Error::MissingCredentials),
        Some(Err(error)) => {
            let kind = credentials_error_kind(&error);
            Err(init_error(kind, error))
        },
        Some(Ok(creds)) => Ok(CredentialsData::from_aws_credential_types(&creds)),
    }
}

} // verus!
