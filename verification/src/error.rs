//! Errors of the credentials source.

use vstd::prelude::*;
use vstd::string::*;
use aws_credential_types::provider::error::CredentialsError;

verus! {

#[verifier::external_type_specification]
#[verifier::external_body]
pub struct ExCredentialsError(aws_credential_types::provider::error::CredentialsError);

/// The kinds of `CredentialsError`, one for each of its variants.
#[derive(Clone, Copy, Debug, PartialEq, Eq)]
pub enum CredentialsErrorKind {
    /// No credentials were available from the provider.
    CredentialsNotLoaded,
    /// Loading credentials took longer than allowed.
    ProviderTimedOut,
    /// The provider was given an invalid configuration.
    InvalidConfiguration,
    /// The provider failed while resolving credentials.
    ProviderError,
    /// An unexpected error occurred while resolving credentials.
    Unhandled,
    /// A variant that a later version of the provider crate added.
    Other,
}

/// The variant of a `CredentialsError`.
pub uninterp spec fn spec_credentials_error_kind(error: CredentialsError) -> CredentialsErrorKind;

/// The `Display` text of a `CredentialsError`.
pub uninterp spec fn spec_credentials_error_text(error: CredentialsError) -> Seq<char>;

/// Whether a `CredentialsError` has a `std::error::Error::source`.
pub uninterp spec fn spec_credentials_error_has_source(error: CredentialsError) -> bool;

/// Tells apart the variants of `CredentialsError`
/// (the enum is `non_exhaustive`: a variant unknown to this crate is `Other`).
/// The kind is named [`spec_credentials_error_kind`].
#[verifier::external_body]
pub(crate) fn credentials_error_kind(
    error: &CredentialsError,
) -> (r: CredentialsErrorKind)
    ensures
        r == spec_credentials_error_kind(*error),
{
    match error {
        CredentialsError::CredentialsNotLoaded(_) => CredentialsErrorKind::CredentialsNotLoaded,
        CredentialsError::ProviderTimedOut(_) => CredentialsErrorKind::ProviderTimedOut,
        CredentialsError::InvalidConfiguration(_) => CredentialsErrorKind::InvalidConfiguration,
        CredentialsError::ProviderError(_) => CredentialsErrorKind::ProviderError,
        CredentialsError::Unhandled(_) => CredentialsErrorKind::Unhandled,
        _ => CredentialsErrorKind::Other,
    }
}

/// The `Display` text of a `CredentialsError` (`format!("{}", error)`),
/// named [`spec_credentials_error_text`]. The source writes a fixed text for
/// each variant, with the timeout's seconds for a timed out provider (that
/// one text is left to the name).
#[verifier::external_body]
fn credentials_error_text(error: &CredentialsError) -> (r: String)
    ensures
        r@ == spec_credentials_error_text(*error),
        spec_credentials_error_kind(*error) == CredentialsErrorKind::CredentialsNotLoaded
            ==> r@ == "the credential provider was not enabled"@,
        spec_credentials_error_kind(*error) == CredentialsErrorKind::InvalidConfiguration
            ==> r@ == "the credentials provider was not properly configured"@,
        spec_credentials_error_kind(*error) == CredentialsErrorKind::ProviderError
            ==> r@ == "an error occurred while loading credentials"@,
        spec_credentials_error_kind(*error) == CredentialsErrorKind::Unhandled
            ==> r@ == "unexpected credentials error"@,
{
    format!("{}", error)
}

/// The `Display` text of the `std::error::Error::source` of a
/// `CredentialsError`, when it has one.
///
/// The source's text is whatever its own `Display` writes, which may depend
/// on more than the error (an OS error follows the process locale), so it is
/// not stated. Whether there is a source depends on the error alone (a
/// variant, or the optional source that a not-loaded error holds), named
/// [`spec_credentials_error_has_source`]. As the source of
/// `CredentialsError::source` shows, a timed out provider has no source, and
/// an invalid configuration, a provider error and an unhandled error always
/// have one.
#[verifier::external_body]
fn credentials_error_source_text(
    error: &CredentialsError,
) -> (r: Option<String>)
    ensures
        r is Some <==> spec_credentials_error_has_source(*error),
        spec_credentials_error_kind(*error) == CredentialsErrorKind::ProviderTimedOut ==> r is None,
        spec_credentials_error_kind(*error) == CredentialsErrorKind::InvalidConfiguration ==> r is Some,
        spec_credentials_error_kind(*error) == CredentialsErrorKind::ProviderError ==> r is Some,
        spec_credentials_error_kind(*error) == CredentialsErrorKind::Unhandled ==> r is Some,
{
    match std::error::Error::source(error) {
        Some(source) => Some(format!("{}", source)),
        None => None,
    }
}

/// Credential errors.
#[derive(Debug)]
pub enum Error {
    /// Credential provider is not available with current config.
    MissingCredentials,
    /// Config is missing AWS region.
    MissingRegion,
    /// Unable to load credentials.
    CredentialsError(CredentialsError),
}

/// Message of [`Error::MissingCredentials`].
pub open spec fn missing_credentials_message() -> Seq<char> {
    "Credential provider is not available with current AWS config"@
}

/// Message of [`Error::MissingRegion`].
pub open spec fn missing_region_message() -> Seq<char> {
    "AWS Config is missing region"@
}

/// Start of the message of [`Error::CredentialsError`].
pub open spec fn credentials_error_prefix() -> Seq<char> {
    "AWS error getting credentials: "@
}

/// Message of [`Error::CredentialsError`] for an error with the given text and,
/// when it has one, the text of its source in round brackets.
pub open spec fn credentials_error_message_spec(error_text: Seq<char>, source_text: Option<Seq<char>>) -> Seq<char> {
    match source_text {
        Some(s) => credentials_error_prefix() + error_text + "("@ + s + ")"@,
        None => credentials_error_prefix() + error_text,
    }
}

/// What the source text of a credentials error of the given kind can be: none
/// for a timed out provider; some for an invalid configuration, a provider
/// error and an unhandled error; either for the others.
pub open spec fn has_source_text(kind: CredentialsErrorKind, source: Option<Seq<char>>) -> bool {
    match kind {
        CredentialsErrorKind::ProviderTimedOut => source is None,
        CredentialsErrorKind::InvalidConfiguration | CredentialsErrorKind::ProviderError
            | CredentialsErrorKind::Unhandled => source is Some,
        _ => true,
    }
}

/// Message of a credentials error with the given text and source text.
pub fn credentials_error_message(error_text: &str, source_text: Option<&str>) -> (r: String)
    ensures
        r@ == credentials_error_message_spec(
            error_text@,
            match source_text {
                Some(s) => Some(s@),
                None => None,
            },
        ),
{
    let message = String::from_str("AWS error getting credentials: ").concat(error_text);
    match source_text {
        Some(s) => message.concat("(").concat(s).concat(")"),
        None => message,
    }
}

/// The message of a provider error: its text, then the text of its source
/// in round brackets when it has one.
pub fn describe_credentials_error(error: &CredentialsError) -> (r: String)
    ensures
        exists|source: Option<Seq<char>>|
            #[trigger] credentials_error_message_spec(spec_credentials_error_text(*error), source) == r@
            && (source is Some) == spec_credentials_error_has_source(*error)
            && has_source_text(spec_credentials_error_kind(*error), source),
{
    let text = credentials_error_text(error);
    let source = credentials_error_source_text(error);
    let source_ref: Option<&str> = match &source {
        Some(s) => Some(s.as_str()),
        None => None,
    };
    let r = credentials_error_message(text.as_str(), source_ref);
    proof {
        let s: Option<Seq<char>> = match source_ref {
            Some(s) => Some(s@),
            None => None,
        };
        assert(credentials_error_message_spec(spec_credentials_error_text(*error), s) == r@);
        assert(has_source_text(spec_credentials_error_kind(*error), s));
    }
    r
}

impl Error {
    /// The text that describes the error.
    pub fn message(&self) -> (r: String)
        ensures
            self is MissingCredentials ==> r@ == missing_credentials_message(),
            self is MissingRegion ==> r@ == missing_region_message(),
            *self matches Error::CredentialsError(e) ==> exists|source: Option<Seq<char>>|
                #[trigger] credentials_error_message_spec(spec_credentials_error_text(e), source) == r@
                && (source is Some) == spec_credentials_error_has_source(e)
                && has_source_text(spec_credentials_error_kind(e), source),
    {
        match self {
            Error::MissingCredentials => String::from_str(
                "Credential provider is not available with current AWS config",
            ),
            Error::MissingRegion => String::from_str("AWS Config is missing region"),
            Error::CredentialsError(error) => describe_credentials_error(error),
        }
    }

    /// The underlying provider error, for [`Error::CredentialsError`] only.
    pub fn source(&self) -> (r: Option<&CredentialsError>)
        ensures
            match self {
                Error::CredentialsError(e) => r == Some(e),
                _ => r is None,
            },
    {
        match self {
            Error::CredentialsError(e) => Some(e),
            _ => None,
        }
    }
}

} // verus!
