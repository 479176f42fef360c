//! URLs, held as their serialization and computed by the `url` crate.
use vstd::prelude::*;

verus! {

/// Declares `url::ParseError`, whose variants `url_error_kind` tells apart.
#[verifier::external_type_specification]
#[verifier::external_body]
pub struct ExUrlParseError(url::ParseError);

/// Why the `url` crate refused a URL: the variants of `url::ParseError`.
/// `Other` stands for variants that later versions of `url` may add.
#[derive(Debug, Clone, Copy, PartialEq, Eq, Structural)]
pub enum UrlError {
    EmptyHost,
    IdnaError,
    InvalidPort,
    InvalidIpv4Address,
    InvalidIpv6Address,
    InvalidDomainCharacter,
    RelativeUrlWithoutBase,
    RelativeUrlWithCannotBeABaseBase,
    SetHostOnCannotBeABaseUrl,
    Overflow,
    Other,
}

impl UrlError {
    /// The description `url::ParseError` displays for this error.
    pub fn description(&self) -> (r: &'static str)
        ensures
            r@ == url_error_text(*self),
    {
        match self {
            UrlError::EmptyHost => "empty host",
            UrlError::IdnaError => "invalid international domain name",
            UrlError::InvalidPort => "invalid port number",
            UrlError::InvalidIpv4Address => "invalid IPv4 address",
            UrlError::InvalidIpv6Address => "invalid IPv6 address",
            UrlError::InvalidDomainCharacter => "invalid domain character",
            UrlError::RelativeUrlWithoutBase => "relative URL without a base",
            UrlError::RelativeUrlWithCannotBeABaseBase => "relative URL with a cannot-be-a-base base",
            UrlError::SetHostOnCannotBeABaseUrl => "a cannot-be-a-base URL doesn’t have a host to set",
            UrlError::Overflow => "URLs more than 4 GB are not supported",
            UrlError::Other => "invalid URL",
        }
    }
}

/// The description of each URL error.
pub open spec fn url_error_text(e: UrlError) -> Seq<char> {
    match e {
        UrlError::EmptyHost => "empty host"@,
        UrlError::IdnaError => "invalid international domain name"@,
        UrlError::InvalidPort => "invalid port number"@,
        UrlError::InvalidIpv4Address => "invalid IPv4 address"@,
        UrlError::InvalidIpv6Address => "invalid IPv6 address"@,
        UrlError::InvalidDomainCharacter => "invalid domain character"@,
        UrlError::RelativeUrlWithoutBase => "relative URL without a base"@,
        UrlError::RelativeUrlWithCannotBeABaseBase => "relative URL with a cannot-be-a-base base"@,
        UrlError::SetHostOnCannotBeABaseUrl => "a cannot-be-a-base URL doesn’t have a host to set"@,
        UrlError::Overflow => "URLs more than 4 GB are not supported"@,
        UrlError::Other => "invalid URL"@,
    }
}

/// The serialization of the URL that `url::Url::parse` makes of `input`,
/// or the error it gives.
pub uninterp spec fn url_parse_result(input: Seq<char>) -> Result<Seq<char>, UrlError>;

/// The serialization of the URL that `url::Url::join` makes of `input`
/// against the URL that `url::Url::parse` makes of `base`, or the error
/// that either step gives.
pub uninterp spec fn url_join_result(base: Seq<char>, input: Seq<char>) -> Result<Seq<char>, UrlError>;

/// A view of a URL result.
pub open spec fn url_text_result(r: Result<String, UrlError>) -> Result<Seq<char>, UrlError> {
    match r {
        Ok(s) => Ok(s@),
        Err(e) => Err(e),
    }
}

/// Tells the variants of `url::ParseError` apart, one for one; a variant
/// that a later `url` may add becomes `Other`. Nothing is stated: the
/// error's variant is not visible to the verifier.
#[verifier::external_body]
fn url_error_kind(e: url::ParseError) -> UrlError {
    match e {
        url::ParseError::EmptyHost => UrlError::EmptyHost,
        url::ParseError::IdnaError => UrlError::IdnaError,
        url::ParseError::InvalidPort => UrlError::InvalidPort,
        url::ParseError::InvalidIpv4Address => UrlError::InvalidIpv4Address,
        url::ParseError::InvalidIpv6Address => UrlError::InvalidIpv6Address,
        url::ParseError::InvalidDomainCharacter => UrlError::InvalidDomainCharacter,
        url::ParseError::RelativeUrlWithoutBase => UrlError::RelativeUrlWithoutBase,
        url::ParseError::RelativeUrlWithCannotBeABaseBase => UrlError::RelativeUrlWithCannotBeABaseBase,
        url::ParseError::SetHostOnCannotBeABaseUrl => UrlError::SetHostOnCannotBeABaseUrl,
        url::ParseError::Overflow => UrlError::Overflow,
        _ => UrlError::Other,
    }
}

/// Calls `url::Url::parse` and gives back the URL's serialization.
#[verifier::external_body]
pub(crate) fn url_parse(input: &str) -> (r: Result<String, UrlError>)
    ensures
        url_text_result(r) == url_parse_result(input@),
{
    match url::Url::parse(input) {
        Ok(u) => Ok(String::from(u)),
        Err(e) => Err(url_error_kind(e)),
    }
}

/// Calls `url::Url::join` on the URL `base` (a serialization, parsed again
/// with `url::Url::parse`) and gives back the joined URL's serialization.
#[verifier::external_body]
pub(crate) fn url_join(base: &str, input: &str) -> (r: Result<String, UrlError>)
    ensures
        url_text_result(r) == url_join_result(base@, input@),
{
    let base = match url::Url::parse(base) {
        Ok(b) => b,
        Err(e) => return Err(url_error_kind(e)),
    };
    match base.join(input) {
        Ok(u) => Ok(String::from(u)),
        Err(e) => Err(url_error_kind(e)),
    }
}

} // verus!
