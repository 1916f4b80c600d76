//! Endpoint addresses, as the `url` crate parses them.

use vstd::prelude::*;

verus! {

#[verifier::external_type_specification]
#[verifier::external_body]
pub struct ExUrl(url::Url);

#[verifier::external_type_specification]
#[verifier::external_body]
pub struct ExParseError(url::ParseError);

/// The host of a parsed URL, where it has one.
pub uninterp spec fn host_of(url: url::Url) -> Option<Seq<char>>;

/// What parsing a text as an absolute URL gives, as far as the library
/// reads it: the host of the URL, or the reason why the text is no URL.
pub uninterp spec fn parsed_host(text: Seq<char>) -> Result<Option<Seq<char>>, url::ParseError>;

/// The text that a parse error is displayed as.
pub uninterp spec fn parse_error_text(error: url::ParseError) -> Seq<char>;

/// `Url::parse`, which parses an absolute URL.
#[verifier::external_body]
pub(crate) fn parse_url(text: &str) -> (parsed: Result<url::Url, url::ParseError>)
    ensures
        match parsed {
            Ok(url) => parsed_host(text@) == Ok::<Option<Seq<char>>, url::ParseError>(
                host_of(url),
            ),
            Err(error) => parsed_host(text@) == Err::<Option<Seq<char>>, url::ParseError>(error),
        },
{
    url::Url::parse(text)
}

/// `Url::host_str`, which gives the host as it is written in the URL.
#[verifier::external_body]
pub(crate) fn host_text(url: &url::Url) -> (host: Option<&str>)
    ensures
        host.deep_view() == host_of(*url),
{
    url.host_str()
}

/// `Display` for `url::ParseError`: a fixed description of the error.
#[verifier::external_body]
pub(crate) fn display_parse_error(error: &url::ParseError) -> (text: String)
    ensures
        text@ == parse_error_text(*error),
{
    error.to_string()
}

} // verus!
