//! The URL side of the library: parsing a base URL and resolving `href`
//! references against it, both done by the `url` crate behind trusted
//! wrappers.

use vstd::prelude::*;

verus! {

/// What `url::Url::parse` makes of a string: `None` when the string is not a
/// well-formed absolute URL, otherwise the serialization of the parsed URL
/// value.
pub uninterp spec fn url_parse(s: Seq<char>) -> Option<Seq<char>>;

/// What resolving the reference `href` against the base URL serialized as
/// `base` yields under `url::Url::join`: `None` when `base` is not an
/// absolute URL or `href` cannot be joined to it, otherwise the
/// serialization of the resolved URL.
pub uninterp spec fn url_join(base: Seq<char>, href: Seq<char>) -> Option<Seq<char>>;

/// The diagnostic the `url` crate reports when a string cannot be parsed as
/// a URL; carried opaquely inside [`crate::Error`].
#[verifier::external_type_specification]
#[verifier::external_body]
pub struct ExParseError(url::ParseError);

/// Relies on `url::Url::parse` and `From<url::Url> for String`: a
/// well-formed absolute URL string parses to a URL value, handed back as its
/// serialization; any other string is refused with the parser's diagnostic.
#[verifier::external_body]
pub(crate) fn parse_absolute_url(s: &str) -> (r: Result<String, url::ParseError>)
    ensures
        r is Ok <==> url_parse(s@) is Some,
        r matches Ok(base) ==> url_parse(s@) == Some(base@),
{
    url::Url::parse(s).map(String::from)
}

/// Relies on `url::Url::parse` and `url::Url::join`: the reference `href`
/// resolved against the URL that `base` serializes, under the standard
/// relative-resolution rules; `None` where either step fails.
#[verifier::external_body]
pub(crate) fn resolve_href(base: &str, href: &str) -> (r: Option<String>)
    ensures
        r matches Some(resolved) ==> url_join(base@, href@) == Some(resolved@),
        r is None ==> url_join(base@, href@) is None,
{
    match url::Url::parse(base) {
        Ok(base_url) => match base_url.join(href) {
            Ok(resolved) => Some(String::from(resolved)),
            Err(_) => None,
        },
        Err(_) => None,
    }
}

} // verus!
