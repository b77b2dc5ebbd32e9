//! The one error channel of the library: construction either fails to parse
//! the base URL or fails at the transport level of the single fetch. Both
//! variants carry the underlying diagnostic; iteration never raises.

use vstd::prelude::*;
use vstd::string::StringExecFns;

verus! {

/// Why a scraper could not be constructed. Both causes are identified at
/// construction time and propagate immediately; there is no retry and no
/// partial construction.
#[derive(Debug)]
pub enum Error {
    /// The supplied base URL does not conform to absolute-URL syntax;
    /// carries the parser's diagnostic.
    UrlParsing { why: url::ParseError },
    /// The single GET request failed at the transport level; carries the
    /// transport diagnostic as text, as the fetching caller reported it.
    Request { why: String },
}

impl From<url::ParseError> for Error {
    fn from(why: url::ParseError) -> (e: Error) {
        Error::UrlParsing { why }
    }
}

impl vstd::std_specs::convert::FromSpecImpl<url::ParseError> for Error {
    open spec fn obeys_from_spec() -> bool {
        true
    }

    open spec fn from_spec(why: url::ParseError) -> Error {
        Error::UrlParsing { why }
    }
}

/// What the `Display` impl of `url::ParseError` writes: a fixed description
/// per diagnostic, a function of the diagnostic value alone.
pub uninterp spec fn parse_error_text(why: url::ParseError) -> Seq<char>;

/// Relies on the `Display` impl of `url::ParseError` for the text of the
/// parse diagnostic.
#[verifier::external_body]
fn url_error_text(why: &url::ParseError) -> (r: String)
    ensures
        r@ == parse_error_text(*why),
{
    why.to_string()
}

impl Error {
    /// The error as one line of text: the failing step, then the underlying
    /// diagnostic.
    pub fn message(&self) -> (m: String)
        ensures
            self matches Error::UrlParsing { why }
                ==> m@ == "failed to parse URL: "@ + parse_error_text(*why),
            self matches Error::Request { why } ==> m@ == "failure in request: "@ + why@,
    {
        match self {
            Error::UrlParsing { why } => {
                let mut m = String::from_str("failed to parse URL: ");
                let text = url_error_text(why);
                m.append(text.as_str());
                m
            },
            Error::Request { why } => {
                let mut m = String::from_str("failure in request: ");
                m.append(why.as_str());
                m
            },
        }
    }
}

} // verus!
