//! Endpoint validation: an address reaches a transport only as a parsed URL.

use vstd::prelude::*;
use crate::error::LakeError;

verus! {

#[verifier::external_type_specification]
#[verifier::external_body]
pub struct ExUrl(url::Url);

/// What `url::Url::parse` makes of an address: `None` where it accepts the
/// address, else the text with which its error displays.
pub uninterp spec fn url_parse_error(address: Seq<char>) -> Option<Seq<char>>;

/// The serialization of the URL that `url::Url::parse` makes of an address
/// which it accepts.
pub uninterp spec fn parsed_text(address: Seq<char>) -> Seq<char>;

/// The serialization of a URL: what `url::Url::as_str` returns.
pub uninterp spec fn url_text(url: url::Url) -> Seq<char>;

/// `url::Url::parse`, with its error converted to the text that the error
/// displays as. The parser reads nothing but the address, so the same
/// address is always accepted with the same URL or always refused with the
/// same text: it fails exactly where `url_parse_error` names a text, and
/// the text returned is that one; where it succeeds, the URL serializes as
/// `parsed_text` says.
#[verifier::external_body]
fn url_parse(address: &str) -> (r: Result<url::Url, String>)
    ensures
        r is Ok <==> url_parse_error(address@) is None,
        r matches Err(text) ==> url_parse_error(address@) == Some(text@),
        r matches Ok(url) ==> url_text(url) == parsed_text(address@),
{
    match url::Url::parse(address) {
        Ok(url) => Ok(url),
        Err(e) => Err(e.to_string()),
    }
}

/// True where the address is a well-formed URL.
pub open spec fn well_formed(address: Seq<char>) -> bool {
    url_parse_error(address) is None
}

/// What validating an address yields: for a well-formed one the URL that
/// it parses to, else `InvalidEndpoint` with the parser's message.
pub open spec fn endpoint_verdict(address: Seq<char>, r: Result<url::Url, LakeError>) -> bool {
    match url_parse_error(address) {
        None => r is Ok && url_text(r->Ok_0) == parsed_text(address),
        Some(text) => r is Err && r->Err_0.is_invalid_endpoint(text),
    }
}

/// Validates an endpoint address.
///
/// Succeeds exactly on the addresses that parse as a URL, and then returns
/// the parsed URL. Any other address gives `InvalidEndpoint` carrying the
/// parser's message; the empty address is one of these.
pub fn parse_endpoint(address: &str) -> (r: Result<url::Url, LakeError>)
    ensures
        endpoint_verdict(address@, r),
        r is Ok <==> well_formed(address@),
        r matches Ok(url) ==> url_text(url) == parsed_text(address@),
{
    match url_parse(address) {
        Ok(url) => Ok(url),
        Err(text) => Err(LakeError::InvalidEndpoint(text)),
    }
}

} // verus!
