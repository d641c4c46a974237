//! The data returned by the web search and fetch collaborators, and the
//! validation applied before any request leaves the process.
use vstd::prelude::*;

verus! {

use crate::error::OllamaError;
use crate::text::spec_trimmed;
use crate::text::is_blank;
use crate::text::str_eq;
use vstd::string::StringExecFns;

/// One entry of a search response.
#[derive(Debug)]
pub struct SearchResult {
    pub title: String,
    pub url: String,
    pub content: String,
}

/// The search collaborator's answer.
#[derive(Debug)]
pub struct SearchResponse {
    pub results: Vec<SearchResult>,
}

/// The fetch collaborator's answer.
#[derive(Debug)]
pub struct FetchResponse {
    pub title: String,
    pub content: String,
    pub links: Vec<String>,
}

/// What `url::Url::parse` recognizes depends on the input string alone; this
/// names the scheme of the parsed URL, or the parse error's rendering when the
/// input is not an absolute URL.
pub uninterp spec fn url_parse_outcome(s: Seq<char>) -> Result<Seq<char>, Seq<char>>;

/// Relies on url::Url::parse and url::Url::scheme: parses an absolute URL and
/// reads its scheme; the outcome depends on the input string alone.
#[verifier::external_body]
fn parse_url_scheme(s: &str) -> (r: Result<String, String>)
    ensures
        match r {
            Ok(scheme) => url_parse_outcome(s@) matches Ok(v) && v == scheme@,
            Err(e) => url_parse_outcome(s@) matches Err(v) && v == e@,
        },
{
    match url::Url::parse(s) {
        Ok(u) => Ok(u.scheme().to_string()),
        Err(e) => Err(e.to_string()),
    }
}

/// True when the search query may be sent: it has a non-whitespace character.
pub open spec fn valid_search_query(query: Seq<char>) -> bool {
    spec_trimmed(query).len() > 0
}

/// Rejects an empty or whitespace-only search query.
pub fn validate_search_query(query: &str) -> (r: Result<(), OllamaError>)
    ensures
        r is Ok <==> valid_search_query(query@),
        r matches Err(e) ==> (e matches OllamaError::InvalidResponse(m) && m@
            == "Search query cannot be empty"@),
{
    if is_blank(query) {
        Err(OllamaError::InvalidResponse(String::from_str("Search query cannot be empty")))
    } else {
        Ok(())
    }
}

/// The message reported for a fetch target that does not parse as a URL.
pub open spec fn spec_unparsable_url_message(url: Seq<char>, parse_error: Seq<char>) -> Seq<char> {
    "Invalid URL '"@ + url + "': "@ + parse_error
}

/// The message reported for a URL whose scheme is neither http nor https.
pub open spec fn spec_bad_scheme_message(scheme: Seq<char>) -> Seq<char> {
    "URL must use http or https scheme, got: "@ + scheme
}

/// Rejects a fetch target that is not an absolute URL with an http or https
/// scheme.
pub fn validate_fetch_url(target_url: &str) -> (r: Result<(), OllamaError>)
    ensures
        r is Ok <==> (url_parse_outcome(target_url@) matches Ok(scheme) && (scheme == "http"@
            || scheme == "https"@)),
        r matches Err(e) ==> (e matches OllamaError::InvalidUrl(m) && (match url_parse_outcome(
            target_url@,
        ) {
            Ok(scheme) => m@ == spec_bad_scheme_message(scheme),
            Err(pe) => m@ == spec_unparsable_url_message(target_url@, pe),
        })),
{
    match parse_url_scheme(target_url) {
        Ok(scheme) => {
            if str_eq(scheme.as_str(), "http") || str_eq(scheme.as_str(), "https") {
                Ok(())
            } else {
                let mut m = String::from_str("URL must use http or https scheme, got: ");
                m.append(scheme.as_str());
                Err(OllamaError::InvalidUrl(m))
            }
        },
        Err(parse_error) => {
            let mut m = String::from_str("Invalid URL '");
            m.append(target_url);
            m.append("': ");
            m.append(parse_error.as_str());
            Err(OllamaError::InvalidUrl(m))
        },
    }
}

/// True for a status code the collaborators use for success.
pub open spec fn spec_success_status(status: u16) -> bool {
    200 <= status < 300
}

/// Turns a collaborator's status and body into the outcome of the call: a
/// non-success status becomes the API error that preserves both.
pub fn check_status(status: u16, body: String) -> (r: Result<(), OllamaError>)
    ensures
        r is Ok <==> spec_success_status(status),
        r matches Err(e) ==> e == (OllamaError::ApiError { status, message: body }),
{
    if 200 <= status && status < 300 {
        Ok(())
    } else {
        Err(OllamaError::ApiError { status, message: body })
    }
}

} // verus!
