//! The client: planning a request and reading its response.
//!
//! A [`MindatClient`] knows the base URL and, where one was given, the API
//! token. It opens no connection. For each endpoint it plans one GET: the
//! [`Request`] holds the URL and the headers to send. Whoever sends it hands
//! status and body to [`Request::handle_response`], which gives the decoded
//! record or the error that the status stands for.

use crate::decode::FromJson;
use crate::error::MindatError;
use crate::json::{json_document, json_error, json_model, parse_json};
use crate::links::{
    join_url, joined_url, parse_url, parsed_url, url_as_str, url_extend_pairs, url_text,
    url_with_pairs,
};
use crate::params::{pairs_fit, pairs_size, pairs_view, text_size};
use core::marker::PhantomData;
use core::time::Duration;
use vstd::prelude::*;
use vstd::string::StringSliceAdditionalSpecFns;

verus! {

/// Default base URL for the Mindat API (v1).
/// Note: Must end with a slash for proper URL joining.
pub const DEFAULT_BASE_URL: &'static str = "https://api.mindat.org/v1/";

/// User-Agent string for API requests. Upstream turns away clients that do
/// not look like a browser.
pub const USER_AGENT_STRING: &'static str =
    "Mozilla/5.0 (Windows NT 10.0; Win64; x64) AppleWebKit/537.36 (KHTML, like Gecko) Chrome/120.0.0.0 Safari/537.36";

/// A character that may stand in the value of a header: a tab, or anything
/// from the space on but the delete character.
pub open spec fn is_header_char(c: char) -> bool {
    c == '\t' || (c >= ' ' && c != '\u{7f}')
}

/// A text that may be the value of a header.
pub open spec fn is_header_text(text: Seq<char>) -> bool {
    forall|i: int| 0 <= i < text.len() ==> is_header_char(#[trigger] text[i])
}

/// `HeaderValue::from_str`: whether the text is accepted as the value of a
/// header. It is refused where one of its bytes is a control character other
/// than the tab; a character outside ASCII has no such byte.
#[verifier::external_body]
fn header_value_accepts(text: &str) -> (ok: bool)
    ensures
        ok == is_header_text(text@),
{
    reqwest::header::HeaderValue::from_str(text).is_ok()
}

/// A path without its leading separator, if it has one.
pub open spec fn strip_leading_slash(path: Seq<char>) -> Seq<char> {
    if path.len() > 0 && path[0] == '/' {
        path.skip(1)
    } else {
        path
    }
}

/// The most bytes that the URL of a request may take before parameters are
/// appended to it, and the most room that the parameters may take.
pub const MAX_QUERY_BYTES: usize = 0x1000_0000;

/// Whether parameters can be appended to a URL: neither is beyond
/// [`MAX_QUERY_BYTES`].
pub open spec fn query_fits(url: Seq<char>, params: Seq<(Seq<char>, Seq<char>)>) -> bool {
    text_size(url) <= MAX_QUERY_BYTES && pairs_size(params) <= MAX_QUERY_BYTES
}

/// The URL of a request without its parameters: the path, without a leading
/// separator, resolved against the base. `None` where the path cannot be
/// resolved.
pub open spec fn resolved_url(base: Seq<char>, path: Seq<char>) -> Option<Seq<char>> {
    joined_url(base, strip_leading_slash(path))
}

/// The URL of a request: the resolved URL, and the parameters, if there are
/// any, appended to its query.
pub open spec fn request_url(url: Seq<char>, params: Seq<(Seq<char>, Seq<char>)>) -> Seq<char> {
    if params.len() == 0 {
        url
    } else {
        url_with_pairs(url, params)
    }
}

/// The value of the authorization header for a token.
pub open spec fn authorization(token: Seq<char>) -> Seq<char> {
    "Token "@ + token
}

/// The headers of a request: the client identifier and the accepted media
/// type always, the authorization only with a token.
pub open spec fn request_headers(token: Option<Seq<char>>) -> Seq<(Seq<char>, Seq<char>)> {
    let fixed = seq![("user-agent"@, USER_AGENT_STRING@), ("accept"@, "application/json"@)];
    match token {
        Some(t) => fixed.push(("authorization"@, authorization(t))),
        None => fixed,
    }
}

/// A status of the success class.
pub open spec fn is_success(status: u16) -> bool {
    200 <= status < 300
}

/// One planned GET, and the type of record that its response holds.
#[derive(Debug)]
pub struct Request<T> {
    /// The URL to get.
    pub url: String,
    /// The headers to send, each a name and a value.
    pub headers: Vec<(String, String)>,
    /// Marks the type of record that the response holds.
    pub expects: PhantomData<T>,
}

/// The error that a status outside the success class stands for.
pub fn error_for_status(status: u16, body: String) -> (e: MindatError)
    requires
        !is_success(status),
    ensures
        status == 401 ==> e is AuthenticationRequired,
        status == 404 ==> (e matches MindatError::NotFound(detail) && detail@ == body@),
        status == 429 ==> e is RateLimited,
        status != 401 && status != 404 && status != 429 ==> (e matches MindatError::Api {
            status: code,
            message,
        } && code == status && message@ == body@),
{
    if status == 401 {
        MindatError::AuthenticationRequired
    } else if status == 404 {
        MindatError::NotFound(body)
    } else if status == 429 {
        MindatError::RateLimited
    } else {
        MindatError::Api { status, message: body }
    }
}

/// Reads a record from a parsed document. Fails, with the decode kind, where
/// the document does not have the shape of the record.
pub fn read_document<T: FromJson>(document: &serde_json::Value) -> (r: Result<T, MindatError>)
    ensures
        r is Ok <==> T::decodable(json_model(*document)),
        r matches Ok(value) ==> T::decodes(json_model(*document), value),
        r matches Err(e) ==> e is Deserialization,
{
    match T::from_json(document) {
        Some(value) => Ok(value),
        None => Err(
            MindatError::Deserialization(
                json_error("the document does not have the shape of the expected record"),
            ),
        ),
    }
}

/// Whether `r` is what a response of this status and body gives.
pub open spec fn response_outcome<T: FromJson>(
    status: u16,
    body: Seq<char>,
    r: Result<T, MindatError>,
) -> bool {
    if is_success(status) {
        match r {
            Ok(value) => json_document(body) matches Some(json) && T::decodable(json)
                && T::decodes(json, value),
            Err(e) => e is Deserialization && !(json_document(body) matches Some(json)
                && T::decodable(json)),
        }
    } else if status == 401 {
        r matches Err(MindatError::AuthenticationRequired)
    } else if status == 404 {
        r matches Err(MindatError::NotFound(detail)) && detail@ == body
    } else if status == 429 {
        r matches Err(MindatError::RateLimited)
    } else {
        r matches Err(MindatError::Api { status: code, message }) && code == status && message@
            == body
    }
}

/// Reads the response to a request that expects a `T`.
pub fn handle_response<T: FromJson>(status: u16, body: String) -> (r: Result<T, MindatError>)
    ensures
        response_outcome::<T>(status, body@, r),
{
    if 200 <= status && status < 300 {
        match parse_json(body.as_str()) {
            Ok(document) => read_document::<T>(&document),
            Err(e) => Err(MindatError::Deserialization(e)),
        }
    } else {
        Err(error_for_status(status, body))
    }
}

impl<T: FromJson> Request<T> {
    /// Reads the response to this request. A status of the success class
    /// gives the decoded body, or the decode kind where the body cannot be
    /// decoded; 401, 404 and 429 give their own kinds; any other status gives
    /// the API kind with status and body.
    pub fn handle_response(&self, status: u16, body: String) -> (r: Result<T, MindatError>)
        ensures
            response_outcome::<T>(status, body@, r),
    {
        handle_response::<T>(status, body)
    }
}

/// Client for interacting with the Mindat API.
#[derive(Debug, Clone)]
pub struct MindatClient {
    base_url: url::Url,
    token: Option<String>,
    timeout: Option<Duration>,
}

impl MindatClient {
    /// The serialization of the base URL.
    pub closed spec fn base(self) -> Seq<char> {
        url_text(self.base_url)
    }

    /// The characters of the token, if there is one.
    pub closed spec fn token_text(self) -> Option<Seq<char>> {
        match self.token {
            Some(t) => Some(t@),
            None => None,
        }
    }

    /// The timeout asked for, if any.
    pub closed spec fn timeout_asked(self) -> Option<Duration> {
        self.timeout
    }

    /// Whether `r` is the plan of a GET of `path` with `params`: the URL
    /// error where the path cannot be resolved against the base; else the
    /// parameter error where the token cannot be sent in a header, or where
    /// there are parameters and they do not fit; else the request with its
    /// URL and headers.
    pub open spec fn plans<T>(
        self,
        r: Result<Request<T>, MindatError>,
        path: Seq<char>,
        params: Seq<(Seq<char>, Seq<char>)>,
    ) -> bool {
        match resolved_url(self.base(), path) {
            None => r matches Err(MindatError::Url(_)),
            Some(url) => match self.token_text() {
                Some(token) if !is_header_text(authorization(token)) => r matches Err(
                    MindatError::InvalidParameter(reason),
                ) && reason@ == "Invalid token format"@,
                _ => if params.len() > 0 && !query_fits(url, params) {
                    r matches Err(MindatError::InvalidParameter(reason)) && reason@
                        == "Query too long"@
                } else {
                    r matches Ok(request) && request.url@ == request_url(url, params)
                        && pairs_view(request.headers@) == request_headers(self.token_text())
                },
            },
        }
    }

    /// Create a new client builder for more configuration options.
    pub fn builder() -> (builder: MindatClientBuilder)
        ensures
            builder.token_text() is None,
            builder.base_text() == DEFAULT_BASE_URL@,
            builder.timeout_asked() is None,
    {
        MindatClientBuilder::new()
    }

    /// Set the API token.
    pub fn set_token(&mut self, token: &str)
        ensures
            final(self).token_text() == Some(token@),
            final(self).base() == old(self).base(),
            final(self).timeout_asked() == old(self).timeout_asked(),
    {
        self.token = Some(token.to_owned());
    }

    /// Get the base URL.
    pub fn base_url(&self) -> (url: &url::Url)
        ensures
            url_text(*url) == self.base(),
    {
        &self.base_url
    }

    /// The timeout that the builder was given, for the transport to apply.
    pub fn timeout(&self) -> (timeout: Option<Duration>)
        ensures
            timeout == self.timeout_asked(),
    {
        self.timeout
    }

    /// Build request headers.
    pub fn headers(&self) -> (r: Result<Vec<(String, String)>, MindatError>)
        ensures
            match self.token_text() {
                Some(token) if !is_header_text(authorization(token)) => r matches Err(
                    MindatError::InvalidParameter(reason),
                ) && reason@ == "Invalid token format"@,
                _ => r matches Ok(headers) && pairs_view(headers@) == request_headers(
                    self.token_text(),
                ),
            },
    {
        let mut headers: Vec<(String, String)> = Vec::new();
        headers.push(("user-agent".to_owned(), USER_AGENT_STRING.to_owned()));
        headers.push(("accept".to_owned(), "application/json".to_owned()));
        assert(pairs_view(headers@) =~= request_headers(None));
        match &self.token {
            Some(token) => {
                let value = String::from_str("Token ").concat(token.as_str());
                if !header_value_accepts(value.as_str()) {
                    return Err(
                        MindatError::InvalidParameter("Invalid token format".to_owned()),
                    );
                }
                headers.push(("authorization".to_owned(), value));
                assert(pairs_view(headers@) =~= request_headers(Some(token@)));
            },
            None => {},
        }
        Ok(headers)
    }

    /// Plan a GET request to the API.
    pub fn get<T>(&self, path: &str) -> (r: Result<Request<T>, MindatError>)
        ensures
            self.plans(r, path@, Seq::empty()),
    {
        let none: Vec<(String, String)> = Vec::new();
        assert(pairs_view(none@) =~= Seq::empty());
        self.get_with_query(path, &none)
    }

    /// Plan a GET request with query parameters.
    pub fn get_with_query<T>(&self, path: &str, params: &Vec<(String, String)>) -> (r: Result<
        Request<T>,
        MindatError,
    >)
        ensures
            self.plans(r, path@, pairs_view(params@)),
    {
        // Strip leading slash to ensure proper URL joining with base URL
        let count = path.unicode_len();
        let relative = if count > 0 && path.get_char(0) == '/' {
            path.substring_char(1, count)
        } else {
            path
        };
        assert(relative@ =~= strip_leading_slash(path@));
        let joined = match join_url(&self.base_url, relative) {
            Ok(url) => url,
            Err(e) => {
                return Err(MindatError::Url(e));
            },
        };
        let headers = match self.headers() {
            Ok(headers) => headers,
            Err(e) => {
                return Err(e);
            },
        };
        let url = if params.len() == 0 {
            joined
        } else {
            if url_as_str(&joined).as_bytes().len() > MAX_QUERY_BYTES || !pairs_fit(
                params,
                MAX_QUERY_BYTES,
            ) {
                return Err(MindatError::InvalidParameter("Query too long".to_owned()));
            }
            url_extend_pairs(joined, params)
        };
        Ok(Request { url: url_as_str(&url).to_owned(), headers, expects: PhantomData })
    }
}

/// Builder for MindatClient configuration.
#[derive(Debug, Clone)]
pub struct MindatClientBuilder {
    token: Option<String>,
    base_url: String,
    timeout: Option<Duration>,
}

impl MindatClientBuilder {
    /// The characters of the token, if one was given.
    pub closed spec fn token_text(self) -> Option<Seq<char>> {
        match self.token {
            Some(t) => Some(t@),
            None => None,
        }
    }

    /// The text of the base URL.
    pub closed spec fn base_text(self) -> Seq<char> {
        self.base_url@
    }

    /// The timeout asked for, if any.
    pub closed spec fn timeout_asked(self) -> Option<Duration> {
        self.timeout
    }

    /// Create a new builder.
    pub fn new() -> (builder: Self)
        ensures
            builder.token_text() is None,
            builder.base_text() == DEFAULT_BASE_URL@,
            builder.timeout_asked() is None,
    {
        MindatClientBuilder { token: None, base_url: DEFAULT_BASE_URL.to_owned(), timeout: None }
    }

    /// Set the API token.
    pub fn token(self, token: &str) -> (builder: Self)
        ensures
            builder.token_text() == Some(token@),
            builder.base_text() == self.base_text(),
            builder.timeout_asked() == self.timeout_asked(),
    {
        let mut builder = self;
        builder.token = Some(token.to_owned());
        builder
    }

    /// Set a custom base URL.
    pub fn base_url(self, url: &str) -> (builder: Self)
        ensures
            builder.base_text() == url@,
            builder.token_text() == self.token_text(),
            builder.timeout_asked() == self.timeout_asked(),
    {
        let mut builder = self;
        builder.base_url = url.to_owned();
        builder
    }

    /// Set request timeout.
    pub fn timeout(self, timeout: Duration) -> (builder: Self)
        ensures
            builder.timeout_asked() == Some(timeout),
            builder.token_text() == self.token_text(),
            builder.base_text() == self.base_text(),
    {
        let mut builder = self;
        builder.timeout = Some(timeout);
        builder
    }

    /// Build the client. Fails, with the URL kind, where the base URL is no
    /// absolute URL.
    pub fn build(self) -> (r: Result<MindatClient, MindatError>)
        ensures
            parsed_url(self.base_text()) is None ==> r matches Err(MindatError::Url(_)),
            parsed_url(self.base_text()) matches Some(base) ==> (r matches Ok(client)
                && client.base() == base && client.token_text() == self.token_text()
                && client.timeout_asked() == self.timeout_asked()),
    {
        match parse_url(self.base_url.as_str()) {
            Ok(base_url) => Ok(
                MindatClient { base_url, token: self.token, timeout: self.timeout },
            ),
            Err(e) => Err(MindatError::Url(e)),
        }
    }
}

impl Default for MindatClientBuilder {
    fn default() -> (builder: Self)
        ensures
            builder.token_text() is None,
            builder.base_text() == DEFAULT_BASE_URL@,
            builder.timeout_asked() is None,
    {
        MindatClientBuilder::new()
    }
}

} // verus!
