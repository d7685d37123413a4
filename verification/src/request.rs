//! A request: a validated bundle of URL, method, headers, body, options and
//! signal.
//!
//! A request is made once, by [`Request::new`], and is not changed
//! afterwards, but for its body: that can be read once, or taken out.

use crate::abort::AbortSignal;
use crate::body::{
    body_bytes, body_drained, body_is_used, body_json, body_text, body_used, body_view, bytes_of,
    clone_body, content_type_of, fails_as, read_body_bytes, read_body_json, read_body_text,
    ReadableStream, StreamView,
};
use crate::error::FetchError;
use crate::headers::{after_set, lookup, HeaderMap, Headers};
use crate::text::{ascii_upper, check_token, is_token, to_uppercase};
use bytes::Bytes;
use serde_json::Value;
use vstd::prelude::*;
use vstd::string::*;

verus! {

/// What went wrong when a URL was parsed.
#[verifier::external_type_specification]
#[verifier::external_body]
pub struct ExUrlParseError(url::ParseError);

/// The URL that `Url::parse` reads from a text, as it is written out again;
/// none where the text is no absolute URL.
pub uninterp spec fn parsed_url(input: Seq<char>) -> Option<Seq<char>>;

/// The absolute URL that a text holds, written out in its normal form.
///
/// Trusted: this is `Url::parse` of the `url` crate, and the conversion of
/// its result into the text that it stands for. What it reads depends on the
/// text alone; the contract gives it a name and says no more.
#[verifier::external_body]
fn parse_url(input: &str) -> (r: Result<String, url::ParseError>)
    ensures
        match r {
            Ok(url) => parsed_url(input@) == Some(url@),
            Err(_) => parsed_url(input@).is_none(),
        },
{
    url::Url::parse(input).map(String::from)
}

/// The failure that stands for any failure to parse a URL.
pub fn url_failure(cause: url::ParseError) -> (r: FetchError)
    ensures
        r.is_type("Invalid URL"@),
{
    let _ = cause;
    FetchError::type_error("Invalid URL")
}

/// How a request relates to the origin of its caller.
#[derive(Debug, Clone, Copy, PartialEq, Eq, Structural)]
pub enum RequestMode {
    /// Only to the caller's own origin.
    SameOrigin,
    /// Across origins, under the CORS rules.
    Cors,
    /// Across origins, without CORS.
    NoCors,
    /// A navigation.
    Navigate,
}

impl Default for RequestMode {
    /// `Cors`.
    fn default() -> (r: Self)
        ensures
            r == RequestMode::Cors,
    {
        RequestMode::Cors
    }
}

/// Whether credentials go with a request.
#[derive(Debug, Clone, Copy, PartialEq, Eq, Structural)]
pub enum RequestCredentials {
    /// Never.
    Omit,
    /// To the caller's own origin only.
    SameOrigin,
    /// Always.
    Include,
}

impl Default for RequestCredentials {
    /// `SameOrigin`.
    fn default() -> (r: Self)
        ensures
            r == RequestCredentials::SameOrigin,
    {
        RequestCredentials::SameOrigin
    }
}

/// How a request uses the cache.
#[derive(Debug, Clone, Copy, PartialEq, Eq, Structural)]
pub enum RequestCache {
    /// As the cache sees fit.
    Default,
    /// Without the cache.
    NoStore,
    /// Past the cache, which is then updated.
    Reload,
    /// After asking the server whether the cached response still holds.
    NoCache,
    /// From the cache where it has a response, fresh or stale.
    ForceCache,
    /// From the cache only.
    OnlyIfCached,
}

impl Default for RequestCache {
    /// `Default`.
    fn default() -> (r: Self)
        ensures
            r == RequestCache::Default,
    {
        RequestCache::Default
    }
}

/// What a request does with a redirect.
#[derive(Debug, Clone, Copy, PartialEq, Eq, Structural)]
pub enum RequestRedirect {
    /// Follows it.
    Follow,
    /// Fails.
    Error,
    /// Hands it to the caller.
    Manual,
}

impl Default for RequestRedirect {
    /// `Follow`.
    fn default() -> (r: Self)
        ensures
            r == RequestRedirect::Follow,
    {
        RequestRedirect::Follow
    }
}

/// What a request is made with: each field may be left out.
pub struct RequestInit {
    /// The method; `GET` where it is left out.
    pub method: Option<String>,
    /// The headers; none where they are left out.
    pub headers: Option<Headers>,
    /// The body.
    pub body: Option<ReadableStream>,
    /// The mode; `Cors` where it is left out.
    pub mode: Option<RequestMode>,
    /// The credentials; `SameOrigin` where they are left out.
    pub credentials: Option<RequestCredentials>,
    /// The cache mode; `Default` where it is left out.
    pub cache: Option<RequestCache>,
    /// The redirect mode; `Follow` where it is left out.
    pub redirect: Option<RequestRedirect>,
    /// The referrer; `about:client` where it is left out.
    pub referrer: Option<String>,
    /// The referrer policy; empty where it is left out.
    pub referrer_policy: Option<String>,
    /// The integrity metadata; empty where it is left out.
    pub integrity: Option<String>,
    /// Whether the request may outlive its caller; not so where it is left
    /// out.
    pub keepalive: Option<bool>,
    /// The signal that aborts the request.
    pub signal: Option<AbortSignal>,
}

impl RequestInit {
    /// Whether every field is left out.
    pub open spec fn is_blank(&self) -> bool {
        &&& self.method.is_none()
        &&& self.headers.is_none()
        &&& self.body.is_none()
        &&& self.mode.is_none()
        &&& self.credentials.is_none()
        &&& self.cache.is_none()
        &&& self.redirect.is_none()
        &&& self.referrer.is_none()
        &&& self.referrer_policy.is_none()
        &&& self.integrity.is_none()
        &&& self.keepalive.is_none()
        &&& self.signal.is_none()
    }

    /// An init with every field left out.
    pub fn new() -> (r: Self)
        ensures
            r.is_blank(),
    {
        RequestInit {
            method: None,
            headers: None,
            body: None,
            mode: None,
            credentials: None,
            cache: None,
            redirect: None,
            referrer: None,
            referrer_policy: None,
            integrity: None,
            keepalive: None,
            signal: None,
        }
    }
}

impl RequestInit {
    /// Whether two inits ask for the same: each field is left out in both, or
    /// holds the same in both.
    pub open spec fn agrees_with(&self, other: &RequestInit) -> bool {
        &&& self.method == other.method
        &&& match (self.headers, other.headers) {
            (Some(a), Some(b)) => a@ == b@,
            (None, None) => true,
            _ => false,
        }
        &&& body_view(self.body) == body_view(other.body)
        &&& self.mode == other.mode
        &&& self.credentials == other.credentials
        &&& self.cache == other.cache
        &&& self.redirect == other.redirect
        &&& self.referrer == other.referrer
        &&& self.referrer_policy == other.referrer_policy
        &&& self.integrity == other.integrity
        &&& self.keepalive == other.keepalive
        &&& self.signal == other.signal
    }
}

/// A copy of an optional text.
fn clone_text(text: &Option<String>) -> (r: Option<String>)
    ensures
        r == *text,
{
    match text {
        Some(text) => Some(text.clone()),
        None => None,
    }
}

impl Clone for RequestInit {
    /// An init of its own that asks for the same. The headers and the body
    /// are copied; the signal is shared.
    fn clone(&self) -> (r: Self)
        ensures
            r.agrees_with(self),
    {
        RequestInit {
            method: clone_text(&self.method),
            headers: match &self.headers {
                Some(headers) => Some(headers.clone()),
                None => None,
            },
            body: clone_body(&self.body),
            mode: self.mode,
            credentials: self.credentials,
            cache: self.cache,
            redirect: self.redirect,
            referrer: clone_text(&self.referrer),
            referrer_policy: clone_text(&self.referrer_policy),
            integrity: clone_text(&self.integrity),
            keepalive: self.keepalive,
            signal: match &self.signal {
                Some(signal) => Some(signal.clone()),
                None => None,
            },
        }
    }
}

impl Default for RequestInit {
    /// An init with every field left out.
    fn default() -> (r: Self)
        ensures
            r.is_blank(),
    {
        RequestInit::new()
    }
}

/// Whether a method is one of the seven standard methods, in capitals.
pub open spec fn is_standard_method(m: Seq<char>) -> bool {
    ||| m == "GET"@
    ||| m == "POST"@
    ||| m == "PUT"@
    ||| m == "DELETE"@
    ||| m == "HEAD"@
    ||| m == "OPTIONS"@
    ||| m == "PATCH"@
}

/// The method as a request keeps it: a standard method in capitals, whatever
/// case it was given in; any other token as it was given; none for a text
/// that is no token.
pub open spec fn normal_method(m: Seq<char>) -> Option<Seq<char>> {
    if !is_token(m) {
        None
    } else if is_standard_method(ascii_upper(m)) {
        Some(ascii_upper(m))
    } else {
        Some(m)
    }
}

/// Whether a method takes no body: `GET` and `HEAD`.
pub open spec fn is_bodyless(m: Seq<char>) -> bool {
    m == "GET"@ || m == "HEAD"@
}

/// What a request holds.
pub struct RequestView {
    /// The URL, in its normal form.
    pub url: Seq<char>,
    /// The method.
    pub method: Seq<char>,
    /// The headers.
    pub headers: HeaderMap,
    /// The body, if there is one.
    pub body: Option<StreamView>,
    /// The mode.
    pub mode: RequestMode,
    /// The credentials mode.
    pub credentials: RequestCredentials,
    /// The cache mode.
    pub cache: RequestCache,
    /// The redirect mode.
    pub redirect: RequestRedirect,
    /// The referrer.
    pub referrer: Seq<char>,
    /// The referrer policy.
    pub referrer_policy: Seq<char>,
    /// The integrity metadata.
    pub integrity: Seq<char>,
    /// Whether the request may outlive its caller.
    pub keepalive: bool,
    /// The signal that aborts the request.
    pub signal: Option<AbortSignal>,
}

/// The text of an optional field, or the given text where it is left out.
pub open spec fn text_or(field: Option<String>, otherwise: Seq<char>) -> Seq<char> {
    match field {
        Some(text) => text@,
        None => otherwise,
    }
}

/// The headers that a request is made with: those of the init, and, where
/// they have no content type and the body brings one, that content type.
pub open spec fn initial_headers(init: RequestInit) -> HeaderMap {
    let given = match init.headers {
        Some(headers) => headers@,
        None => HeaderMap::empty(),
    };
    match init.body {
        Some(body) => match content_type_of(body@.content) {
            Some(content_type) => if lookup(given, "content-type"@).is_none() {
                after_set(given, "content-type"@, content_type)
            } else {
                given
            },
            None => given,
        },
        None => given,
    }
}

/// The request that is made from a parsed URL and an init, or the message of
/// the failure to make one: a method that is no token is refused, and so is
/// a body with `GET` or `HEAD`.
pub open spec fn request_of(url: Seq<char>, init: RequestInit) -> Result<RequestView, Seq<char>> {
    match normal_method(text_or(init.method, "GET"@)) {
        None => Err("Invalid method"@),
        Some(method) => if is_bodyless(method) && init.body.is_some() {
            Err("Request with GET/HEAD method cannot have body"@)
        } else {
            Ok(
                RequestView {
                    url,
                    method,
                    headers: initial_headers(init),
                    body: body_view(init.body),
                    mode: match init.mode {
                        Some(mode) => mode,
                        None => RequestMode::Cors,
                    },
                    credentials: match init.credentials {
                        Some(credentials) => credentials,
                        None => RequestCredentials::SameOrigin,
                    },
                    cache: match init.cache {
                        Some(cache) => cache,
                        None => RequestCache::Default,
                    },
                    redirect: match init.redirect {
                        Some(redirect) => redirect,
                        None => RequestRedirect::Follow,
                    },
                    referrer: text_or(init.referrer, "about:client"@),
                    referrer_policy: text_or(init.referrer_policy, Seq::empty()),
                    integrity: text_or(init.integrity, Seq::empty()),
                    keepalive: match init.keepalive {
                        Some(keepalive) => keepalive,
                        None => false,
                    },
                    signal: init.signal,
                },
            )
        },
    }
}

/// The init that stands for an init that was left out.
pub open spec fn init_or_blank(init: Option<RequestInit>) -> RequestInit {
    match init {
        Some(init) => init,
        None => RequestInit {
            method: None,
            headers: None,
            body: None,
            mode: None,
            credentials: None,
            cache: None,
            redirect: None,
            referrer: None,
            referrer_policy: None,
            integrity: None,
            keepalive: None,
            signal: None,
        },
    }
}

/// The request that is made from a text and an init, or the message of the
/// failure to make one: first the text must hold an absolute URL, then the
/// init is looked at.
pub open spec fn new_request(input: Seq<char>, init: Option<RequestInit>) -> Result<
    RequestView,
    Seq<char>,
> {
    match parsed_url(input) {
        None => Err("Invalid URL"@),
        Some(url) => request_of(url, init_or_blank(init)),
    }
}

/// Whether a text is the given literal.
fn text_is(text: &str, literal: &str) -> (r: bool)
    ensures
        r == (text@ == literal@),
{
    String::from_str(text) == String::from_str(literal)
}

/// The two content types that a body may bring are accepted as header
/// values, under the name `content-type`.
pub proof fn lemma_content_types_accepted()
    ensures
        crate::headers::accepted("content-type"@, "text/plain;charset=UTF-8"@),
        crate::headers::accepted("content-type"@, "application/json"@),
{
    reveal_strlit("content-type");
    reveal_strlit("text/plain;charset=UTF-8");
    reveal_strlit("application/json");
    let a = "text/plain;charset=UTF-8"@;
    let b = "application/json"@;
    crate::text::lemma_trim_fixed(a);
    crate::text::lemma_trim_fixed(b);
}

/// A request.
pub struct Request {
    url: String,
    method: String,
    headers: Headers,
    body: Option<ReadableStream>,
    mode: RequestMode,
    credentials: RequestCredentials,
    cache: RequestCache,
    redirect: RequestRedirect,
    referrer: String,
    referrer_policy: String,
    integrity: String,
    keepalive: bool,
    signal: Option<AbortSignal>,
}

impl View for Request {
    type V = RequestView;

    closed spec fn view(&self) -> RequestView {
        RequestView {
            url: self.url@,
            method: self.method@,
            headers: self.headers@,
            body: body_view(self.body),
            mode: self.mode,
            credentials: self.credentials,
            cache: self.cache,
            redirect: self.redirect,
            referrer: self.referrer@,
            referrer_policy: self.referrer_policy@,
            integrity: self.integrity@,
            keepalive: self.keepalive,
            signal: self.signal,
        }
    }
}

/// The text of an optional field, or the given literal where it is left out.
fn field_or(field: Option<String>, otherwise: &str) -> (r: String)
    ensures
        r@ == text_or(field, otherwise@),
{
    match field {
        Some(text) => text,
        None => String::from_str(otherwise),
    }
}

impl Request {
    /// The method as a request keeps it, or the failure to keep it.
    pub fn normalize_method(method: &str) -> (r: Result<String, FetchError>)
        ensures
            match r {
                Ok(m) => normal_method(method@) == Some(m@),
                Err(e) => normal_method(method@).is_none() && e.is_type("Invalid method"@),
            },
    {
        if !check_token(method) {
            return Err(FetchError::type_error("Invalid method"));
        }
        let upper = to_uppercase(method);
        let u = upper.as_str();
        if text_is(u, "GET") || text_is(u, "POST") || text_is(u, "PUT") || text_is(u, "DELETE")
            || text_is(u, "HEAD") || text_is(u, "OPTIONS") || text_is(u, "PATCH") {
            Ok(upper)
        } else {
            Ok(String::from_str(method))
        }
    }

    /// Makes a request for the URL that the text holds. The text must hold
    /// an absolute URL; the init is looked at as [`Request::from_parsed`]
    /// says.
    pub fn new(input: &str, init: Option<RequestInit>) -> (r: Result<Self, FetchError>)
        ensures
            match r {
                Ok(request) => new_request(input@, init) == Ok::<RequestView, Seq<char>>(
                    request@,
                ),
                Err(e) => fails_as(e, new_request(input@, init)),
            },
    {
        let url = match parse_url(input) {
            Ok(url) => url,
            Err(cause) => {
                return Err(url_failure(cause));
            },
        };
        let init = match init {
            Some(init) => init,
            None => RequestInit::new(),
        };
        Request::from_parsed(url, init)
    }

    /// Makes a request from a URL in its normal form and an init. The method
    /// is `GET` where the init has none; it must be a token, and is put in
    /// capitals where it is a standard method. `GET` and `HEAD` take no body.
    /// Where the body brings a content type and the headers have none, it is
    /// set. Every other field left out gets its default.
    pub fn from_parsed(url: String, init: RequestInit) -> (r: Result<Self, FetchError>)
        ensures
            match r {
                Ok(request) => request_of(url@, init) == Ok::<RequestView, Seq<char>>(request@),
                Err(e) => fails_as(e, request_of(url@, init)),
            },
    {
        let RequestInit {
            method,
            headers,
            body,
            mode,
            credentials,
            cache,
            redirect,
            referrer,
            referrer_policy,
            integrity,
            keepalive,
            signal,
        } = init;
        let method = field_or(method, "GET");
        let method = match Request::normalize_method(method.as_str()) {
            Ok(method) => method,
            Err(e) => {
                return Err(e);
            },
        };
        let bodyless = text_is(method.as_str(), "GET") || text_is(method.as_str(), "HEAD");
        if bodyless && body.is_some() {
            return Err(FetchError::type_error("Request with GET/HEAD method cannot have body"));
        }
        let mut headers = match headers {
            Some(headers) => headers,
            None => Headers::new(),
        };
        match &body {
            Some(stream) => {
                match stream.get_content_type() {
                    Some(content_type) => {
                        let has = headers.get("content-type");
                        proof {
                            lemma_content_types_accepted();
                        }
                        match has {
                            Ok(None) => {
                                let _ = headers.set("content-type", content_type);
                            },
                            _ => {},
                        }
                    },
                    None => {},
                }
            },
            None => {},
        }
        Ok(
            Request {
                url,
                method,
                headers,
                body,
                mode: match mode {
                    Some(mode) => mode,
                    None => RequestMode::Cors,
                },
                credentials: match credentials {
                    Some(credentials) => credentials,
                    None => RequestCredentials::SameOrigin,
                },
                cache: match cache {
                    Some(cache) => cache,
                    None => RequestCache::Default,
                },
                redirect: match redirect {
                    Some(redirect) => redirect,
                    None => RequestRedirect::Follow,
                },
                referrer: field_or(referrer, "about:client"),
                referrer_policy: match referrer_policy {
                    Some(policy) => policy,
                    None => String::new(),
                },
                integrity: match integrity {
                    Some(integrity) => integrity,
                    None => String::new(),
                },
                keepalive: match keepalive {
                    Some(keepalive) => keepalive,
                    None => false,
                },
                signal,
            },
        )
    }

    /// The URL, in its normal form.
    pub fn url(&self) -> (r: &str)
        ensures
            r@ == self@.url,
    {
        self.url.as_str()
    }

    /// The method.
    pub fn method(&self) -> (r: &str)
        ensures
            r@ == self@.method,
    {
        self.method.as_str()
    }

    /// The headers.
    pub fn headers(&self) -> (r: &Headers)
        ensures
            r@ == self@.headers,
    {
        &self.headers
    }

    /// The body, if there is one. Looking at it does not read it.
    pub fn body(&self) -> (r: Option<&ReadableStream>)
        ensures
            match r {
                Some(stream) => self@.body == Some(stream@),
                None => self@.body.is_none(),
            },
    {
        self.body.as_ref()
    }

    /// Whether the body was read; not so where there is no body.
    pub fn body_used(&self) -> (r: bool)
        ensures
            r == body_is_used(self@.body),
    {
        body_used(&self.body)
    }

    /// The mode.
    pub fn mode(&self) -> (r: RequestMode)
        ensures
            r == self@.mode,
    {
        self.mode
    }

    /// The credentials mode.
    pub fn credentials(&self) -> (r: RequestCredentials)
        ensures
            r == self@.credentials,
    {
        self.credentials
    }

    /// The cache mode.
    pub fn cache(&self) -> (r: RequestCache)
        ensures
            r == self@.cache,
    {
        self.cache
    }

    /// The redirect mode.
    pub fn redirect(&self) -> (r: RequestRedirect)
        ensures
            r == self@.redirect,
    {
        self.redirect
    }

    /// The referrer.
    pub fn referrer(&self) -> (r: &str)
        ensures
            r@ == self@.referrer,
    {
        self.referrer.as_str()
    }

    /// The referrer policy.
    pub fn referrer_policy(&self) -> (r: &str)
        ensures
            r@ == self@.referrer_policy,
    {
        self.referrer_policy.as_str()
    }

    /// The integrity metadata.
    pub fn integrity(&self) -> (r: &str)
        ensures
            r@ == self@.integrity,
    {
        self.integrity.as_str()
    }

    /// Whether the request may outlive its caller.
    pub fn keepalive(&self) -> (r: bool)
        ensures
            r == self@.keepalive,
    {
        self.keepalive
    }

    /// The signal that aborts the request, if it has one.
    pub fn signal(&self) -> (r: Option<&AbortSignal>)
        ensures
            match r {
                Some(signal) => self@.signal == Some(*signal),
                None => self@.signal.is_none(),
            },
    {
        self.signal.as_ref()
    }

    /// A request of its own with the same content, where the body was not
    /// read; a failure where it was. The headers and the body are copied; the
    /// signal is shared.
    pub fn clone_request(&self) -> (r: Result<Self, FetchError>)
        ensures
            match r {
                Ok(copy) => !body_is_used(self@.body) && copy@ == self@,
                Err(e) => body_is_used(self@.body) && e.is_type(
                    "Cannot clone a request with a used body"@,
                ),
            },
    {
        if self.body_used() {
            return Err(FetchError::type_error("Cannot clone a request with a used body"));
        }
        Ok(self.clone())
    }

    /// Takes the body out: the request has none afterwards, and is otherwise
    /// as it was.
    pub fn take_body(&mut self) -> (r: Option<ReadableStream>)
        ensures
            body_view(r) == old(self)@.body,
            final(self)@ == (RequestView { body: None, ..old(self)@ }),
    {
        self.body.take()
    }

    /// Reads the body as bytes; no body gives no bytes. The body is used up,
    /// whether this succeeds or fails; nothing else changes.
    pub fn read_bytes(&mut self) -> (r: Result<Bytes, FetchError>)
        ensures
            final(self)@ == (RequestView { body: body_drained(old(self)@.body), ..old(self)@ }),
            match r {
                Ok(bytes) => body_bytes(old(self)@.body) == Ok::<Seq<u8>, Seq<char>>(
                    bytes_of(bytes),
                ),
                Err(e) => fails_as(e, body_bytes(old(self)@.body)),
            },
    {
        read_body_bytes(&mut self.body)
    }

    /// Reads the body as a text; no body gives the empty text. The body is
    /// used up, whether this succeeds or fails; nothing else changes.
    pub fn read_text(&mut self) -> (r: Result<String, FetchError>)
        ensures
            final(self)@ == (RequestView { body: body_drained(old(self)@.body), ..old(self)@ }),
            match r {
                Ok(text) => body_text(old(self)@.body) == Ok::<Seq<char>, Seq<char>>(text@),
                Err(e) => fails_as(e, body_text(old(self)@.body)),
            },
    {
        read_body_text(&mut self.body)
    }

    /// Reads the body as JSON; no body fails as no content does. The body is
    /// used up, whether this succeeds or fails; nothing else changes.
    pub fn read_json(&mut self) -> (r: Result<Value, FetchError>)
        ensures
            final(self)@ == (RequestView { body: body_drained(old(self)@.body), ..old(self)@ }),
            match r {
                Ok(value) => body_json(old(self)@.body) == Ok::<Value, Seq<char>>(value),
                Err(e) => fails_as(e, body_json(old(self)@.body)),
            },
    {
        read_body_json(&mut self.body)
    }

    /// Reads the body as form data, which is its text.
    pub fn read_form_data(&mut self) -> (r: Result<String, FetchError>)
        ensures
            final(self)@ == (RequestView { body: body_drained(old(self)@.body), ..old(self)@ }),
            match r {
                Ok(text) => body_text(old(self)@.body) == Ok::<Seq<char>, Seq<char>>(text@),
                Err(e) => fails_as(e, body_text(old(self)@.body)),
            },
    {
        read_body_text(&mut self.body)
    }

    /// The bytes of the body of the request, which is given up.
    pub fn array_buffer(self) -> (r: Result<Bytes, FetchError>)
        ensures
            match r {
                Ok(bytes) => body_bytes(self@.body) == Ok::<Seq<u8>, Seq<char>>(bytes_of(bytes)),
                Err(e) => fails_as(e, body_bytes(self@.body)),
            },
    {
        let mut request = self;
        request.read_bytes()
    }

    /// The bytes of the body of the request, which is given up: as
    /// `array_buffer`.
    pub fn blob(self) -> (r: Result<Bytes, FetchError>)
        ensures
            match r {
                Ok(bytes) => body_bytes(self@.body) == Ok::<Seq<u8>, Seq<char>>(bytes_of(bytes)),
                Err(e) => fails_as(e, body_bytes(self@.body)),
            },
    {
        self.array_buffer()
    }

    /// The form data of the body of the request, which is given up: as
    /// `text`.
    pub fn form_data(self) -> (r: Result<String, FetchError>)
        ensures
            match r {
                Ok(text) => body_text(self@.body) == Ok::<Seq<char>, Seq<char>>(text@),
                Err(e) => fails_as(e, body_text(self@.body)),
            },
    {
        self.text()
    }

    /// The JSON value of the body of the request, which is given up.
    pub fn json(self) -> (r: Result<Value, FetchError>)
        ensures
            match r {
                Ok(value) => body_json(self@.body) == Ok::<Value, Seq<char>>(value),
                Err(e) => fails_as(e, body_json(self@.body)),
            },
    {
        let mut request = self;
        request.read_json()
    }

    /// The text of the body of the request, which is given up.
    pub fn text(self) -> (r: Result<String, FetchError>)
        ensures
            match r {
                Ok(text) => body_text(self@.body) == Ok::<Seq<char>, Seq<char>>(text@),
                Err(e) => fails_as(e, body_text(self@.body)),
            },
    {
        let mut request = self;
        request.read_text()
    }
}

impl Clone for Request {
    /// A request of its own with the same content, read body or not. The
    /// headers and the body are copied; the signal is shared.
    fn clone(&self) -> (r: Self)
        ensures
            r@ == self@,
    {
        Request {
            url: self.url.clone(),
            method: self.method.clone(),
            headers: self.headers.clone(),
            body: clone_body(&self.body),
            mode: self.mode,
            credentials: self.credentials,
            cache: self.cache,
            redirect: self.redirect,
            referrer: self.referrer.clone(),
            referrer_policy: self.referrer_policy.clone(),
            integrity: self.integrity.clone(),
            keepalive: self.keepalive,
            signal: match &self.signal {
                Some(signal) => Some(signal.clone()),
                None => None,
            },
        }
    }
}

/// Two inits that ask for the same give the same request, or the same
/// failure.
pub proof fn law_same_init_same_request(url: Seq<char>, a: RequestInit, b: RequestInit)
    requires
        a.agrees_with(&b),
    ensures
        request_of(url, a) == request_of(url, b),
{
}

} // verus!
