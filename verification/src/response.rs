//! A response: status, headers, body and classification.
//!
//! A response is made by a constructor that validates what it is given, or
//! is put together from what a transport returned. Its body can be read
//! once.

use crate::body::{
    body_bytes, body_drained, body_is_used, body_json, body_text, body_used, body_view, bytes_of,
    clone_body, fails_as, read_body_bytes, read_body_json, read_body_text, ReadableStream,
    StreamView,
};
use crate::error::FetchError;
use crate::headers::{after_set, HeaderMap, Headers};
use crate::text::{is_field_text, trim};
use bytes::Bytes;
use serde_json::Value;
use vstd::prelude::*;
use vstd::string::*;

verus! {

/// How much of a response its caller may see. It is a label only.
#[derive(Debug, Clone, Copy, PartialEq, Eq, Structural)]
pub enum ResponseType {
    /// A response from the caller's own origin.
    Basic,
    /// A response from another origin, under the CORS rules.
    Cors,
    /// A response that is neither.
    Default,
    /// A network error.
    Error,
    /// A response from another origin, without CORS.
    Opaque,
    /// A redirect that was not followed.
    OpaqueRedirect,
}

impl Default for ResponseType {
    /// `Basic`.
    fn default() -> (r: Self)
        ensures
            r == ResponseType::Basic,
    {
        ResponseType::Basic
    }
}

/// What a response is made with: each field may be left out.
pub struct ResponseInit {
    /// The status; 200 where it is left out.
    pub status: Option<u16>,
    /// The status text; the reason phrase of the status where it is left out.
    pub status_text: Option<String>,
    /// The headers; none where they are left out.
    pub headers: Option<Headers>,
}

impl ResponseInit {
    /// Whether every field is left out.
    pub open spec fn is_blank(&self) -> bool {
        self.status.is_none() && self.status_text.is_none() && self.headers.is_none()
    }

    /// An init with every field left out.
    pub fn new() -> (r: Self)
        ensures
            r.is_blank(),
    {
        ResponseInit { status: None, status_text: None, headers: None }
    }
}

impl Default for ResponseInit {
    /// An init with every field left out.
    fn default() -> (r: Self)
        ensures
            r.is_blank(),
    {
        ResponseInit::new()
    }
}

/// The reason phrase that goes with a status; empty for a status that the
/// table does not list.
pub open spec fn reason_phrase(status: u16) -> Seq<char> {
    match status {
        200u16 => "OK"@,
        201u16 => "Created"@,
        204u16 => "No Content"@,
        301u16 => "Moved Permanently"@,
        302u16 => "Found"@,
        303u16 => "See Other"@,
        304u16 => "Not Modified"@,
        307u16 => "Temporary Redirect"@,
        308u16 => "Permanent Redirect"@,
        400u16 => "Bad Request"@,
        401u16 => "Unauthorized"@,
        403u16 => "Forbidden"@,
        404u16 => "Not Found"@,
        405u16 => "Method Not Allowed"@,
        409u16 => "Conflict"@,
        410u16 => "Gone"@,
        422u16 => "Unprocessable Entity"@,
        429u16 => "Too Many Requests"@,
        500u16 => "Internal Server Error"@,
        501u16 => "Not Implemented"@,
        502u16 => "Bad Gateway"@,
        503u16 => "Service Unavailable"@,
        504u16 => "Gateway Timeout"@,
        _ => Seq::empty(),
    }
}

/// Whether a status is one that a response may be made with: 200 to 599.
pub open spec fn is_response_status(status: u16) -> bool {
    200 <= status <= 599
}

/// Whether a status is one that a redirect may be made with: 301, 302, 303,
/// 307 or 308.
pub open spec fn is_redirect_status(status: u16) -> bool {
    status == 301 || status == 302 || status == 303 || status == 307 || status == 308
}

/// Whether a status tells success: 200 to 299.
pub open spec fn is_ok_status(status: u16) -> bool {
    200 <= status < 300
}

/// Whether a text holds a carriage return or a line feed.
pub open spec fn has_line_break(s: Seq<char>) -> bool {
    exists|i: int| 0 <= i < s.len() && (#[trigger] s[i] == '\r' || s[i] == '\n')
}

/// What a response holds.
pub struct ResponseView {
    /// The classification.
    pub response_type: ResponseType,
    /// The URL that the response came from; empty where it was made directly.
    pub url: Seq<char>,
    /// Whether the response came after a redirect.
    pub redirected: bool,
    /// The status.
    pub status: u16,
    /// The status text.
    pub status_text: Seq<char>,
    /// The headers.
    pub headers: HeaderMap,
    /// The body, if there is one.
    pub body: Option<StreamView>,
}

/// The init that stands for an init that was left out.
pub open spec fn init_or_blank(init: Option<ResponseInit>) -> ResponseInit {
    match init {
        Some(init) => init,
        None => ResponseInit { status: None, status_text: None, headers: None },
    }
}

/// The status that a response is made with: that of the init, or 200.
pub open spec fn initial_status(init: ResponseInit) -> u16 {
    match init.status {
        Some(status) => status,
        None => 200,
    }
}

/// The status text that a response is made with: that of the init, or the
/// reason phrase of the status.
pub open spec fn initial_status_text(init: ResponseInit) -> Seq<char> {
    match init.status_text {
        Some(text) => text@,
        None => reason_phrase(initial_status(init)),
    }
}

/// The response that is made from a body and an init, or the message of the
/// failure to make one: a status outside 200 to 599 is refused, and so is a
/// status text with a line break.
pub open spec fn response_of(body: Option<ReadableStream>, init: Option<ResponseInit>) -> Result<
    ResponseView,
    Seq<char>,
> {
    let init = init_or_blank(init);
    if !is_response_status(initial_status(init)) {
        Err("Invalid status code"@)
    } else if has_line_break(initial_status_text(init)) {
        Err("Invalid status text"@)
    } else {
        Ok(
            ResponseView {
                response_type: ResponseType::Basic,
                url: Seq::empty(),
                redirected: false,
                status: initial_status(init),
                status_text: initial_status_text(init),
                headers: match init.headers {
                    Some(headers) => headers@,
                    None => HeaderMap::empty(),
                },
                body: body_view(body),
            },
        )
    }
}

/// The response that stands for a network error.
pub open spec fn error_response() -> ResponseView {
    ResponseView {
        response_type: ResponseType::Error,
        url: Seq::empty(),
        redirected: false,
        status: 0,
        status_text: Seq::empty(),
        headers: HeaderMap::empty(),
        body: None,
    }
}

/// The status that a redirect is made with: the given one, or 302.
pub open spec fn redirect_status(status: Option<u16>) -> u16 {
    match status {
        Some(status) => status,
        None => 302,
    }
}

/// The redirect that is made to a URL, or the message of the failure to make
/// one: a status that is none of 301, 302, 303, 307 and 308 is refused, and
/// so is a URL that cannot be the value of a header.
pub open spec fn redirect_of(url: Seq<char>, status: Option<u16>) -> Result<
    ResponseView,
    Seq<char>,
> {
    if !is_redirect_status(redirect_status(status)) {
        Err("Invalid redirect status"@)
    } else if !is_field_text(trim(url)) {
        Err("Invalid header value"@)
    } else {
        Ok(
            ResponseView {
                response_type: ResponseType::Basic,
                url: Seq::empty(),
                redirected: false,
                status: redirect_status(status),
                status_text: reason_phrase(redirect_status(status)),
                headers: after_set(HeaderMap::empty(), "location"@, url),
                body: None,
            },
        )
    }
}

/// Whether the text holds a carriage return or a line feed.
pub fn contains_line_break(s: &str) -> (r: bool)
    ensures
        r == has_line_break(s@),
{
    let ascii = s.is_ascii();
    let n: usize = s.unicode_len();
    let mut i: usize = 0;
    while i < n
        invariant
            ascii == s.is_ascii(),
            n == s@.len(),
            0 <= i <= n,
            forall|j: int| 0 <= j < i ==> !(#[trigger] s@[j] == '\r' || s@[j] == '\n'),
        decreases n - i,
    {
        let found = if ascii {
            let b: u8 = s.get_ascii(i);
            assert(s@[i as int] == b as char);
            b == 0x0d || b == 0x0a
        } else {
            let c = s.get_char(i);
            c == '\r' || c == '\n'
        };
        if found {
            return true;
        }
        i = i + 1;
    }
    false
}

/// A response.
#[derive(Debug)]
pub struct Response {
    response_type: ResponseType,
    url: String,
    redirected: bool,
    status: u16,
    status_text: String,
    headers: Headers,
    body: Option<ReadableStream>,
}

impl View for Response {
    type V = ResponseView;

    closed spec fn view(&self) -> ResponseView {
        ResponseView {
            response_type: self.response_type,
            url: self.url@,
            redirected: self.redirected,
            status: self.status,
            status_text: self.status_text@,
            headers: self.headers@,
            body: body_view(self.body),
        }
    }
}

impl Response {
    /// The reason phrase that goes with a status; empty for a status that the
    /// table does not list.
    pub fn default_status_text(status: u16) -> (r: String)
        ensures
            r@ == reason_phrase(status),
    {
        match status {
            200u16 => String::from_str("OK"),
            201u16 => String::from_str("Created"),
            204u16 => String::from_str("No Content"),
            301u16 => String::from_str("Moved Permanently"),
            302u16 => String::from_str("Found"),
            303u16 => String::from_str("See Other"),
            304u16 => String::from_str("Not Modified"),
            307u16 => String::from_str("Temporary Redirect"),
            308u16 => String::from_str("Permanent Redirect"),
            400u16 => String::from_str("Bad Request"),
            401u16 => String::from_str("Unauthorized"),
            403u16 => String::from_str("Forbidden"),
            404u16 => String::from_str("Not Found"),
            405u16 => String::from_str("Method Not Allowed"),
            409u16 => String::from_str("Conflict"),
            410u16 => String::from_str("Gone"),
            422u16 => String::from_str("Unprocessable Entity"),
            429u16 => String::from_str("Too Many Requests"),
            500u16 => String::from_str("Internal Server Error"),
            501u16 => String::from_str("Not Implemented"),
            502u16 => String::from_str("Bad Gateway"),
            503u16 => String::from_str("Service Unavailable"),
            504u16 => String::from_str("Gateway Timeout"),
            _ => String::new(),
        }
    }

    /// Makes a response from a body and an init. The status is 200 where the
    /// init has none, and must lie in 200 to 599. The status text is the
    /// reason phrase of the status where the init has none, and must hold no
    /// line break. The response is `Basic`, has no URL and was not
    /// redirected.
    pub fn new(body: Option<ReadableStream>, init: Option<ResponseInit>) -> (r: Result<
        Self,
        FetchError,
    >)
        ensures
            match r {
                Ok(response) => response_of(body, init) == Ok::<ResponseView, Seq<char>>(
                    response@,
                ),
                Err(e) => fails_as(e, response_of(body, init)),
            },
    {
        let init = match init {
            Some(init) => init,
            None => ResponseInit::new(),
        };
        let ResponseInit { status, status_text, headers } = init;
        let status: u16 = match status {
            Some(status) => status,
            None => 200,
        };
        if status < 200 || status > 599 {
            return Err(FetchError::type_error("Invalid status code"));
        }
        let status_text = match status_text {
            Some(text) => text,
            None => Response::default_status_text(status),
        };
        if contains_line_break(status_text.as_str()) {
            return Err(FetchError::type_error("Invalid status text"));
        }
        Ok(
            Response {
                response_type: ResponseType::Basic,
                url: String::new(),
                redirected: false,
                status,
                status_text,
                headers: match headers {
                    Some(headers) => headers,
                    None => Headers::new(),
                },
                body,
            },
        )
    }

    /// The response that stands for a network error: classification `Error`,
    /// status 0, nothing else.
    pub fn error() -> (r: Self)
        ensures
            r@ == error_response(),
    {
        Response {
            response_type: ResponseType::Error,
            url: String::new(),
            redirected: false,
            status: 0,
            status_text: String::new(),
            headers: Headers::new(),
            body: None,
        }
    }

    /// Makes a redirect to a URL. The status is 302 where none is given, and
    /// must be one of 301, 302, 303, 307 and 308. The URL becomes the
    /// `location` header, the only one; there is no body.
    pub fn redirect(url: &str, status: Option<u16>) -> (r: Result<Self, FetchError>)
        ensures
            match r {
                Ok(response) => redirect_of(url@, status) == Ok::<ResponseView, Seq<char>>(
                    response@,
                ),
                Err(e) => fails_as(e, redirect_of(url@, status)),
            },
    {
        let status: u16 = match status {
            Some(status) => status,
            None => 302,
        };
        if !(status == 301 || status == 302 || status == 303 || status == 307 || status == 308) {
            return Err(FetchError::type_error("Invalid redirect status"));
        }
        let mut headers = Headers::new();
        proof {
            lemma_location_is_token();
        }
        match headers.set("location", url) {
            Ok(_) => {},
            Err(e) => {
                return Err(e);
            },
        }
        Ok(
            Response {
                response_type: ResponseType::Basic,
                url: String::new(),
                redirected: false,
                status,
                status_text: Response::default_status_text(status),
                headers,
                body: None,
            },
        )
    }

    /// Puts a response together from what a transport returned. The response
    /// is `Basic` and has no body yet; the status is taken as it is.
    pub fn from_parts(
        status: u16,
        status_text: String,
        headers: Headers,
        url: String,
        redirected: bool,
    ) -> (r: Self)
        ensures
            r@ == (ResponseView {
                response_type: ResponseType::Basic,
                url: url@,
                redirected,
                status,
                status_text: status_text@,
                headers: headers@,
                body: None,
            }),
    {
        Response {
            response_type: ResponseType::Basic,
            url,
            redirected,
            status,
            status_text,
            headers,
            body: None,
        }
    }

    /// Gives the response a body, in place of the one it had.
    pub fn set_body(&mut self, body: ReadableStream)
        ensures
            final(self)@ == (ResponseView { body: Some(body@), ..old(self)@ }),
    {
        self.body = Some(body);
    }

    /// The classification.
    pub fn response_type(&self) -> (r: ResponseType)
        ensures
            r == self@.response_type,
    {
        self.response_type
    }

    /// The URL that the response came from; empty where it was made directly.
    pub fn url(&self) -> (r: &str)
        ensures
            r@ == self@.url,
    {
        self.url.as_str()
    }

    /// Whether the response came after a redirect.
    pub fn redirected(&self) -> (r: bool)
        ensures
            r == self@.redirected,
    {
        self.redirected
    }

    /// The status.
    pub fn status(&self) -> (r: u16)
        ensures
            r == self@.status,
    {
        self.status
    }

    /// Whether the status tells success: 200 to 299.
    pub fn ok(&self) -> (r: bool)
        ensures
            r == is_ok_status(self@.status),
    {
        200 <= self.status && self.status < 300
    }

    /// The status text.
    pub fn status_text(&self) -> (r: &str)
        ensures
            r@ == self@.status_text,
    {
        self.status_text.as_str()
    }

    /// The headers.
    pub fn headers(&self) -> (r: &Headers)
        ensures
            r@ == self@.headers,
    {
        &self.headers
    }

    /// The body, if there is one. Looking at it does not read it.
    pub fn body(&self) -> (r: Option<&ReadableStream>)
        ensures
            match r {
                Some(stream) => self@.body == Some(stream@),
                None => self@.body.is_none(),
            },
    {
        self.body.as_ref()
    }

    /// Whether the body was read; not so where there is no body.
    pub fn body_used(&self) -> (r: bool)
        ensures
            r == body_is_used(self@.body),
    {
        body_used(&self.body)
    }

    /// A response of its own with the same content, where the body was not
    /// read; a failure where it was.
    pub fn clone_response(&self) -> (r: Result<Self, FetchError>)
        ensures
            match r {
                Ok(copy) => !body_is_used(self@.body) && copy@ == self@,
                Err(e) => body_is_used(self@.body) && e.is_type(
                    "Cannot clone a response with a used body"@,
                ),
            },
    {
        if self.body_used() {
            return Err(FetchError::type_error("Cannot clone a response with a used body"));
        }
        Ok(self.clone())
    }

    /// Reads the body as bytes; no body gives no bytes. The body is used up,
    /// whether this succeeds or fails; nothing else changes.
    pub fn read_bytes(&mut self) -> (r: Result<Bytes, FetchError>)
        ensures
            final(self)@ == (ResponseView { body: body_drained(old(self)@.body), ..old(self)@ }),
            match r {
                Ok(bytes) => body_bytes(old(self)@.body) == Ok::<Seq<u8>, Seq<char>>(
                    bytes_of(bytes),
                ),
                Err(e) => fails_as(e, body_bytes(old(self)@.body)),
            },
    {
        read_body_bytes(&mut self.body)
    }

    /// Reads the body as a text; no body gives the empty text. The body is
    /// used up, whether this succeeds or fails; nothing else changes.
    pub fn read_text(&mut self) -> (r: Result<String, FetchError>)
        ensures
            final(self)@ == (ResponseView { body: body_drained(old(self)@.body), ..old(self)@ }),
            match r {
                Ok(text) => body_text(old(self)@.body) == Ok::<Seq<char>, Seq<char>>(text@),
                Err(e) => fails_as(e, body_text(old(self)@.body)),
            },
    {
        read_body_text(&mut self.body)
    }

    /// Reads the body as JSON; no body fails as no content does. The body is
    /// used up, whether this succeeds or fails; nothing else changes.
    pub fn read_json(&mut self) -> (r: Result<Value, FetchError>)
        ensures
            final(self)@ == (ResponseView { body: body_drained(old(self)@.body), ..old(self)@ }),
            match r {
                Ok(value) => body_json(old(self)@.body) == Ok::<Value, Seq<char>>(value),
                Err(e) => fails_as(e, body_json(old(self)@.body)),
            },
    {
        read_body_json(&mut self.body)
    }

    /// Reads the body as form data, which is its text.
    pub fn read_form_data(&mut self) -> (r: Result<String, FetchError>)
        ensures
            final(self)@ == (ResponseView { body: body_drained(old(self)@.body), ..old(self)@ }),
            match r {
                Ok(text) => body_text(old(self)@.body) == Ok::<Seq<char>, Seq<char>>(text@),
                Err(e) => fails_as(e, body_text(old(self)@.body)),
            },
    {
        read_body_text(&mut self.body)
    }

    /// The bytes of the body of the response, which is given up.
    pub fn array_buffer(self) -> (r: Result<Bytes, FetchError>)
        ensures
            match r {
                Ok(bytes) => body_bytes(self@.body) == Ok::<Seq<u8>, Seq<char>>(bytes_of(bytes)),
                Err(e) => fails_as(e, body_bytes(self@.body)),
            },
    {
        let mut response = self;
        response.read_bytes()
    }

    /// The bytes of the body of the response, which is given up: as
    /// `array_buffer`.
    pub fn blob(self) -> (r: Result<Bytes, FetchError>)
        ensures
            match r {
                Ok(bytes) => body_bytes(self@.body) == Ok::<Seq<u8>, Seq<char>>(bytes_of(bytes)),
                Err(e) => fails_as(e, body_bytes(self@.body)),
            },
    {
        self.array_buffer()
    }

    /// The form data of the body of the response, which is given up: as
    /// `text`.
    pub fn form_data(self) -> (r: Result<String, FetchError>)
        ensures
            match r {
                Ok(text) => body_text(self@.body) == Ok::<Seq<char>, Seq<char>>(text@),
                Err(e) => fails_as(e, body_text(self@.body)),
            },
    {
        self.text()
    }

    /// The JSON value of the body of the response, which is given up.
    pub fn json(self) -> (r: Result<Value, FetchError>)
        ensures
            match r {
                Ok(value) => body_json(self@.body) == Ok::<Value, Seq<char>>(value),
                Err(e) => fails_as(e, body_json(self@.body)),
            },
    {
        let mut response = self;
        response.read_json()
    }

    /// The text of the body of the response, which is given up.
    pub fn text(self) -> (r: Result<String, FetchError>)
        ensures
            match r {
                Ok(text) => body_text(self@.body) == Ok::<Seq<char>, Seq<char>>(text@),
                Err(e) => fails_as(e, body_text(self@.body)),
            },
    {
        let mut response = self;
        response.read_text()
    }
}

impl Clone for Response {
    /// A response of its own with the same content, read body or not.
    fn clone(&self) -> (r: Self)
        ensures
            r@ == self@,
    {
        Response {
            response_type: self.response_type,
            url: self.url.clone(),
            redirected: self.redirected,
            status: self.status,
            status_text: self.status_text.clone(),
            headers: self.headers.clone(),
            body: clone_body(&self.body),
        }
    }
}

/// `location` is a header name.
pub proof fn lemma_location_is_token()
    ensures
        crate::text::is_token("location"@),
{
    reveal_strlit("location");
}

/// What the constructors give is in order: a response made by `new` has a
/// status in 200 to 599 and a status text without a line break; a redirect
/// has one of the five redirect statuses, which lie in that range; the
/// network error has status 0 and is the only one classified `Error`.
pub proof fn law_constructed_status(
    body: Option<ReadableStream>,
    init: Option<ResponseInit>,
    url: Seq<char>,
    status: Option<u16>,
)
    ensures
        response_of(body, init) matches Ok(made) ==> {
            &&& is_response_status(made.status)
            &&& !has_line_break(made.status_text)
            &&& made.response_type == ResponseType::Basic
        },
        redirect_of(url, status) matches Ok(made) ==> {
            &&& is_redirect_status(made.status)
            &&& is_response_status(made.status)
            &&& !is_ok_status(made.status)
            &&& made.response_type == ResponseType::Basic
        },
        error_response().status == 0,
        error_response().response_type == ResponseType::Error,
        !is_ok_status(error_response().status),
{
}

/// A redirect is made with exactly the statuses 301, 302, 303, 307 and 308,
/// and with 302 where none is given: any other status is refused, whatever
/// the URL; with one of the five, the redirect is made if the URL can be the
/// value of a header.
pub proof fn law_redirect_statuses(url: Seq<char>, status: u16)
    ensures
        redirect_of(url, Some(status)).is_ok() <==> is_redirect_status(status) && is_field_text(
            trim(url),
        ),
        !is_redirect_status(status) ==> redirect_of(url, Some(status)) == Err::<
            ResponseView,
            Seq<char>,
        >("Invalid redirect status"@),
        redirect_of(url, None) == redirect_of(url, Some(302u16)),
        is_redirect_status(status) <==> status == 301 || status == 302 || status == 303 || status
            == 307 || status == 308,
        !is_redirect_status(200) && !is_redirect_status(304),
{
}

/// A response is made with exactly the statuses 200 to 599: 199 and 600 are
/// refused, 200 and 599 are taken. The reason phrase of 404 is `Not Found`;
/// 418 has none.
pub proof fn law_response_statuses(body: Option<ReadableStream>, init: ResponseInit)
    ensures
        response_of(body, Some(init)).is_ok() <==> is_response_status(initial_status(init))
            && !has_line_break(initial_status_text(init)),
        !is_response_status(199) && !is_response_status(600),
        is_response_status(200) && is_response_status(599),
        reason_phrase(404) == "Not Found"@,
        reason_phrase(418) == Seq::<char>::empty(),
{
}

} // verus!
