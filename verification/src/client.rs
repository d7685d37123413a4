//! The decisions that a fetch makes around the exchange with a transport.
//!
//! A fetch validates what it is given, looks at the abort signal, and hands
//! method, URL, headers and body to a transport. What the transport returns
//! becomes a response; what it fails with becomes a network failure. The
//! exchange itself is the transport's business: this module decides what is
//! sent and what is made of the answer.

use crate::body::{
    bytes_of, bytes_outcome, fresh, no_bytes, utf8_text, Content, ReadableStream, StreamView,
};
use crate::error::{FailureKind, FetchError};
use crate::headers::{accepted, after_set, names_of, well_formed, HeaderMap, Headers};
use crate::request::{new_request, Request, RequestInit, RequestView};
use crate::response::{Response, ResponseType, ResponseView};
use crate::text::{is_field_text, lemma_field_ascii};
use bytes::Bytes;
use vstd::prelude::*;
use vstd::string::*;
use vstd::slice::slice_to_vec;
use vstd::utf8::{decode_utf8, encode_utf8, is_ascii_chars_encode_utf8, valid_utf8};

verus! {

/// Whether `http::Method::from_bytes` takes the text as a method.
pub uninterp spec fn http_method(method: Seq<char>) -> bool;

/// Whether `http::header::HeaderName::from_bytes` takes the text as a header
/// name.
pub uninterp spec fn http_header_name(name: Seq<char>) -> bool;

/// The reason phrase that `http::StatusCode` has for a status, if it has one.
pub uninterp spec fn canonical_reason(status: u16) -> Option<Seq<char>>;

/// Whether a byte may stand in a header value for the `http` crate: any byte
/// from the space on but the delete character, and the tab.
pub open spec fn is_value_byte(b: u8) -> bool {
    (b >= 32 && b != 127) || b == 9
}

/// Whether the `http` crate takes a text as a header value: each byte of it
/// may stand in one.
pub open spec fn http_header_value(value: Seq<char>) -> bool {
    forall|i: int|
        0 <= i < encode_utf8(value).len() ==> is_value_byte(#[trigger] encode_utf8(value)[i])
}

/// Whether the `http` crate takes the text as a method.
///
/// Trusted: this is `http::Method::from_bytes` on the bytes of the text, and
/// whether it succeeds. That depends on the text alone; the contract gives it
/// a name and says no more.
#[verifier::external_body]
fn method_accepted(method: &str) -> (r: bool)
    ensures
        r == http_method(method@),
{
    http::Method::from_bytes(method.as_bytes()).is_ok()
}

/// Whether the `http` crate takes the text as a header name.
///
/// Trusted: this is `http::header::HeaderName::from_bytes` on the bytes of
/// the text, and whether it succeeds. That depends on the text alone; the
/// contract gives it a name and says no more.
#[verifier::external_body]
fn header_name_accepted(name: &str) -> (r: bool)
    ensures
        r == http_header_name(name@),
{
    http::header::HeaderName::from_bytes(name.as_bytes()).is_ok()
}

/// Whether the `http` crate takes the text as a header value.
///
/// Trusted: this is `http::header::HeaderValue::from_str`, and whether it
/// succeeds: it does unless a byte of the text is a control character other
/// than the tab.
#[verifier::external_body]
fn header_value_accepted(value: &str) -> (r: bool)
    ensures
        r == http_header_value(value@),
{
    http::header::HeaderValue::from_str(value).is_ok()
}

/// The reason phrase of a status.
///
/// Trusted: this is `http::StatusCode::canonical_reason`, for the status
/// code that `http::StatusCode::from_u16` makes of the number; none where
/// either has none. That depends on the number alone; the contract gives it
/// a name and says no more.
#[verifier::external_body]
fn reason_of(status: u16) -> (r: Option<String>)
    ensures
        match r {
            Some(text) => canonical_reason(status) == Some(text@),
            None => canonical_reason(status).is_none(),
        },
{
    match http::StatusCode::from_u16(status) {
        Ok(code) => code.canonical_reason().map(String::from),
        Err(_) => None,
    }
}

/// Whether there are no bytes.
///
/// Trusted: this is `Bytes::is_empty` of the `bytes` crate.
#[verifier::external_body]
fn no_bytes_in(b: &Bytes) -> (r: bool)
    ensures
        r == (bytes_of(*b).len() == 0),
{
    b.is_empty()
}

/// Every text of header value characters is a header value for the `http`
/// crate.
pub proof fn lemma_field_text_is_value(value: Seq<char>)
    requires
        is_field_text(value),
    ensures
        http_header_value(value),
{
    lemma_field_ascii(value);
    is_ascii_chars_encode_utf8(value);
    assert forall|i: int| 0 <= i < encode_utf8(value).len() implies is_value_byte(
        #[trigger] encode_utf8(value)[i],
    ) by {
        assert(crate::text::is_field_char(value[i]));
    }
}

/// What is handed to a transport.
#[derive(Debug)]
pub struct TransportRequest {
    /// The method.
    pub method: String,
    /// The URL, absolute and in its normal form.
    pub url: String,
    /// The headers: each name once, with its value.
    pub headers: Vec<(String, String)>,
    /// The body; empty where there is none.
    pub body: Bytes,
}

/// What a transport returns when the exchange succeeds.
#[derive(Debug)]
pub struct TransportResponse {
    /// The status.
    pub status: u16,
    /// The headers: each with its name, and its value as the bytes that
    /// came.
    pub headers: Vec<(String, Vec<u8>)>,
    /// The body; empty where there is none.
    pub body: Bytes,
}

/// That which performs the exchange with the server. Nothing is asked of it
/// but to answer: it returns what the server sent, or the message of its
/// failure.
pub trait Transport {
    /// Sends a request and returns the answer.
    fn send(&mut self, request: &TransportRequest) -> Result<TransportResponse, String>;
}

/// A failure, as its kind and its message.
pub type Refusal = (FailureKind, Seq<char>);

/// Whether a failure is the one described.
pub open spec fn is_refusal(e: FetchError, refusal: Refusal) -> bool {
    e.kind() == refusal.0 && e.text() == refusal.1
}

/// A header as it came: its name, and the bytes of its value.
pub type RawPair = (Seq<char>, Seq<u8>);

/// The headers that came, as names and bytes.
pub open spec fn raw_pairs(headers: Seq<(String, Vec<u8>)>) -> Seq<RawPair> {
    Seq::new(headers.len(), |i: int| (headers[i].0@, headers[i].1@))
}

/// Whether a header that came is kept: its value must be a text in UTF-8,
/// and `set` must accept it under its name.
pub open spec fn is_kept(raw: RawPair) -> bool {
    valid_utf8(raw.1) && accepted(raw.0, decode_utf8(raw.1))
}

/// The headers of a response, made of those that came: each that is kept is
/// set in turn, a later one replacing an earlier one of the same name; the
/// others are passed over.
pub open spec fn received(raw: Seq<RawPair>) -> HeaderMap
    decreases raw.len(),
{
    if raw.len() == 0 {
        HeaderMap::empty()
    } else {
        let before = received(raw.drop_last());
        let last = raw.last();
        if is_kept(last) {
            after_set(before, last.0, decode_utf8(last.1))
        } else {
            before
        }
    }
}

/// Whether pairs list what a header map holds: each name of the map once,
/// with its value.
pub open spec fn lists(headers: Seq<(String, String)>, m: HeaderMap) -> bool {
    &&& names_of(Seq::new(headers.len(), |i: int| headers[i].0@), m)
    &&& forall|i: int| 0 <= i < headers.len() ==> m[(#[trigger] headers[i]).0@] == headers[i].1@
}

/// The bytes that are sent as the body of a request, or the message of the
/// failure to give them. A body is sent whether it was read or not; no body
/// is sent as no bytes.
pub open spec fn sent_bytes(body: Option<StreamView>) -> Result<Seq<u8>, Seq<char>> {
    match body {
        Some(stream) => bytes_outcome(stream.content),
        None => Ok(Seq::empty()),
    }
}

/// Why a request is not sent, if it is not. `aborted` tells what its signal
/// said when it was asked. A request whose signal says aborted is given up;
/// else its method and the names of its headers must suit the `http` crate,
/// and its body must have bytes.
pub open spec fn refused(request: RequestView, aborted: bool) -> Option<Refusal> {
    if request.signal.is_some() && aborted {
        Some(given_up())
    } else if !http_method(request.method) {
        Some((FailureKind::Transport, "Invalid method"@))
    } else if exists|k: Seq<char>| #[trigger]
        request.headers.contains_key(k) && !http_header_name(k) {
        Some((FailureKind::Validation, "Invalid header name"@))
    } else {
        match sent_bytes(request.body) {
            Err(message) => Some((FailureKind::Validation, message)),
            Ok(_) => None,
        }
    }
}

/// Whether the signal of a request was made aborted, so that it says aborted
/// whenever it is asked.
pub open spec fn known_aborted(request: RequestView) -> bool {
    match request.signal {
        Some(signal) => signal.known().aborted,
        None => false,
    }
}

/// Whether a result is the failure described.
pub open spec fn fails_with<T>(r: Result<T, FetchError>, refusal: Refusal) -> bool {
    match r {
        Ok(_) => false,
        Err(e) => is_refusal(e, refusal),
    }
}

/// The failure of a request that was given up for its signal.
pub open spec fn given_up() -> Refusal {
    (FailureKind::Cancelled, "The operation was aborted"@)
}

/// Whether what was decided for a request is what `refused` and `carries`
/// say, for what its signal said.
pub open spec fn decided(
    r: Result<TransportRequest, FetchError>,
    request: RequestView,
    aborted: bool,
) -> bool {
    match r {
        Ok(sent) => refused(request, aborted).is_none() && carries(sent, request),
        Err(e) => match refused(request, aborted) {
            Some(refusal) => is_refusal(e, refusal),
            None => false,
        },
    }
}

/// Whether a transport request carries what the request holds.
pub open spec fn carries(sent: TransportRequest, request: RequestView) -> bool {
    &&& sent.method@ == request.method
    &&& sent.url@ == request.url
    &&& lists(sent.headers@, request.headers)
    &&& sent_bytes(request.body) == Ok::<Seq<u8>, Seq<char>>(bytes_of(sent.body))
}

/// The response that is made of what a transport returned for a URL: the
/// status as it came, with its reason phrase; the headers that are kept; the
/// body, where it has bytes.
pub open spec fn answer(url: Seq<char>, reply: TransportResponse) -> ResponseView {
    ResponseView {
        response_type: ResponseType::Basic,
        url,
        redirected: false,
        status: reply.status,
        status_text: match canonical_reason(reply.status) {
            Some(text) => text,
            None => Seq::empty(),
        },
        headers: received(raw_pairs(reply.headers@)),
        body: if bytes_of(reply.body).len() == 0 {
            None
        } else {
            Some(fresh(Content::Bytes(bytes_of(reply.body))))
        },
    }
}

/// Decides what is sent for a request, given what its signal said when it
/// was asked. The request is given up with it.
pub fn prepare_with(request: Request, aborted: bool) -> (r: Result<TransportRequest, FetchError>)
    ensures
        decided(r, request@, aborted),
{
    if request.signal().is_some() && aborted {
        return Err(FetchError::abort_error("The operation was aborted"));
    }
    if !method_accepted(request.method()) {
        return Err(FetchError::network_error("Invalid method"));
    }
    let list = request.headers();
    let headers = list.entries();
    let ghost names = list.names();
    let ghost map = request@.headers;
    let n: usize = headers.len();
    let mut i: usize = 0;
    proof {
        assert forall|j: int| 0 <= j < names.len() implies map.contains_key(
            #[trigger] names[j],
        ) by {
            assert(names.contains(names[j]));
        }
    }
    while i < n
        invariant
            n == headers@.len(),
            0 <= i <= n,
            map == request@.headers,
            !(request@.signal.is_some() && aborted),
            http_method(request@.method),
            well_formed(map),
            names_of(names, map),
            headers@.len() == names.len(),
            forall|j: int|
                0 <= j < headers@.len() ==> (#[trigger] headers@[j]).0@ == names[j]
                    && map.contains_key(names[j]) && headers@[j].1@ == map[names[j]],
            forall|j: int| 0 <= j < i ==> http_header_name(#[trigger] names[j]),
        decreases n - i,
    {
        if !header_name_accepted(headers[i].0.as_str()) {
            proof {
                assert(names.contains(names[i as int]));
                assert(map.contains_key(names[i as int]) && !http_header_name(names[i as int]));
            }
            return Err(FetchError::type_error("Invalid header name"));
        }
        proof {
            assert(names.contains(names[i as int]));
            lemma_field_text_is_value(headers@[i as int].1@);
        }
        if !header_value_accepted(headers[i].1.as_str()) {
            return Err(FetchError::type_error("Invalid header value"));
        }
        i = i + 1;
    }
    proof {
        assert forall|k: Seq<char>| #[trigger] map.contains_key(k) implies http_header_name(
            k,
        ) by {
            assert(names.contains(k));
            let j = choose|j: int| 0 <= j < names.len() && names[j] == k;
            assert(http_header_name(names[j]));
        }
        assert(Seq::new(headers@.len(), |i: int| headers@[i].0@) =~= names);
    }
    let mut request = request;
    let body = match request.take_body() {
        Some(stream) => match stream.to_bytes() {
            Ok(bytes) => bytes,
            Err(e) => {
                return Err(e);
            },
        },
        None => no_bytes(),
    };
    let method = String::from_str(request.method());
    let url = String::from_str(request.url());
    Ok(TransportRequest { method, url, headers, body })
}

/// Decides what is sent for a request: asks its signal, if it has one,
/// whether it is aborted, and goes on as [`prepare_with`] says. A request
/// whose signal was made aborted is always given up.
pub fn prepare(request: Request) -> (r: Result<TransportRequest, FetchError>)
    ensures
        decided(r, request@, false) || (request@.signal.is_some() && fails_with(r, given_up())),
        known_aborted(request@) ==> fails_with(r, given_up()),
{
    let aborted = match request.signal() {
        Some(signal) => signal.aborted(),
        None => false,
    };
    prepare_with(request, aborted)
}

/// Makes the response of what a transport returned for a URL, or the network
/// failure with the message of the transport's failure.
pub fn finish(url: String, reply: Result<TransportResponse, String>) -> (r: Result<
    Response,
    FetchError,
>)
    ensures
        match reply {
            Ok(returned) => r matches Ok(response) && response@ == answer(url@, returned),
            Err(message) => r matches Err(e) && e.is_network(message@),
        },
{
    match reply {
        Err(message) => Err(FetchError::network_error(message.as_str())),
        Ok(returned) => {
            let TransportResponse { status, headers: pairs, body } = returned;
            let mut headers = Headers::new();
            let n: usize = pairs.len();
            let mut i: usize = 0;
            while i < n
                invariant
                    n == pairs@.len(),
                    0 <= i <= n,
                    headers@ == received(raw_pairs(pairs@).take(i as int)),
                decreases n - i,
            {
                proof {
                    let now = raw_pairs(pairs@).take(i + 1);
                    assert(now.drop_last() =~= raw_pairs(pairs@).take(i as int));
                    assert(now.last() == (pairs@[i as int].0@, pairs@[i as int].1@));
                }
                match utf8_text(slice_to_vec(pairs[i].1.as_slice())) {
                    Some(value) => {
                        let _ = headers.set(pairs[i].0.as_str(), value.as_str());
                    },
                    None => {},
                }
                i = i + 1;
            }
            proof {
                assert(raw_pairs(pairs@).take(n as int) =~= raw_pairs(pairs@));
            }
            let status_text = match reason_of(status) {
                Some(text) => text,
                None => String::new(),
            };
            let mut response = Response::from_parts(status, status_text, headers, url, false);
            if !no_bytes_in(&body) {
                response.set_body(ReadableStream::from_bytes(body));
            }
            Ok(response)
        },
    }
}

/// Fetches a URL through a transport: makes the request, gives up where its
/// signal says aborted, hands it to the transport and makes the response of
/// the answer. Where the request cannot be made, or is given up before it is
/// sent, the transport is not asked and stays as it was.
pub fn fetch<T: Transport>(transport: &mut T, input: &str, init: Option<RequestInit>) -> (r: Result<
    Response,
    FetchError,
>)
    ensures
        match new_request(input@, init) {
            Err(message) => {
                &&& fails_with(r, (FailureKind::Validation, message))
                &&& *final(transport) == *old(transport)
            },
            Ok(request) => {
                &&& known_aborted(request) ==> fails_with(r, given_up()) && *final(transport)
                    == *old(transport)
                &&& refused(request, false) matches Some(refusal) ==> {
                    &&& fails_with(r, refusal) || fails_with(r, given_up())
                    &&& *final(transport) == *old(transport)
                }
                &&& match r {
                    Ok(response) => {
                        &&& refused(request, false).is_none()
                        &&& exists|returned: TransportResponse| #[trigger]
                            answer(request.url, returned) == response@
                        &&& response@.url == request.url
                        &&& response@.response_type == ResponseType::Basic
                        &&& !response@.redirected
                    },
                    Err(e) => {
                        ||| e.kind() == FailureKind::Transport
                        ||| request.signal.is_some() && is_refusal(e, given_up())
                        ||| refused(request, false) matches Some(refusal) && is_refusal(
                            e,
                            refusal,
                        )
                    },
                }
            },
        },
{
    let request = match Request::new(input, init) {
        Ok(request) => request,
        Err(e) => {
            return Err(e);
        },
    };
    let sent = match prepare(request) {
        Ok(sent) => sent,
        Err(e) => {
            return Err(e);
        },
    };
    let reply = transport.send(&sent);
    let url = String::from_str(sent.url.as_str());
    finish(url, reply)
}

} // verus!
