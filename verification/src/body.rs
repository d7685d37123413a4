//! The body of a request or a response: content that can be read once.
//!
//! A [`ReadableStream`] holds its content in the form it was given in (none,
//! text, bytes or a JSON value) and turns it into text, bytes or JSON when it
//! is read. Reading uses the stream up, whether it succeeds or fails: every
//! later reading fails.

use crate::error::FetchError;
use bytes::Bytes;
use serde_json::Value;
use vstd::prelude::*;
use vstd::string::*;
use vstd::utf8::{decode_utf8, encode_utf8, valid_utf8};

verus! {

/// A sequence of bytes that is cheap to clone and to share.
#[verifier::external_type_specification]
#[verifier::external_body]
pub struct ExBytes(bytes::Bytes);

/// A JSON value.
#[verifier::external_type_specification]
#[verifier::external_body]
pub struct ExValue(serde_json::Value);

/// What went wrong when JSON was written or read.
#[verifier::external_type_specification]
#[verifier::external_body]
pub struct ExJsonError(serde_json::Error);

/// The bytes that a `Bytes` value holds.
pub uninterp spec fn bytes_of(b: Bytes) -> Seq<u8>;

/// The bytes that `serde_json::to_vec` writes for a value, if it writes any.
pub uninterp spec fn json_bytes(v: Value) -> Option<Seq<u8>>;

/// The text that `serde_json::to_string` writes for a value, if it writes
/// any.
pub uninterp spec fn json_text(v: Value) -> Option<Seq<char>>;

/// The value that `serde_json::from_str` reads from a text, if it reads one.
pub uninterp spec fn parsed_text(s: Seq<char>) -> Option<Value>;

/// The value that `serde_json::from_slice` reads from bytes, if it reads one.
pub uninterp spec fn parsed_bytes(b: Seq<u8>) -> Option<Value>;

/// No bytes.
///
/// Trusted: this is `Bytes::new` of the `bytes` crate, which makes an empty
/// value.
#[verifier::external_body]
pub(crate) fn no_bytes() -> (r: Bytes)
    ensures
        bytes_of(r) == Seq::<u8>::empty(),
{
    Bytes::new()
}

/// The bytes of a vector.
///
/// Trusted: this is `Bytes::from` of the `bytes` crate for a `Vec<u8>`, which
/// takes the vector's buffer over as it is.
#[verifier::external_body]
fn bytes_from_vec(v: Vec<u8>) -> (r: Bytes)
    ensures
        bytes_of(r) == v@,
{
    Bytes::from(v)
}

/// The bytes as a vector of its own.
///
/// Trusted: `Bytes` of the `bytes` crate dereferences to the slice of its
/// bytes, which `to_vec` copies.
#[verifier::external_body]
fn bytes_to_vec(b: &Bytes) -> (r: Vec<u8>)
    ensures
        r@ == bytes_of(*b),
{
    b.to_vec()
}

/// A further handle on the same bytes.
///
/// Trusted: this is `Bytes::clone` of the `bytes` crate, whose result holds
/// the bytes that the given value holds.
#[verifier::external_body]
fn share_bytes(b: &Bytes) -> (r: Bytes)
    ensures
        bytes_of(r) == bytes_of(*b),
{
    b.clone()
}

/// A copy of a JSON value.
///
/// Trusted: this is `Value::clone` of `serde_json`, which copies the value
/// with all that it holds; the copy is written and read as the given value is.
#[verifier::external_body]
fn copy_json(v: &Value) -> (r: Value)
    ensures
        r == *v,
{
    v.clone()
}

/// The value written as JSON, in bytes.
///
/// Trusted: this is `serde_json::to_vec`. What it writes depends on the value
/// alone; the contract gives it a name and says no more.
#[verifier::external_body]
fn write_json_bytes(v: &Value) -> (r: Result<Vec<u8>, serde_json::Error>)
    ensures
        match r {
            Ok(bytes) => json_bytes(*v) == Some(bytes@),
            Err(_) => json_bytes(*v).is_none(),
        },
{
    serde_json::to_vec(v)
}

/// The value written as JSON, as a text.
///
/// Trusted: this is `serde_json::to_string`. What it writes depends on the
/// value alone; the contract gives it a name and says no more.
#[verifier::external_body]
fn write_json_text(v: &Value) -> (r: Result<String, serde_json::Error>)
    ensures
        match r {
            Ok(text) => json_text(*v) == Some(text@),
            Err(_) => json_text(*v).is_none(),
        },
{
    serde_json::to_string(v)
}

/// The JSON value that a text holds.
///
/// Trusted: this is `serde_json::from_str`, read into a `Value`. What it
/// reads depends on the text alone; the contract gives it a name and says no
/// more.
#[verifier::external_body]
fn read_json_text(s: &str) -> (r: Result<Value, serde_json::Error>)
    ensures
        match r {
            Ok(v) => parsed_text(s@) == Some(v),
            Err(_) => parsed_text(s@).is_none(),
        },
{
    serde_json::from_str::<Value>(s)
}

/// The JSON value that bytes hold.
///
/// Trusted: this is `serde_json::from_slice`, read into a `Value`. What it
/// reads depends on the bytes alone; the contract gives it a name and says no
/// more.
#[verifier::external_body]
fn read_json_bytes(b: &Vec<u8>) -> (r: Result<Value, serde_json::Error>)
    ensures
        match r {
            Ok(v) => parsed_bytes(b@) == Some(v),
            Err(_) => parsed_bytes(b@).is_none(),
        },
{
    serde_json::from_slice::<Value>(b.as_slice())
}

/// The text that the bytes encode in UTF-8, if they encode one.
///
/// Trusted: this is `String::from_utf8` of the standard library, which
/// returns the text where the bytes are valid UTF-8, and fails where they
/// are not.
#[verifier::external_body]
pub(crate) fn utf8_text(v: Vec<u8>) -> (r: Option<String>)
    ensures
        match r {
            Some(text) => valid_utf8(v@) && text@ == decode_utf8(v@),
            None => !valid_utf8(v@),
        },
{
    String::from_utf8(v).ok()
}

/// The failure that stands for any failure to write or to read JSON.
pub fn json_failure(cause: serde_json::Error) -> (r: FetchError)
    ensures
        r.is_type("JSON parse error"@),
{
    let _ = cause;
    FetchError::type_error("JSON parse error")
}

/// What a body was made from.
#[derive(Debug)]
pub enum BodySource {
    /// Nothing.
    Empty,
    /// A text.
    Text(String),
    /// Bytes.
    Bytes(Bytes),
    /// A JSON value.
    Json(Value),
}

/// What a body holds, in the form it was given in.
pub enum Content {
    /// Nothing.
    Empty,
    /// A text.
    Text(Seq<char>),
    /// Bytes.
    Bytes(Seq<u8>),
    /// A JSON value.
    Json(Value),
}

impl View for BodySource {
    type V = Content;

    open spec fn view(&self) -> Content {
        match self {
            BodySource::Empty => Content::Empty,
            BodySource::Text(text) => Content::Text(text@),
            BodySource::Bytes(bytes) => Content::Bytes(bytes_of(*bytes)),
            BodySource::Json(value) => Content::Json(*value),
        }
    }
}

/// The message of the failure to read a body twice.
pub open spec fn used_message() -> Seq<char> {
    "Body already used"@
}

/// The message of the failure to write or to read JSON.
pub open spec fn json_message() -> Seq<char> {
    "JSON parse error"@
}

/// The message of the failure to read JSON from no content.
pub open spec fn no_json_message() -> Seq<char> {
    "Unexpected end of JSON input"@
}

/// The message of the failure to read bytes that are no UTF-8 as a text.
pub open spec fn utf8_message() -> Seq<char> {
    "Invalid UTF-8"@
}

/// The bytes of a content, or the message of the failure to give them: no
/// content has no bytes, a text has its UTF-8 encoding, bytes are themselves,
/// and a JSON value has what it is written as.
pub open spec fn bytes_outcome(c: Content) -> Result<Seq<u8>, Seq<char>> {
    match c {
        Content::Empty => Ok(Seq::empty()),
        Content::Text(text) => Ok(encode_utf8(text)),
        Content::Bytes(bytes) => Ok(bytes),
        Content::Json(value) => match json_bytes(value) {
            Some(bytes) => Ok(bytes),
            None => Err(json_message()),
        },
    }
}

/// The text of a content, or the message of the failure to give it: no
/// content is the empty text, a text is itself, bytes are what they encode in
/// UTF-8, and a JSON value is what it is written as.
pub open spec fn text_outcome(c: Content) -> Result<Seq<char>, Seq<char>> {
    match c {
        Content::Empty => Ok(Seq::empty()),
        Content::Text(text) => Ok(text),
        Content::Bytes(bytes) => if valid_utf8(bytes) {
            Ok(decode_utf8(bytes))
        } else {
            Err(utf8_message())
        },
        Content::Json(value) => match json_text(value) {
            Some(text) => Ok(text),
            None => Err(json_message()),
        },
    }
}

/// The JSON value of a content, or the message of the failure to give it: no
/// content fails, a text and bytes are read as JSON, and a JSON value is
/// itself.
pub open spec fn json_outcome(c: Content) -> Result<Value, Seq<char>> {
    match c {
        Content::Empty => Err(no_json_message()),
        Content::Text(text) => match parsed_text(text) {
            Some(value) => Ok(value),
            None => Err(json_message()),
        },
        Content::Bytes(bytes) => match parsed_bytes(bytes) {
            Some(value) => Ok(value),
            None => Err(json_message()),
        },
        Content::Json(value) => Ok(value),
    }
}

/// The content type that a body brings with it: plain text in UTF-8 for a
/// text, JSON for a JSON value, none otherwise.
pub open spec fn content_type_of(c: Content) -> Option<Seq<char>> {
    match c {
        Content::Empty => None,
        Content::Text(_) => Some("text/plain;charset=UTF-8"@),
        Content::Bytes(_) => None,
        Content::Json(_) => Some("application/json"@),
    }
}

/// What a reading returns: on a stream that was read before, the failure to
/// read twice; else the outcome for its content.
pub open spec fn reading<T>(used: bool, outcome: Result<T, Seq<char>>) -> Result<T, Seq<char>> {
    if used {
        Err(used_message())
    } else {
        outcome
    }
}

/// Whether a failure is the validation failure that the outcome asks for.
pub open spec fn fails_as<T>(e: FetchError, outcome: Result<T, Seq<char>>) -> bool {
    match outcome {
        Ok(_) => false,
        Err(message) => e.is_type(message),
    }
}

/// What a stream holds, and whether it was read.
pub struct StreamView {
    /// The content.
    pub content: Content,
    /// Whether the stream was read.
    pub used: bool,
}

/// A body: content that is read once.
#[derive(Debug)]
pub struct ReadableStream {
    source: BodySource,
    used: bool,
}

impl View for ReadableStream {
    type V = StreamView;

    closed spec fn view(&self) -> StreamView {
        StreamView { content: self.source@, used: self.used }
    }
}

/// The view of a stream that was read: it holds nothing more.
pub open spec fn drained() -> StreamView {
    StreamView { content: Content::Empty, used: true }
}

/// The view of a stream with the given content that was not read.
pub open spec fn fresh(content: Content) -> StreamView {
    StreamView { content, used: false }
}

impl ReadableStream {
    /// A stream without content.
    pub fn empty() -> (r: Self)
        ensures
            r@ == fresh(Content::Empty),
    {
        ReadableStream { source: BodySource::Empty, used: false }
    }

    /// A stream of a text.
    pub fn from_text(text: &str) -> (r: Self)
        ensures
            r@ == fresh(Content::Text(text@)),
    {
        ReadableStream { source: BodySource::Text(String::from_str(text)), used: false }
    }

    /// A stream of bytes.
    pub fn from_bytes(bytes: Bytes) -> (r: Self)
        ensures
            r@ == fresh(Content::Bytes(bytes_of(bytes))),
    {
        ReadableStream { source: BodySource::Bytes(bytes), used: false }
    }

    /// A stream of a JSON value, which is written when the stream is read.
    pub fn from_json(value: &Value) -> (r: Self)
        ensures
            r@ == fresh(Content::Json(*value)),
    {
        ReadableStream { source: BodySource::Json(copy_json(value)), used: false }
    }

    /// Whether a reader holds the stream: never, as there are no readers.
    pub fn locked(&self) -> (r: bool)
        ensures
            !r,
    {
        false
    }

    /// Whether the stream was read.
    pub fn is_used(&self) -> (r: bool)
        ensures
            r == self@.used,
    {
        self.used
    }

    /// The content type that the body brings with it.
    pub fn get_content_type(&self) -> (r: Option<&'static str>)
        ensures
            match r {
                Some(t) => content_type_of(self@.content) == Some(t@),
                None => content_type_of(self@.content).is_none(),
            },
    {
        match &self.source {
            BodySource::Empty => None,
            BodySource::Text(_) => Some("text/plain;charset=UTF-8"),
            BodySource::Bytes(_) => None,
            BodySource::Json(_) => Some("application/json"),
        }
    }

    /// The bytes of the content, without reading the stream: it stays as it
    /// is, read or not.
    pub fn to_bytes(&self) -> (r: Result<Bytes, FetchError>)
        ensures
            match r {
                Ok(bytes) => bytes_outcome(self@.content) == Ok::<Seq<u8>, Seq<char>>(
                    bytes_of(bytes),
                ),
                Err(e) => fails_as(e, bytes_outcome(self@.content)),
            },
    {
        match &self.source {
            BodySource::Empty => Ok(no_bytes()),
            BodySource::Text(text) => Ok(bytes_from_vec(text.as_str().as_bytes_vec())),
            BodySource::Bytes(bytes) => Ok(share_bytes(bytes)),
            BodySource::Json(value) => match write_json_bytes(value) {
                Ok(bytes) => Ok(bytes_from_vec(bytes)),
                Err(cause) => Err(json_failure(cause)),
            },
        }
    }

    /// Marks the stream as read and hands out what it was made from, or
    /// fails where it was read before.
    fn drain(&mut self) -> (r: Result<BodySource, FetchError>)
        ensures
            final(self)@ == drained(),
            match r {
                Ok(source) => !old(self)@.used && source@ == old(self)@.content,
                Err(e) => old(self)@.used && e.is_type(used_message()),
            },
    {
        let mut source = BodySource::Empty;
        core::mem::swap(&mut self.source, &mut source);
        if self.used {
            return Err(FetchError::type_error("Body already used"));
        }
        self.used = true;
        Ok(source)
    }

    /// Reads the stream as bytes. The stream is used up, whether this
    /// succeeds or fails.
    pub fn read_bytes(&mut self) -> (r: Result<Bytes, FetchError>)
        ensures
            final(self)@ == drained(),
            match r {
                Ok(bytes) => reading(old(self)@.used, bytes_outcome(old(self)@.content)) == Ok::<
                    Seq<u8>,
                    Seq<char>,
                >(bytes_of(bytes)),
                Err(e) => fails_as(e, reading(old(self)@.used, bytes_outcome(old(self)@.content))),
            },
    {
        match self.drain() {
            Err(e) => Err(e),
            Ok(BodySource::Empty) => Ok(no_bytes()),
            Ok(BodySource::Text(text)) => Ok(bytes_from_vec(text.as_str().as_bytes_vec())),
            Ok(BodySource::Bytes(bytes)) => Ok(bytes),
            Ok(BodySource::Json(value)) => match write_json_bytes(&value) {
                Ok(bytes) => Ok(bytes_from_vec(bytes)),
                Err(cause) => Err(json_failure(cause)),
            },
        }
    }

    /// Reads the stream as a text. The stream is used up, whether this
    /// succeeds or fails.
    pub fn read_text(&mut self) -> (r: Result<String, FetchError>)
        ensures
            final(self)@ == drained(),
            match r {
                Ok(text) => reading(old(self)@.used, text_outcome(old(self)@.content)) == Ok::<
                    Seq<char>,
                    Seq<char>,
                >(text@),
                Err(e) => fails_as(e, reading(old(self)@.used, text_outcome(old(self)@.content))),
            },
    {
        match self.drain() {
            Err(e) => Err(e),
            Ok(BodySource::Empty) => Ok(String::new()),
            Ok(BodySource::Text(text)) => Ok(text),
            Ok(BodySource::Bytes(bytes)) => match utf8_text(bytes_to_vec(&bytes)) {
                Some(text) => Ok(text),
                None => Err(FetchError::type_error("Invalid UTF-8")),
            },
            Ok(BodySource::Json(value)) => match write_json_text(&value) {
                Ok(text) => Ok(text),
                Err(cause) => Err(json_failure(cause)),
            },
        }
    }

    /// Reads the stream as JSON. The stream is used up, whether this succeeds
    /// or fails.
    pub fn read_json(&mut self) -> (r: Result<Value, FetchError>)
        ensures
            final(self)@ == drained(),
            match r {
                Ok(value) => reading(old(self)@.used, json_outcome(old(self)@.content)) == Ok::<
                    Value,
                    Seq<char>,
                >(value),
                Err(e) => fails_as(e, reading(old(self)@.used, json_outcome(old(self)@.content))),
            },
    {
        match self.drain() {
            Err(e) => Err(e),
            Ok(BodySource::Empty) => Err(FetchError::type_error("Unexpected end of JSON input")),
            Ok(BodySource::Text(text)) => match read_json_text(text.as_str()) {
                Ok(value) => Ok(value),
                Err(cause) => Err(json_failure(cause)),
            },
            Ok(BodySource::Bytes(bytes)) => match read_json_bytes(&bytes_to_vec(&bytes)) {
                Ok(value) => Ok(value),
                Err(cause) => Err(json_failure(cause)),
            },
            Ok(BodySource::Json(value)) => Ok(value),
        }
    }

    /// Reads the stream as form data, which is its text.
    pub fn read_form_data(&mut self) -> (r: Result<String, FetchError>)
        ensures
            final(self)@ == drained(),
            match r {
                Ok(text) => reading(old(self)@.used, text_outcome(old(self)@.content)) == Ok::<
                    Seq<char>,
                    Seq<char>,
                >(text@),
                Err(e) => fails_as(e, reading(old(self)@.used, text_outcome(old(self)@.content))),
            },
    {
        self.read_text()
    }

    /// The bytes of the stream, which is given up.
    pub fn array_buffer(self) -> (r: Result<Bytes, FetchError>)
        ensures
            match r {
                Ok(bytes) => reading(self@.used, bytes_outcome(self@.content)) == Ok::<
                    Seq<u8>,
                    Seq<char>,
                >(bytes_of(bytes)),
                Err(e) => fails_as(e, reading(self@.used, bytes_outcome(self@.content))),
            },
    {
        let mut stream = self;
        stream.read_bytes()
    }

    /// The bytes of the stream, which is given up: as `array_buffer`.
    pub fn blob(self) -> (r: Result<Bytes, FetchError>)
        ensures
            match r {
                Ok(bytes) => reading(self@.used, bytes_outcome(self@.content)) == Ok::<
                    Seq<u8>,
                    Seq<char>,
                >(bytes_of(bytes)),
                Err(e) => fails_as(e, reading(self@.used, bytes_outcome(self@.content))),
            },
    {
        self.array_buffer()
    }

    /// The text of the stream, which is given up.
    pub fn text(self) -> (r: Result<String, FetchError>)
        ensures
            match r {
                Ok(text) => reading(self@.used, text_outcome(self@.content)) == Ok::<
                    Seq<char>,
                    Seq<char>,
                >(text@),
                Err(e) => fails_as(e, reading(self@.used, text_outcome(self@.content))),
            },
    {
        let mut stream = self;
        stream.read_text()
    }

    /// The form data of the stream, which is given up: as `text`.
    pub fn form_data(self) -> (r: Result<String, FetchError>)
        ensures
            match r {
                Ok(text) => reading(self@.used, text_outcome(self@.content)) == Ok::<
                    Seq<char>,
                    Seq<char>,
                >(text@),
                Err(e) => fails_as(e, reading(self@.used, text_outcome(self@.content))),
            },
    {
        self.text()
    }

    /// The JSON value of the stream, which is given up.
    pub fn json(self) -> (r: Result<Value, FetchError>)
        ensures
            match r {
                Ok(value) => reading(self@.used, json_outcome(self@.content)) == Ok::<
                    Value,
                    Seq<char>,
                >(value),
                Err(e) => fails_as(e, reading(self@.used, json_outcome(self@.content))),
            },
    {
        let mut stream = self;
        stream.read_json()
    }
}

impl Clone for ReadableStream {
    /// A stream of its own with the same content, read if this one is.
    fn clone(&self) -> (r: Self)
        ensures
            r@ == self@,
    {
        let source = match &self.source {
            BodySource::Empty => BodySource::Empty,
            BodySource::Text(text) => BodySource::Text(text.clone()),
            BodySource::Bytes(bytes) => BodySource::Bytes(share_bytes(bytes)),
            BodySource::Json(value) => BodySource::Json(copy_json(value)),
        };
        ReadableStream { source, used: self.used }
    }
}

/// A stream is read once: whatever it holds, a stream that was read fails
/// every reading with the failure to read twice; and each reading leaves the
/// stream read.
pub proof fn law_single_use(c: Content)
    ensures
        reading(true, bytes_outcome(c)) == Err::<Seq<u8>, Seq<char>>(used_message()),
        reading(true, text_outcome(c)) == Err::<Seq<char>, Seq<char>>(used_message()),
        reading(true, json_outcome(c)) == Err::<Value, Seq<char>>(used_message()),
        drained().used,
        reading(drained().used, bytes_outcome(drained().content)).is_err(),
        reading(drained().used, text_outcome(drained().content)).is_err(),
        reading(drained().used, json_outcome(drained().content)).is_err(),
{
}

/// The view of an optional body.
pub open spec fn body_view(body: Option<ReadableStream>) -> Option<StreamView> {
    match body {
        Some(stream) => Some(stream@),
        None => None,
    }
}

/// Whether a body was read; a body that is not there was not.
pub open spec fn body_is_used(body: Option<StreamView>) -> bool {
    match body {
        Some(stream) => stream.used,
        None => false,
    }
}

/// A body after it was read; a body that is not there stays so.
pub open spec fn body_drained(body: Option<StreamView>) -> Option<StreamView> {
    match body {
        Some(_) => Some(drained()),
        None => None,
    }
}

/// What reading a body as bytes returns; no body gives no bytes.
pub open spec fn body_bytes(body: Option<StreamView>) -> Result<Seq<u8>, Seq<char>> {
    match body {
        Some(stream) => reading(stream.used, bytes_outcome(stream.content)),
        None => Ok(Seq::empty()),
    }
}

/// What reading a body as a text returns; no body gives the empty text.
pub open spec fn body_text(body: Option<StreamView>) -> Result<Seq<char>, Seq<char>> {
    match body {
        Some(stream) => reading(stream.used, text_outcome(stream.content)),
        None => Ok(Seq::empty()),
    }
}

/// What reading a body as JSON returns; no body fails as no content does.
pub open spec fn body_json(body: Option<StreamView>) -> Result<Value, Seq<char>> {
    match body {
        Some(stream) => reading(stream.used, json_outcome(stream.content)),
        None => Err(no_json_message()),
    }
}

/// Reads an optional body as bytes.
pub fn read_body_bytes(body: &mut Option<ReadableStream>) -> (r: Result<Bytes, FetchError>)
    ensures
        body_view(*final(body)) == body_drained(body_view(*old(body))),
        match r {
            Ok(bytes) => body_bytes(body_view(*old(body))) == Ok::<Seq<u8>, Seq<char>>(
                bytes_of(bytes),
            ),
            Err(e) => fails_as(e, body_bytes(body_view(*old(body)))),
        },
{
    match body.take() {
        Some(stream) => {
            let mut stream = stream;
            let r = stream.read_bytes();
            *body = Some(stream);
            r
        },
        None => Ok(no_bytes()),
    }
}

/// Reads an optional body as a text.
pub fn read_body_text(body: &mut Option<ReadableStream>) -> (r: Result<String, FetchError>)
    ensures
        body_view(*final(body)) == body_drained(body_view(*old(body))),
        match r {
            Ok(text) => body_text(body_view(*old(body))) == Ok::<Seq<char>, Seq<char>>(text@),
            Err(e) => fails_as(e, body_text(body_view(*old(body)))),
        },
{
    match body.take() {
        Some(stream) => {
            let mut stream = stream;
            let r = stream.read_text();
            *body = Some(stream);
            r
        },
        None => Ok(String::new()),
    }
}

/// Reads an optional body as JSON.
pub fn read_body_json(body: &mut Option<ReadableStream>) -> (r: Result<Value, FetchError>)
    ensures
        body_view(*final(body)) == body_drained(body_view(*old(body))),
        match r {
            Ok(value) => body_json(body_view(*old(body))) == Ok::<Value, Seq<char>>(value),
            Err(e) => fails_as(e, body_json(body_view(*old(body)))),
        },
{
    match body.take() {
        Some(stream) => {
            let mut stream = stream;
            let r = stream.read_json();
            *body = Some(stream);
            r
        },
        None => Err(FetchError::type_error("Unexpected end of JSON input")),
    }
}

/// Whether an optional body was read.
pub fn body_used(body: &Option<ReadableStream>) -> (r: bool)
    ensures
        r == body_is_used(body_view(*body)),
{
    match body {
        Some(stream) => stream.is_used(),
        None => false,
    }
}

/// A body of its own with the same content, if there is a body.
pub fn clone_body(body: &Option<ReadableStream>) -> (r: Option<ReadableStream>)
    ensures
        body_view(r) == body_view(*body),
{
    match body {
        Some(stream) => Some(stream.clone()),
        None => None,
    }
}

/// A body is read once: once a body was read, as whatever and with whatever
/// result, every reading of it fails with the failure to read twice. A body
/// that is not there is never read, and gives the same answer each time.
pub proof fn law_body_read_once(body: Option<StreamView>)
    ensures
        body.is_some() ==> {
            &&& body_is_used(body_drained(body))
            &&& body_bytes(body_drained(body)) == Err::<Seq<u8>, Seq<char>>(used_message())
            &&& body_text(body_drained(body)) == Err::<Seq<char>, Seq<char>>(used_message())
            &&& body_json(body_drained(body)) == Err::<Value, Seq<char>>(used_message())
        },
        body_drained(body_drained(body)) == body_drained(body),
        body.is_none() ==> body_drained(body) == body && !body_is_used(body),
        body_is_used(body) ==> {
            &&& body_bytes(body) == Err::<Seq<u8>, Seq<char>>(used_message())
            &&& body_text(body) == Err::<Seq<char>, Seq<char>>(used_message())
            &&& body_json(body) == Err::<Value, Seq<char>>(used_message())
        },
{
}

impl<'a> From<&'a str> for ReadableStream {
    /// A stream of a text: see [`ReadableStream::from_text`].
    fn from(given: &'a str) -> (r: Self)
        ensures
            r@ == fresh(Content::Text(given@)),
    {
        ReadableStream::from_text(given)
    }
}

impl<'a> vstd::std_specs::convert::FromSpecImpl<&'a str> for ReadableStream {
    open spec fn obeys_from_spec() -> bool {
        false
    }

    open spec fn from_spec(given: &'a str) -> Self {
        arbitrary()
    }
}

impl From<String> for ReadableStream {
    /// A stream of a text: see [`ReadableStream::from_text`].
    fn from(given: String) -> (r: Self)
        ensures
            r@ == fresh(Content::Text(given@)),
    {
        ReadableStream::from_text(given.as_str())
    }
}

impl vstd::std_specs::convert::FromSpecImpl<String> for ReadableStream {
    open spec fn obeys_from_spec() -> bool {
        false
    }

    open spec fn from_spec(given: String) -> Self {
        arbitrary()
    }
}

impl From<Bytes> for ReadableStream {
    /// A stream of bytes: see [`ReadableStream::from_bytes`].
    fn from(given: Bytes) -> (r: Self)
        ensures
            r@ == fresh(Content::Bytes(bytes_of(given))),
    {
        ReadableStream::from_bytes(given)
    }
}

impl vstd::std_specs::convert::FromSpecImpl<Bytes> for ReadableStream {
    open spec fn obeys_from_spec() -> bool {
        false
    }

    open spec fn from_spec(given: Bytes) -> Self {
        arbitrary()
    }
}

impl From<Vec<u8>> for ReadableStream {
    /// A stream of bytes: see [`ReadableStream::from_bytes`].
    fn from(given: Vec<u8>) -> (r: Self)
        ensures
            r@ == fresh(Content::Bytes(given@)),
    {
        ReadableStream::from_bytes(bytes_from_vec(given))
    }
}

impl vstd::std_specs::convert::FromSpecImpl<Vec<u8>> for ReadableStream {
    open spec fn obeys_from_spec() -> bool {
        false
    }

    open spec fn from_spec(given: Vec<u8>) -> Self {
        arbitrary()
    }
}

impl From<Value> for ReadableStream {
    /// A stream of a JSON value: see [`ReadableStream::from_json`].
    fn from(given: Value) -> (r: Self)
        ensures
            r@ == fresh(Content::Json(given)),
    {
        ReadableStream::from_json(&given)
    }
}

impl vstd::std_specs::convert::FromSpecImpl<Value> for ReadableStream {
    open spec fn obeys_from_spec() -> bool {
        false
    }

    open spec fn from_spec(given: Value) -> Self {
        arbitrary()
    }
}

} // verus!
