//! An in-process model of the WHATWG Fetch objects: headers, single-use
//! bodies, abort signals, requests and responses, and the decisions that a
//! fetch makes around the exchange with a transport.

pub mod abort;
pub mod body;
pub mod client;
pub mod error;
pub mod headers;
pub mod request;
pub mod response;
pub mod text;

pub use abort::{AbortController, AbortSignal, AbortState};
pub use body::{BodySource, ReadableStream};
pub use client::{fetch, finish, prepare, prepare_with, Transport, TransportRequest, TransportResponse};
pub use error::{AbortError, FailureKind, FetchError, NetworkError, TypeError};
pub use headers::Headers;
pub use request::{
    Request, RequestCache, RequestCredentials, RequestInit, RequestMode, RequestRedirect,
};
pub use response::{Response, ResponseInit, ResponseType};

pub use bytes::Bytes;
pub use serde_json::Value as JsonValue;
