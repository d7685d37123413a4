//! Failure values of the fetch surface.
//!
//! There are three disjoint kinds of failure: a validation failure
//! ([`TypeError`]), a transport failure ([`NetworkError`]) and a cancellation
//! ([`AbortError`]). [`FetchError`] is their union. Every failure is an
//! ordinary value carrying one message.

use vstd::prelude::*;
use vstd::string::*;

verus! {

/// A validation failure: an argument or a state that the fetch rules refuse.
#[derive(Debug, Clone)]
pub struct TypeError {
    message: String,
}

impl View for TypeError {
    type V = Seq<char>;

    /// The message of the failure.
    closed spec fn view(&self) -> Seq<char> {
        self.message@
    }
}

impl TypeError {
    /// A validation failure with the given message.
    pub fn new(message: &str) -> (r: Self)
        ensures
            r@ == message@,
    {
        TypeError { message: String::from_str(message) }
    }

    /// The message that the failure was made with.
    pub fn message(&self) -> (r: &str)
        ensures
            r@ == self@,
    {
        self.message.as_str()
    }

    /// The failure as one line: its kind, a colon and a space, then the message.
    pub fn to_string(&self) -> (r: String)
        ensures
            r@ == "TypeError: "@ + self@,
    {
        String::from_str("TypeError: ").concat(self.message.as_str())
    }
}

/// A transport failure: the exchange with the server did not complete.
#[derive(Debug, Clone)]
pub struct NetworkError {
    message: String,
}

impl View for NetworkError {
    type V = Seq<char>;

    /// The message of the failure.
    closed spec fn view(&self) -> Seq<char> {
        self.message@
    }
}

impl NetworkError {
    /// A transport failure with the given message.
    pub fn new(message: &str) -> (r: Self)
        ensures
            r@ == message@,
    {
        NetworkError { message: String::from_str(message) }
    }

    /// The message that the failure was made with.
    pub fn message(&self) -> (r: &str)
        ensures
            r@ == self@,
    {
        self.message.as_str()
    }

    /// The failure as one line: its kind, a colon and a space, then the message.
    pub fn to_string(&self) -> (r: String)
        ensures
            r@ == "NetworkError: "@ + self@,
    {
        String::from_str("NetworkError: ").concat(self.message.as_str())
    }
}

/// A cancellation: the operation was given up on request.
#[derive(Debug, Clone)]
pub struct AbortError {
    message: String,
}

impl View for AbortError {
    type V = Seq<char>;

    /// The message of the failure.
    closed spec fn view(&self) -> Seq<char> {
        self.message@
    }
}

impl AbortError {
    /// A cancellation with the given message.
    pub fn new(message: &str) -> (r: Self)
        ensures
            r@ == message@,
    {
        AbortError { message: String::from_str(message) }
    }

    /// The message that the failure was made with.
    pub fn message(&self) -> (r: &str)
        ensures
            r@ == self@,
    {
        self.message.as_str()
    }

    /// The failure as one line: its kind, a colon and a space, then the message.
    pub fn to_string(&self) -> (r: String)
        ensures
            r@ == "AbortError: "@ + self@,
    {
        String::from_str("AbortError: ").concat(self.message.as_str())
    }
}

/// Any failure of the fetch surface.
#[derive(Debug)]
pub enum FetchError {
    /// A validation failure.
    Type(TypeError),
    /// A transport failure.
    Network(NetworkError),
    /// A cancellation.
    Abort(AbortError),
}

/// The kind of a failure, without its message.
#[derive(Debug, Clone, Copy, PartialEq, Eq, Structural)]
pub enum FailureKind {
    /// A validation failure.
    Validation,
    /// A transport failure.
    Transport,
    /// A cancellation.
    Cancelled,
}

impl FetchError {
    /// The kind of the failure.
    pub open spec fn kind(&self) -> FailureKind {
        match self {
            FetchError::Type(_) => FailureKind::Validation,
            FetchError::Network(_) => FailureKind::Transport,
            FetchError::Abort(_) => FailureKind::Cancelled,
        }
    }

    /// The message of the failure, whatever its kind.
    pub open spec fn text(&self) -> Seq<char> {
        match self {
            FetchError::Type(e) => e@,
            FetchError::Network(e) => e@,
            FetchError::Abort(e) => e@,
        }
    }

    /// Whether this is the validation failure with the given message.
    pub open spec fn is_type(&self, message: Seq<char>) -> bool {
        self.kind() == FailureKind::Validation && self.text() == message
    }

    /// Whether this is the transport failure with the given message.
    pub open spec fn is_network(&self, message: Seq<char>) -> bool {
        self.kind() == FailureKind::Transport && self.text() == message
    }

    /// Whether this is the cancellation with the given message.
    pub open spec fn is_abort(&self, message: Seq<char>) -> bool {
        self.kind() == FailureKind::Cancelled && self.text() == message
    }

    /// The validation failure with the given message.
    pub fn type_error(message: &str) -> (r: Self)
        ensures
            r.is_type(message@),
    {
        FetchError::Type(TypeError::new(message))
    }

    /// The transport failure with the given message.
    pub fn network_error(message: &str) -> (r: Self)
        ensures
            r.is_network(message@),
    {
        FetchError::Network(NetworkError::new(message))
    }

    /// The cancellation with the given message.
    pub fn abort_error(message: &str) -> (r: Self)
        ensures
            r.is_abort(message@),
    {
        FetchError::Abort(AbortError::new(message))
    }

    /// The kind of the failure, computed.
    pub fn failure_kind(&self) -> (r: FailureKind)
        ensures
            r == self.kind(),
    {
        match self {
            FetchError::Type(_) => FailureKind::Validation,
            FetchError::Network(_) => FailureKind::Transport,
            FetchError::Abort(_) => FailureKind::Cancelled,
        }
    }

    /// The message of the failure, whatever its kind.
    pub fn message(&self) -> (r: &str)
        ensures
            r@ == self.text(),
    {
        match self {
            FetchError::Type(e) => e.message(),
            FetchError::Network(e) => e.message(),
            FetchError::Abort(e) => e.message(),
        }
    }

    /// The failure as one line, as the wrapped failure prints itself.
    pub fn to_string(&self) -> (r: String)
        ensures
            r@ == match self {
                FetchError::Type(e) => "TypeError: "@ + e@,
                FetchError::Network(e) => "NetworkError: "@ + e@,
                FetchError::Abort(e) => "AbortError: "@ + e@,
            },
    {
        match self {
            FetchError::Type(e) => e.to_string(),
            FetchError::Network(e) => e.to_string(),
            FetchError::Abort(e) => e.to_string(),
        }
    }
}

impl From<TypeError> for FetchError {
    fn from(err: TypeError) -> (r: Self) {
        FetchError::Type(err)
    }
}

impl vstd::std_specs::convert::FromSpecImpl<TypeError> for FetchError {
    open spec fn obeys_from_spec() -> bool {
        true
    }

    open spec fn from_spec(err: TypeError) -> Self {
        FetchError::Type(err)
    }
}

impl From<NetworkError> for FetchError {
    fn from(err: NetworkError) -> (r: Self) {
        FetchError::Network(err)
    }
}

impl vstd::std_specs::convert::FromSpecImpl<NetworkError> for FetchError {
    open spec fn obeys_from_spec() -> bool {
        true
    }

    open spec fn from_spec(err: NetworkError) -> Self {
        FetchError::Network(err)
    }
}

impl From<AbortError> for FetchError {
    fn from(err: AbortError) -> (r: Self) {
        FetchError::Abort(err)
    }
}

impl vstd::std_specs::convert::FromSpecImpl<AbortError> for FetchError {
    open spec fn obeys_from_spec() -> bool {
        true
    }

    open spec fn from_spec(err: AbortError) -> Self {
        FetchError::Abort(err)
    }
}

} // verus!
