//! The library's error type.
//!
//! Every failure a request can produce falls into one of four kinds:
//! the credential was missing before anything was sent, the transport
//! failed, the service answered with an application-level error body, or
//! the body did not decode into the expected shape.

use vstd::prelude::*;

verus! {

/// What went wrong.  `ErrorKind` carries only owned strings, so errors can
/// be wrapped and passed around without borrowing from the response.
#[derive(Clone, Debug)]
pub enum ErrorKind {
    /// The API key was absent; nothing was sent.
    Configuration,
    /// The network transport failed; the payload is the transport's message.
    Transport(String),
    /// The service answered, but the body encodes an application-level
    /// error; the payload is the raw body.
    Api(String),
    /// The body did not match the expected schema; the payloads are the
    /// decoder's message and the raw body.
    Decode(String, String),
}

/// True when the two values are of the same kind, whatever they carry.
pub open spec fn same_kind(a: ErrorKind, b: ErrorKind) -> bool {
    match (a, b) {
        (ErrorKind::Configuration, ErrorKind::Configuration) => true,
        (ErrorKind::Transport(_), ErrorKind::Transport(_)) => true,
        (ErrorKind::Api(_), ErrorKind::Api(_)) => true,
        (ErrorKind::Decode(_, _), ErrorKind::Decode(_, _)) => true,
        _ => false,
    }
}

// Two kinds are equal when they are the same kind of failure; the carried
// messages do not take part in the comparison.
impl PartialEq for ErrorKind {
    fn eq(&self, other: &ErrorKind) -> (r: bool) {
        match (self, other) {
            (ErrorKind::Configuration, ErrorKind::Configuration) => true,
            (ErrorKind::Transport(_), ErrorKind::Transport(_)) => true,
            (ErrorKind::Api(_), ErrorKind::Api(_)) => true,
            (ErrorKind::Decode(_, _), ErrorKind::Decode(_, _)) => true,
            _ => false,
        }
    }
}

impl vstd::std_specs::cmp::PartialEqSpecImpl for ErrorKind {
    open spec fn obeys_eq_spec() -> bool {
        true
    }

    open spec fn eq_spec(&self, other: &ErrorKind) -> bool {
        same_kind(*self, *other)
    }
}

/// An error, boxed so that values stay small however they travel.
#[derive(Clone, Debug)]
pub struct Error(pub Box<ErrorKind>);

impl Error {
    /// The kind this error carries.
    pub open spec fn spec_kind(&self) -> ErrorKind {
        *self.0
    }

    pub fn new(kind: ErrorKind) -> (r: Error)
        ensures
            r.spec_kind() == kind,
    {
        Error(Box::new(kind))
    }

    /// A copy of the kind this error carries.
    pub fn kind(&self) -> (r: ErrorKind)
        ensures
            r == self.spec_kind(),
    {
        match &*self.0 {
            ErrorKind::Configuration => ErrorKind::Configuration,
            ErrorKind::Transport(m) => ErrorKind::Transport(m.clone()),
            ErrorKind::Api(b) => ErrorKind::Api(b.clone()),
            ErrorKind::Decode(m, b) => ErrorKind::Decode(m.clone(), b.clone()),
        }
    }

    pub fn configuration() -> (r: Error)
        ensures
            r.spec_kind() == ErrorKind::Configuration,
    {
        Error::new(ErrorKind::Configuration)
    }

    pub fn transport(message: String) -> (r: Error)
        ensures
            r.spec_kind() == ErrorKind::Transport(message),
    {
        Error::new(ErrorKind::Transport(message))
    }

    pub fn api(body: String) -> (r: Error)
        ensures
            r.spec_kind() == ErrorKind::Api(body),
    {
        Error::new(ErrorKind::Api(body))
    }

    pub fn decode(message: String, body: String) -> (r: Error)
        ensures
            r.spec_kind() == ErrorKind::Decode(message, body),
    {
        Error::new(ErrorKind::Decode(message, body))
    }

    /// A one-line rendering of the error.
    pub fn display_string(&self) -> (r: String)
        ensures
            r@ == self.spec_display(),
    {
        match &*self.0 {
            ErrorKind::Configuration => "Configuration error: the API key is missing".to_owned(),
            ErrorKind::Transport(m) => "Transport error: ".to_owned().concat(m.as_str()),
            ErrorKind::Api(b) => "API error: ".to_owned().concat(b.as_str()),
            ErrorKind::Decode(m, _) => "Decode error: ".to_owned().concat(m.as_str()),
        }
    }

    /// What `display_string` renders.
    pub open spec fn spec_display(&self) -> Seq<char> {
        match *self.0 {
            ErrorKind::Configuration => "Configuration error: the API key is missing"@,
            ErrorKind::Transport(m) => "Transport error: "@ + m@,
            ErrorKind::Api(b) => "API error: "@ + b@,
            ErrorKind::Decode(m, _) => "Decode error: "@ + m@,
        }
    }
}

} // verus!
