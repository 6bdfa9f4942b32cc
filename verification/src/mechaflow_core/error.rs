//! The framework's core error type.
use vstd::prelude::*;
use vstd::string::StringExecFns;

verus! {

/// Core error type; every variant carries a message.
#[derive(Debug)]
pub enum Error {
    /// Configuration errors
    Config(String),
    /// I/O errors (the message of the underlying error)
    Io(String),
    /// Serialization/deserialization errors
    Serialization(String),
    /// Runtime errors
    Runtime(String),
    /// Event system errors
    Event(String),
    /// Device errors
    Device(String),
    /// Protocol errors
    Protocol(String),
    /// Workflow errors
    Workflow(String),
    /// Authentication errors
    Auth(String),
    /// Authorization errors
    Authorization(String),
    /// Validation errors
    Validation(String),
    /// Resource not found error
    NotFound(String),
    /// Timeout error
    Timeout(String),
    /// Conversion errors
    Conversion(String),
    /// Other errors
    Other(String),
}

/// The text that introduces each kind of error in its message.
pub open spec fn error_prefix(e: Error) -> Seq<char> {
    match e {
        Error::Config(_) => "Configuration error: "@,
        Error::Io(_) => "I/O error: "@,
        Error::Serialization(_) => "Serialization error: "@,
        Error::Runtime(_) => "Runtime error: "@,
        Error::Event(_) => "Event error: "@,
        Error::Device(_) => "Device error: "@,
        Error::Protocol(_) => "Protocol error: "@,
        Error::Workflow(_) => "Workflow error: "@,
        Error::Auth(_) => "Authentication error: "@,
        Error::Authorization(_) => "Authorization error: "@,
        Error::Validation(_) => "Validation error: "@,
        Error::NotFound(_) => "Resource not found: "@,
        Error::Timeout(_) => "Timeout error: "@,
        Error::Conversion(_) => "Conversion error: "@,
        Error::Other(_) => "Other error: "@,
    }
}

/// The message an error carries.
pub open spec fn error_detail(e: Error) -> Seq<char> {
    match e {
        Error::Config(m) => m@,
        Error::Io(m) => m@,
        Error::Serialization(m) => m@,
        Error::Runtime(m) => m@,
        Error::Event(m) => m@,
        Error::Device(m) => m@,
        Error::Protocol(m) => m@,
        Error::Workflow(m) => m@,
        Error::Auth(m) => m@,
        Error::Authorization(m) => m@,
        Error::Validation(m) => m@,
        Error::NotFound(m) => m@,
        Error::Timeout(m) => m@,
        Error::Conversion(m) => m@,
        Error::Other(m) => m@,
    }
}

/// Copies a string slice into a new string.
pub fn owned(s: &str) -> (r: String)
    ensures
        r@ == s@,
{
    <String as StringExecFns>::from_str(s)
}

/// Concatenates two string slices.
pub fn join(a: &str, b: &str) -> (r: String)
    ensures
        r@ == a@ + b@,
{
    let mut s = owned(a);
    s.append(b);
    s
}

/// Alias for `Result` with the core error type.
pub type Result<T> = std::result::Result<T, Error>;

impl Error {
    /// Create a new configuration error
    pub fn config(msg: &str) -> (e: Self)
        ensures
            e matches Error::Config(m) && m@ == msg@,
    {
        Error::Config(owned(msg))
    }

    /// Create a new runtime error
    pub fn runtime(msg: &str) -> (e: Self)
        ensures
            e matches Error::Runtime(m) && m@ == msg@,
    {
        Error::Runtime(owned(msg))
    }

    /// Create a new event error
    pub fn event(msg: &str) -> (e: Self)
        ensures
            e matches Error::Event(m) && m@ == msg@,
    {
        Error::Event(owned(msg))
    }

    /// Create a new device error
    pub fn device(msg: &str) -> (e: Self)
        ensures
            e matches Error::Device(m) && m@ == msg@,
    {
        Error::Device(owned(msg))
    }

    /// Create a new validation error
    pub fn validation(msg: &str) -> (e: Self)
        ensures
            e matches Error::Validation(m) && m@ == msg@,
    {
        Error::Validation(owned(msg))
    }

    /// Create a new not found error
    pub fn not_found(msg: &str) -> (e: Self)
        ensures
            e matches Error::NotFound(m) && m@ == msg@,
    {
        Error::NotFound(owned(msg))
    }

    /// Create a new timeout error
    pub fn timeout(msg: &str) -> (e: Self)
        ensures
            e matches Error::Timeout(m) && m@ == msg@,
    {
        Error::Timeout(owned(msg))
    }

    /// Create a new serialization error
    pub fn serialization(msg: &str) -> (e: Self)
        ensures
            e matches Error::Serialization(m) && m@ == msg@,
    {
        Error::Serialization(owned(msg))
    }

    /// Create a new other error
    pub fn other(msg: &str) -> (e: Self)
        ensures
            e matches Error::Other(m) && m@ == msg@,
    {
        Error::Other(owned(msg))
    }

    /// The message carried by this error.
    pub fn detail(&self) -> (r: &String)
        ensures
            r@ == error_detail(*self),
    {
        match self {
            Error::Config(m) => m,
            Error::Io(m) => m,
            Error::Serialization(m) => m,
            Error::Runtime(m) => m,
            Error::Event(m) => m,
            Error::Device(m) => m,
            Error::Protocol(m) => m,
            Error::Workflow(m) => m,
            Error::Auth(m) => m,
            Error::Authorization(m) => m,
            Error::Validation(m) => m,
            Error::NotFound(m) => m,
            Error::Timeout(m) => m,
            Error::Conversion(m) => m,
            Error::Other(m) => m,
        }
    }

    /// The human-readable message: the kind's prefix followed by the detail.
    pub fn to_string(&self) -> (r: String)
        ensures
            r@ == error_prefix(*self) + error_detail(*self),
    {
        let prefix = match self {
            Error::Config(_) => "Configuration error: ",
            Error::Io(_) => "I/O error: ",
            Error::Serialization(_) => "Serialization error: ",
            Error::Runtime(_) => "Runtime error: ",
            Error::Event(_) => "Event error: ",
            Error::Device(_) => "Device error: ",
            Error::Protocol(_) => "Protocol error: ",
            Error::Workflow(_) => "Workflow error: ",
            Error::Auth(_) => "Authentication error: ",
            Error::Authorization(_) => "Authorization error: ",
            Error::Validation(_) => "Validation error: ",
            Error::NotFound(_) => "Resource not found: ",
            Error::Timeout(_) => "Timeout error: ",
            Error::Conversion(_) => "Conversion error: ",
            Error::Other(_) => "Other error: ",
        };
        join(prefix, self.detail().as_str())
    }
}

impl From<String> for Error {
    fn from(s: String) -> (e: Self) {
        Error::Other(s)
    }
}

impl vstd::std_specs::convert::FromSpecImpl<String> for Error {
    open spec fn obeys_from_spec() -> bool {
        true
    }

    open spec fn from_spec(v: String) -> Error {
        Error::Other(v)
    }
}

impl From<&str> for Error {
    fn from(s: &str) -> (e: Self)
        ensures
            e matches Error::Other(m) && m@ == s@,
    {
        Error::Other(owned(s))
    }
}

impl vstd::std_specs::convert::FromSpecImpl<&str> for Error {
    /// A string slice cannot be turned into an owned string in a specification,
    /// so the conversion is described by the `ensures` of `from` instead.
    open spec fn obeys_from_spec() -> bool {
        false
    }

    open spec fn from_spec(v: &str) -> Error {
        Error::Other(arbitrary())
    }
}

} // verus!
