//! The workflow engine's error type.
use vstd::prelude::*;

use crate::mechaflow_core::error::{error_detail, error_prefix, join, owned, Error as CoreError};
use crate::mechaflow_devices::device::{device_error_text, DeviceError};

verus! {

/// Error type for engine operations
#[derive(Debug)]
pub enum Error {
    /// Workflow error
    Workflow(String),
    /// State machine error
    StateMachine(String),
    /// Trigger error
    Trigger(String),
    /// Action error
    Action(String),
    /// Condition error
    Condition(String),
    /// Rule error
    Rule(String),
    /// Scheduler error
    Scheduler(String),
    /// Device error
    Device(DeviceError),
    /// Core error
    Core(CoreError),
    /// I/O error (the message of the underlying error)
    Io(String),
    /// Serialization error
    Serialization(String),
    /// Validation error
    Validation(String),
    /// Not found error
    NotFound(String),
    /// Already exists error
    AlreadyExists(String),
    /// Timeout error
    Timeout(String),
    /// Other error
    Other(String),
}

/// Result type for engine operations
pub type Result<T> = std::result::Result<T, Error>;

/// The human-readable message of an engine error.
pub open spec fn engine_error_text(e: Error) -> Seq<char> {
    match e {
        Error::Workflow(m) => "Workflow error: "@ + m@,
        Error::StateMachine(m) => "State machine error: "@ + m@,
        Error::Trigger(m) => "Trigger error: "@ + m@,
        Error::Action(m) => "Action error: "@ + m@,
        Error::Condition(m) => "Condition error: "@ + m@,
        Error::Rule(m) => "Rule error: "@ + m@,
        Error::Scheduler(m) => "Scheduler error: "@ + m@,
        Error::Device(d) => "Device error: "@ + device_error_text(d),
        Error::Core(c) => "Core error: "@ + error_prefix(c) + error_detail(c),
        Error::Io(m) => "I/O error: "@ + m@,
        Error::Serialization(m) => "Serialization error: "@ + m@,
        Error::Validation(m) => "Validation error: "@ + m@,
        Error::NotFound(m) => "Not found: "@ + m@,
        Error::AlreadyExists(m) => "Already exists: "@ + m@,
        Error::Timeout(m) => "Timeout: "@ + m@,
        Error::Other(m) => "Other error: "@ + m@,
    }
}

impl Error {
    /// Create a new workflow error
    pub fn workflow(msg: &str) -> (e: Self)
        ensures
            e matches Error::Workflow(m) && m@ == msg@,
    {
        Error::Workflow(owned(msg))
    }

    /// Create a new state machine error
    pub fn state_machine(msg: &str) -> (e: Self)
        ensures
            e matches Error::StateMachine(m) && m@ == msg@,
    {
        Error::StateMachine(owned(msg))
    }

    /// Create a new trigger error
    pub fn trigger(msg: &str) -> (e: Self)
        ensures
            e matches Error::Trigger(m) && m@ == msg@,
    {
        Error::Trigger(owned(msg))
    }

    /// Create a new action error
    pub fn action(msg: &str) -> (e: Self)
        ensures
            e matches Error::Action(m) && m@ == msg@,
    {
        Error::Action(owned(msg))
    }

    /// Create a new condition error
    pub fn condition(msg: &str) -> (e: Self)
        ensures
            e matches Error::Condition(m) && m@ == msg@,
    {
        Error::Condition(owned(msg))
    }

    /// Create a new rule error
    pub fn rule(msg: &str) -> (e: Self)
        ensures
            e matches Error::Rule(m) && m@ == msg@,
    {
        Error::Rule(owned(msg))
    }

    /// Create a new scheduler error
    pub fn scheduler(msg: &str) -> (e: Self)
        ensures
            e matches Error::Scheduler(m) && m@ == msg@,
    {
        Error::Scheduler(owned(msg))
    }

    /// Create a new validation error
    pub fn validation(msg: &str) -> (e: Self)
        ensures
            e matches Error::Validation(m) && m@ == msg@,
    {
        Error::Validation(owned(msg))
    }

    /// Create a new not found error
    pub fn not_found(msg: &str) -> (e: Self)
        ensures
            e matches Error::NotFound(m) && m@ == msg@,
    {
        Error::NotFound(owned(msg))
    }

    /// Create a new already exists error
    pub fn already_exists(msg: &str) -> (e: Self)
        ensures
            e matches Error::AlreadyExists(m) && m@ == msg@,
    {
        Error::AlreadyExists(owned(msg))
    }

    /// Create a new timeout error
    pub fn timeout(msg: &str) -> (e: Self)
        ensures
            e matches Error::Timeout(m) && m@ == msg@,
    {
        Error::Timeout(owned(msg))
    }

    /// Create a new other error
    pub fn other(msg: &str) -> (e: Self)
        ensures
            e matches Error::Other(m) && m@ == msg@,
    {
        Error::Other(owned(msg))
    }

    /// The human-readable message of this error.
    pub fn to_string(&self) -> (r: String)
        ensures
            r@ == engine_error_text(*self),
    {
        match self {
            Error::Workflow(m) => join("Workflow error: ", m.as_str()),
            Error::StateMachine(m) => join("State machine error: ", m.as_str()),
            Error::Trigger(m) => join("Trigger error: ", m.as_str()),
            Error::Action(m) => join("Action error: ", m.as_str()),
            Error::Condition(m) => join("Condition error: ", m.as_str()),
            Error::Rule(m) => join("Rule error: ", m.as_str()),
            Error::Scheduler(m) => join("Scheduler error: ", m.as_str()),
            Error::Device(d) => join("Device error: ", d.to_string().as_str()),
            Error::Core(c) => join("Core error: ", c.to_string().as_str()),
            Error::Io(m) => join("I/O error: ", m.as_str()),
            Error::Serialization(m) => join("Serialization error: ", m.as_str()),
            Error::Validation(m) => join("Validation error: ", m.as_str()),
            Error::NotFound(m) => join("Not found: ", m.as_str()),
            Error::AlreadyExists(m) => join("Already exists: ", m.as_str()),
            Error::Timeout(m) => join("Timeout: ", m.as_str()),
            Error::Other(m) => join("Other error: ", m.as_str()),
        }
    }
}

impl From<DeviceError> for Error {
    fn from(e: DeviceError) -> (r: Self) {
        Error::Device(e)
    }
}

impl vstd::std_specs::convert::FromSpecImpl<DeviceError> for Error {
    open spec fn obeys_from_spec() -> bool {
        true
    }

    open spec fn from_spec(v: DeviceError) -> Error {
        Error::Device(v)
    }
}

impl From<CoreError> for Error {
    fn from(e: CoreError) -> (r: Self) {
        Error::Core(e)
    }
}

impl vstd::std_specs::convert::FromSpecImpl<CoreError> for Error {
    open spec fn obeys_from_spec() -> bool {
        true
    }

    open spec fn from_spec(v: CoreError) -> Error {
        Error::Core(v)
    }
}

impl From<String> for Error {
    fn from(s: String) -> (e: Self) {
        Error::Other(s)
    }
}

impl vstd::std_specs::convert::FromSpecImpl<String> for Error {
    open spec fn obeys_from_spec() -> bool {
        true
    }

    open spec fn from_spec(v: String) -> Error {
        Error::Other(v)
    }
}

impl From<&str> for Error {
    fn from(s: &str) -> (e: Self)
        ensures
            e matches Error::Other(m) && m@ == s@,
    {
        Error::Other(owned(s))
    }
}

impl vstd::std_specs::convert::FromSpecImpl<&str> for Error {
    /// A string slice cannot be turned into an owned string in a specification,
    /// so the conversion is described by the `ensures` of `from` instead.
    open spec fn obeys_from_spec() -> bool {
        false
    }

    open spec fn from_spec(v: &str) -> Error {
        Error::Other(arbitrary())
    }
}

} // verus!
