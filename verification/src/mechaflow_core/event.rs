//! Events: their priority levels and the two stock event shapes, one
//! carrying a `Value` and one carrying a payload of any type.
use vstd::prelude::*;

use crate::mechaflow_core::types::{now, Id, Timestamp, Value};

verus! {

/// The number of events a channel buffers unless told otherwise.
pub const DEFAULT_CHANNEL_CAPACITY: usize = 1024;

/// Event priority levels, from least to most urgent.
#[derive(Debug, Clone, Copy, PartialEq, Eq, Structural, PartialOrd, Ord, Hash)]
pub enum Priority {
    /// Low priority events (non-critical)
    Low,
    /// Normal priority events (default)
    Normal,
    /// High priority events (important)
    High,
    /// Critical priority events (system-critical)
    Critical,
}

/// The position of a priority on the scale from low (0) to critical (3).
pub open spec fn priority_rank(p: Priority) -> int {
    match p {
        Priority::Low => 0,
        Priority::Normal => 1,
        Priority::High => 2,
        Priority::Critical => 3,
    }
}

impl Priority {
    /// The position of this priority on the scale from low (0) to
    /// critical (3).
    pub fn rank(&self) -> (r: u8)
        ensures
            r == priority_rank(*self),
    {
        match self {
            Priority::Low => 0,
            Priority::Normal => 1,
            Priority::High => 2,
            Priority::Critical => 3,
        }
    }
}

impl Default for Priority {
    fn default() -> (p: Self)
        ensures
            p == Priority::Normal,
    {
        Priority::Normal
    }
}

/// Basic event implementation
#[derive(Debug)]
pub struct BasicEvent {
    /// Event type name
    pub event_type: &'static str,
    /// Source ID
    pub source: Option<Id>,
    /// Event priority
    pub priority: Priority,
    /// Event timestamp
    pub timestamp: Timestamp,
    /// Event payload
    pub payload: Value,
}

impl BasicEvent {
    /// Create a new basic event of normal priority with no source, stamped
    /// with the current time.
    pub fn new(event_type: &'static str, payload: Value) -> (e: Self)
        ensures
            e.event_type == event_type,
            e.source is None,
            e.priority == Priority::Normal,
            e.payload == payload,
    {
        BasicEvent { event_type, source: None, priority: Priority::Normal, timestamp: now(), payload }
    }

    /// Set the source ID
    pub fn with_source(self, source: Id) -> (e: Self)
        ensures
            e == (BasicEvent { source: Some(source), ..self }),
    {
        BasicEvent { source: Some(source), ..self }
    }

    /// Set the priority
    pub fn with_priority(self, priority: Priority) -> (e: Self)
        ensures
            e == (BasicEvent { priority, ..self }),
    {
        BasicEvent { priority, ..self }
    }
}

/// Type-specific event wrapper
#[derive(Debug, Clone)]
pub struct TypedEvent<T> {
    /// Event type name
    pub event_type: &'static str,
    /// Source ID
    pub source: Option<Id>,
    /// Event priority
    pub priority: Priority,
    /// Event timestamp
    pub timestamp: Timestamp,
    /// Strongly-typed payload
    pub payload: T,
}

impl<T> TypedEvent<T> {
    /// Create a new typed event of normal priority with no source, stamped
    /// with the current time.
    pub fn new(event_type: &'static str, payload: T) -> (e: Self)
        ensures
            e.event_type == event_type,
            e.source is None,
            e.priority == Priority::Normal,
            e.payload == payload,
    {
        TypedEvent { event_type, source: None, priority: Priority::Normal, timestamp: now(), payload }
    }

    /// Set the source ID
    pub fn with_source(self, source: Id) -> (e: Self)
        ensures
            e == (TypedEvent { source: Some(source), ..self }),
    {
        TypedEvent { source: Some(source), ..self }
    }

    /// Set the priority
    pub fn with_priority(self, priority: Priority) -> (e: Self)
        ensures
            e == (TypedEvent { priority, ..self }),
    {
        TypedEvent { priority, ..self }
    }
}

} // verus!
