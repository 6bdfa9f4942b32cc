//! Common engine types: metadata collections, execution status and the
//! record of an execution's course.
use vstd::prelude::*;

use crate::mechaflow_core::error::owned;
use crate::mechaflow_core::types::{now, Id, Timestamp, Value};
use crate::str_map::{entries_map, entry_pairs, keys_unique, StrMap};

verus! {

/// Metadata for engine components.
#[derive(Debug)]
pub struct Metadata(StrMap<Value>);

impl Metadata {
    /// The entries by key.
    pub closed spec fn map_spec(self) -> Map<Seq<char>, Value> {
        self.0@
    }

    /// Creates a new empty metadata collection.
    pub fn new() -> (m: Self)
        ensures
            m.map_spec() == Map::<Seq<char>, Value>::empty(),
    {
        Metadata(StrMap::new())
    }

    /// Creates a metadata collection from a map.
    pub fn from_map(map: StrMap<Value>) -> (m: Self)
        ensures
            m.map_spec() == map@,
    {
        Metadata(map)
    }

    /// Inserts a value, returning the one it replaces.
    pub fn insert(&mut self, key: &str, value: Value) -> (r: Option<Value>)
        ensures
            final(self).map_spec() == old(self).map_spec().insert(key@, value),
            match r {
                Some(v) => old(self).map_spec().contains_key(key@) && v == old(self).map_spec()[key@],
                None => !old(self).map_spec().contains_key(key@),
            },
    {
        self.0.insert(owned(key), value)
    }

    /// Gets a value.
    pub fn get(&self, key: &str) -> (r: Option<&Value>)
        ensures
            match r {
                Some(v) => self.map_spec().contains_key(key@) && *v == self.map_spec()[key@],
                None => !self.map_spec().contains_key(key@),
            },
    {
        self.0.get(key)
    }

    /// Removes a value, returning it.
    pub fn remove(&mut self, key: &str) -> (r: Option<Value>)
        ensures
            final(self).map_spec() == old(self).map_spec().remove(key@),
            match r {
                Some(v) => old(self).map_spec().contains_key(key@) && v == old(self).map_spec()[key@],
                None => !old(self).map_spec().contains_key(key@),
            },
    {
        self.0.remove(key)
    }

    /// All metadata as a map.
    pub fn as_map(&self) -> (r: &StrMap<Value>)
        ensures
            r@ == self.map_spec(),
    {
        &self.0
    }

    /// All metadata as a mutable map: what is done to the map is done to
    /// the collection.
    pub fn as_map_mut(&mut self) -> (r: &mut StrMap<Value>)
        ensures
            (*r)@ == old(self).map_spec(),
            final(self).map_spec() == final(r)@,
    {
        &mut self.0
    }

    /// The entries, each as its key and value; no key occurs twice.
    pub fn iter(&self) -> (r: Vec<(&String, &Value)>)
        ensures
            keys_unique(entry_pairs(r@)),
            entries_map(entry_pairs(r@)) == self.map_spec(),
    {
        self.0.entries()
    }

    /// Whether the collection is empty.
    pub fn is_empty(&self) -> (r: bool)
        ensures
            r == (self.map_spec().len() == 0),
    {
        self.0.is_empty()
    }

    /// The number of entries.
    pub fn len(&self) -> (r: usize)
        ensures
            r == self.map_spec().len(),
    {
        self.0.len()
    }
}

impl Default for Metadata {
    fn default() -> (m: Self)
        ensures
            m.map_spec() == Map::<Seq<char>, Value>::empty(),
    {
        Metadata::new()
    }
}

/// Components that can be identified.
pub trait Identifiable {
    /// Gets the ID of the component.
    fn get_id(&self) -> &Id;
}

/// Components that have a name.
pub trait Named {
    /// Gets the name of the component.
    fn get_name(&self) -> &str;
}

/// Components that have a description.
pub trait Described {
    /// Gets the description of the component.
    fn get_description(&self) -> Option<&str>;
}

/// Components that have metadata.
pub trait HasMetadata {
    /// Gets the metadata of the component.
    fn get_metadata(&self) -> &Metadata;
}

/// An enumeration of execution status values.
#[derive(Debug, Clone, Copy, PartialEq, Eq, Structural)]
pub enum ExecutionStatus {
    /// The execution has not started yet.
    NotStarted,
    /// The execution is currently running.
    Running,
    /// The execution completed successfully.
    Completed,
    /// The execution failed.
    Failed,
    /// The execution was cancelled.
    Cancelled,
    /// The execution timed out.
    TimedOut,
}

/// The display text of a status.
pub open spec fn status_text(s: ExecutionStatus) -> Seq<char> {
    match s {
        ExecutionStatus::NotStarted => "Not Started"@,
        ExecutionStatus::Running => "Running"@,
        ExecutionStatus::Completed => "Completed"@,
        ExecutionStatus::Failed => "Failed"@,
        ExecutionStatus::Cancelled => "Cancelled"@,
        ExecutionStatus::TimedOut => "Timed Out"@,
    }
}

impl ExecutionStatus {
    /// The display text of the status.
    pub fn to_string(&self) -> (r: String)
        ensures
            r@ == status_text(*self),
    {
        match self {
            ExecutionStatus::NotStarted => owned("Not Started"),
            ExecutionStatus::Running => owned("Running"),
            ExecutionStatus::Completed => owned("Completed"),
            ExecutionStatus::Failed => owned("Failed"),
            ExecutionStatus::Cancelled => owned("Cancelled"),
            ExecutionStatus::TimedOut => owned("Timed Out"),
        }
    }
}

/// A record of an execution operation.
#[derive(Debug)]
pub struct ExecutionRecord {
    /// Unique identifier for this execution.
    pub id: Id,
    /// The ID of the component that was executed.
    pub component_id: Id,
    /// The type of component that was executed.
    pub component_type: String,
    /// The name of the component that was executed.
    pub component_name: String,
    /// The time when the execution started.
    pub start_time: Timestamp,
    /// The time when the execution ended, if it has ended.
    pub end_time: Option<Timestamp>,
    /// The status of the execution.
    pub status: ExecutionStatus,
    /// An error message, if the execution failed.
    pub error: Option<String>,
    /// Additional metadata about the execution.
    pub metadata: Metadata,
}

/// The nanoseconds from `a` to `b`.
pub open spec fn nanos_between(a: Timestamp, b: Timestamp) -> int {
    (b.secs - a.secs) * 1_000_000_000 + (b.nanos - a.nanos)
}

impl ExecutionRecord {
    /// Creates a new execution record that has not started.
    pub fn new(component_id: Id, component_type: &str, component_name: &str) -> (r: Self)
        ensures
            r.id@.len() == 36,
            r.component_id@ == component_id@,
            r.component_type@ == component_type@,
            r.component_name@ == component_name@,
            r.end_time is None,
            r.status == ExecutionStatus::NotStarted,
            r.error is None,
            r.metadata.map_spec() == Map::<Seq<char>, Value>::empty(),
    {
        ExecutionRecord {
            id: Id::new(),
            component_id,
            component_type: owned(component_type),
            component_name: owned(component_name),
            start_time: now(),
            end_time: None,
            status: ExecutionStatus::NotStarted,
            error: None,
            metadata: Metadata::new(),
        }
    }

    /// Marks the execution as started, now.
    pub fn mark_started(&mut self)
        ensures
            final(self).status == ExecutionStatus::Running,
            final(self).end_time == old(self).end_time,
            final(self).error == old(self).error,
    {
        self.status = ExecutionStatus::Running;
        self.start_time = now();
    }

    /// Marks the execution as completed, now.
    pub fn mark_completed(&mut self)
        ensures
            final(self).status == ExecutionStatus::Completed,
            final(self).end_time is Some,
            final(self).start_time == old(self).start_time,
            final(self).error == old(self).error,
    {
        self.status = ExecutionStatus::Completed;
        self.end_time = Some(now());
    }

    /// Marks the execution as failed with an error message, now.
    pub fn mark_failed(&mut self, error: &str)
        ensures
            final(self).status == ExecutionStatus::Failed,
            final(self).error matches Some(e) && e@ == error@,
            final(self).end_time is Some,
            final(self).start_time == old(self).start_time,
    {
        self.status = ExecutionStatus::Failed;
        self.error = Some(owned(error));
        self.end_time = Some(now());
    }

    /// Marks the execution as cancelled, now.
    pub fn mark_cancelled(&mut self)
        ensures
            final(self).status == ExecutionStatus::Cancelled,
            final(self).end_time is Some,
            final(self).start_time == old(self).start_time,
            final(self).error == old(self).error,
    {
        self.status = ExecutionStatus::Cancelled;
        self.end_time = Some(now());
    }

    /// Marks the execution as timed out, now.
    pub fn mark_timed_out(&mut self)
        ensures
            final(self).status == ExecutionStatus::TimedOut,
            final(self).end_time is Some,
            final(self).start_time == old(self).start_time,
            final(self).error == old(self).error,
    {
        self.status = ExecutionStatus::TimedOut;
        self.end_time = Some(now());
    }

    /// The duration of the execution in nanoseconds, if it has ended.
    pub fn duration(&self) -> (r: Option<i128>)
        ensures
            match self.end_time {
                Some(end) => r == Some(nanos_between(self.start_time, end) as i128),
                None => r is None,
            },
    {
        match self.end_time {
            Some(end) => {
                let secs: i128 = end.secs as i128 - self.start_time.secs as i128;
                let nanos: i128 = end.nanos as i128 - self.start_time.nanos as i128;
                Some(secs * 1_000_000_000 + nanos)
            },
            None => None,
        }
    }

    /// Adds metadata to the execution record.
    pub fn add_metadata(&mut self, key: &str, value: Value)
        ensures
            final(self).metadata.map_spec() == old(self).metadata.map_spec().insert(key@, value),
            final(self).status == old(self).status,
            final(self).end_time == old(self).end_time,
    {
        self.metadata.insert(key, value);
    }
}

} // verus!
