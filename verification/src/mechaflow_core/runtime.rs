//! The runtime's bookkeeping: components registered under their
//! identifiers, the workflows that are running, and how many worker
//! threads to start.
use vstd::prelude::*;

use crate::mechaflow_core::config::RuntimeConfig;
use crate::mechaflow_core::error::{join, Error, Result};
use crate::mechaflow_core::types::Id;
use crate::str_map::{entries_map, has_key, key_index, keys_unique, StrMap};

verus! {

/// What a registry holds; it names the component in the errors reported.
#[derive(Debug, Clone, Copy, PartialEq, Eq, Structural)]
pub enum ComponentKind {
    /// Devices
    Device,
    /// Workflows
    Workflow,
}

/// The word that names a kind of component in messages.
pub open spec fn kind_label(k: ComponentKind) -> Seq<char> {
    match k {
        ComponentKind::Device => "Device"@,
        ComponentKind::Workflow => "Workflow"@,
    }
}

/// Whether `e` is the error a registry of kind `k` reports with message `msg`:
/// device errors for devices, workflow errors for workflows.
pub open spec fn is_component_error(e: Error, k: ComponentKind, msg: Seq<char>) -> bool {
    match k {
        ComponentKind::Device => e matches Error::Device(m) && m@ == msg,
        ComponentKind::Workflow => e matches Error::Workflow(m) && m@ == msg,
    }
}

/// "<Kind> with ID <id><tail>"
pub open spec fn component_message(k: ComponentKind, id: Seq<char>, tail: Seq<char>) -> Seq<char> {
    kind_label(k) + " with ID "@ + id + tail
}

fn label(k: ComponentKind) -> (r: &'static str)
    ensures
        r@ == kind_label(k),
{
    match k {
        ComponentKind::Device => "Device",
        ComponentKind::Workflow => "Workflow",
    }
}

/// The error of kind `k` about the component `id`, ending with `tail`.
fn component_error(k: ComponentKind, id: &Id, tail: &str) -> (e: Error)
    ensures
        is_component_error(e, k, component_message(k, id@, tail@)),
{
    let head = join(label(k), " with ID ");
    let with_id = join(head.as_str(), id.as_str());
    let msg = join(with_id.as_str(), tail);
    match k {
        ComponentKind::Device => Error::Device(msg),
        ComponentKind::Workflow => Error::Workflow(msg),
    }
}

/// Components of one kind, each under its own identifier.
#[derive(Debug)]
pub struct Registry<T> {
    kind: ComponentKind,
    entries: StrMap<T>,
}

impl<T> Registry<T> {
    /// The kind of component held.
    pub closed spec fn kind_spec(self) -> ComponentKind {
        self.kind
    }

    /// The components, by identifier.
    pub closed spec fn items(self) -> Map<Seq<char>, T> {
        self.entries@
    }

    /// An empty registry for components of kind `kind`.
    pub fn new(kind: ComponentKind) -> (r: Self)
        ensures
            r.kind_spec() == kind,
            r.items() == Map::<Seq<char>, T>::empty(),
    {
        Registry { kind, entries: StrMap::new() }
    }

    /// The kind of component held.
    pub fn kind(&self) -> (r: ComponentKind)
        ensures
            r == self.kind_spec(),
    {
        self.kind
    }

    /// The number of registered components.
    pub fn len(&self) -> (r: usize)
        ensures
            r == self.items().len(),
            self.items().dom().finite(),
    {
        self.entries.len()
    }

    /// Whether a component is registered under `id`.
    pub fn contains(&self, id: &Id) -> (r: bool)
        ensures
            r == self.items().contains_key(id@),
    {
        self.entries.contains_key(id.as_str())
    }

    /// The component registered under `id`; "<Kind> with ID <id> not found"
    /// where there is none.
    pub fn get(&self, id: &Id) -> (r: Result<&T>)
        ensures
            match r {
                Ok(c) => self.items().contains_key(id@) && *c == self.items()[id@],
                Err(e) => !self.items().contains_key(id@) && is_component_error(
                    e,
                    self.kind_spec(),
                    component_message(self.kind_spec(), id@, " not found"@),
                ),
            },
    {
        match self.entries.get(id.as_str()) {
            Some(c) => Ok(c),
            None => Err(component_error(self.kind, id, " not found")),
        }
    }

    /// Registers `item` under `id`; an identifier already in use is refused
    /// with "<Kind> with ID <id> already registered" and nothing changes.
    pub fn register(&mut self, id: &Id, item: T) -> (r: Result<()>)
        ensures
            final(self).kind_spec() == old(self).kind_spec(),
            r is Ok <==> !old(self).items().contains_key(id@),
            r is Ok ==> final(self).items() == old(self).items().insert(id@, item),
            r matches Err(e) ==> final(self).items() == old(self).items() && is_component_error(
                e,
                old(self).kind_spec(),
                component_message(old(self).kind_spec(), id@, " already registered"@),
            ),
    {
        if self.entries.contains_key(id.as_str()) {
            return Err(component_error(self.kind, id, " already registered"));
        }
        self.entries.insert(id.to_string(), item);
        Ok(())
    }

    /// Removes the component registered under `id`; an identifier not in use
    /// is refused with "<Kind> with ID <id> not found".
    pub fn unregister(&mut self, id: &Id) -> (r: Result<()>)
        ensures
            final(self).kind_spec() == old(self).kind_spec(),
            r is Ok <==> old(self).items().contains_key(id@),
            final(self).items() == old(self).items().remove(id@),
            r matches Err(e) ==> is_component_error(
                e,
                old(self).kind_spec(),
                component_message(old(self).kind_spec(), id@, " not found"@),
            ),
    {
        match self.entries.remove(id.as_str()) {
            Some(_) => Ok(()),
            None => Err(component_error(self.kind, id, " not found")),
        }
    }

    /// Takes the component registered under `id` out of the registry; where
    /// there is none, "<Kind> with ID <id> is not running".
    pub fn take_running(&mut self, id: &Id) -> (r: Result<T>)
        ensures
            final(self).kind_spec() == old(self).kind_spec(),
            final(self).items() == old(self).items().remove(id@),
            match r {
                Ok(c) => old(self).items().contains_key(id@) && c == old(self).items()[id@],
                Err(e) => !old(self).items().contains_key(id@) && is_component_error(
                    e,
                    old(self).kind_spec(),
                    component_message(old(self).kind_spec(), id@, " is not running"@),
                ),
            },
    {
        match self.entries.remove(id.as_str()) {
            Some(c) => Ok(c),
            None => Err(component_error(self.kind, id, " is not running")),
        }
    }

    /// The identifiers in use, each once.
    pub fn ids(&self) -> (r: Vec<Id>)
        ensures
            r@.len() == self.items().len(),
            forall|i: int| 0 <= i < r@.len() ==> self.items().contains_key(#[trigger] r@[i]@),
            forall|k: Seq<char>|
                self.items().contains_key(k) ==> exists|i: int| 0 <= i < r@.len() && #[trigger] r@[i]@ == k,
    {
        let keys = self.entries.keys();
        let n = keys.len();
        let count = self.entries.len();
        let mut out: Vec<Id> = Vec::new();
        let mut i: usize = 0;
        while i < n
            invariant
                n == keys@.len(),
                i <= n,
                out@.len() == i,
                forall|j: int| 0 <= j < i ==> #[trigger] out@[j]@ == keys@[j]@,
            decreases n - i,
        {
            out.push(Id::from_string(keys[i].as_str()));
            i = i + 1;
        }
        proof {
            let es = self.entries.entry_seq();
            assert forall|j: int| 0 <= j < out@.len() implies self.items().contains_key(
                #[trigger] out@[j]@,
            ) by {
                assert(keys@[j] == es[j].0);
                assert(has_key(es, es[j].0@));
            }
            assert forall|k: Seq<char>| self.items().contains_key(k) implies exists|j: int|
                0 <= j < out@.len() && #[trigger] out@[j]@ == k by {
                let j = key_index(es, k);
                assert(keys@[j] == es[j].0);
                assert(out@[j]@ == k);
            }
        }
        out
    }

    /// Removes every component, handing them out.
    pub fn drain(&mut self) -> (r: Vec<(String, T)>)
        ensures
            final(self).kind_spec() == old(self).kind_spec(),
            final(self).items() == Map::<Seq<char>, T>::empty(),
            r@.len() == old(self).items().len(),
            keys_unique(r@),
            entries_map(r@) == old(self).items(),
    {
        let mut entries = StrMap::new();
        std::mem::swap(&mut entries, &mut self.entries);
        let n = entries.len();
        let r = entries.into_entries();
        assert(r@.len() == n);
        r
    }
}

/// The number of logical cores available to this process.
///
/// Calls `num_cpus::get`, whose documentation promises a result of at least
/// one; the number itself depends on the machine and is not stated.
#[verifier::external_body]
fn available_cores() -> (n: usize)
    ensures
        n >= 1,
{
    num_cpus::get()
}

/// The number of worker threads a runtime starts: the configured number, or,
/// where that is 0, one per available core.
pub fn worker_threads(config: &RuntimeConfig) -> (n: usize)
    ensures
        config.worker_threads != 0 ==> n == config.worker_threads,
        n >= 1,
{
    if config.worker_threads == 0 {
        available_cores()
    } else {
        config.worker_threads
    }
}

/// The error reported for an operation the runtime does not provide:
/// "Not implemented: <what>".
pub fn not_implemented(what: &str) -> (e: Error)
    ensures
        e matches Error::Other(m) && m@ == "Not implemented: "@ + what@,
{
    Error::Other(join("Not implemented: ", what))
}

} // verus!
