//! Protocol options and the registry of protocol providers and protocols;
//! connection strings are handled in `util`.
use vstd::prelude::*;

use crate::mechaflow_core::error::owned;
use crate::mechaflow_core::types::{Value, ValueModel};
use crate::mechaflow_devices::device::{DeviceError, Result};
use crate::str_map::{str_eq, StrMap};

pub mod util;

verus! {

/// Protocol options for configuring protocol behavior
#[derive(Debug)]
pub struct ProtocolOptions {
    /// The timeout for protocol operations
    pub timeout: Option<std::time::Duration>,
    /// Additional protocol-specific options
    pub options: StrMap<Value>,
}

impl ProtocolOptions {
    /// Creates options without timeout or entries
    pub fn new() -> (o: Self)
        ensures
            o.timeout is None,
            o.options@ == Map::<Seq<char>, Value>::empty(),
    {
        ProtocolOptions { timeout: None, options: StrMap::new() }
    }

    /// Sets the timeout for protocol operations
    pub fn with_timeout(self, timeout: std::time::Duration) -> (o: Self)
        ensures
            o.timeout == Some(timeout),
            o.options@ == self.options@,
    {
        let mut o = self;
        o.timeout = Some(timeout);
        o
    }

    /// Adds a protocol-specific option
    pub fn with_option(self, key: &str, value: Value) -> (o: Self)
        ensures
            o.timeout == self.timeout,
            o.options@ == self.options@.insert(key@, value),
    {
        let mut o = self;
        o.options.insert(owned(key), value);
        o
    }

    /// Gets a protocol-specific option as it is stored
    pub fn get_option(&self, key: &str) -> (r: Option<&Value>)
        ensures
            match r {
                Some(v) => self.options@.contains_key(key@) && *v == self.options@[key@],
                None => !self.options@.contains_key(key@),
            },
    {
        self.options.get(key)
    }

    /// Gets a string option; other kinds of value give none
    pub fn get_string(&self, key: &str) -> (r: Option<String>)
        ensures
            match r {
                Some(s) => self.options@.contains_key(key@) && self.options@[key@]@
                    == ValueModel::String(s@),
                None => !(self.options@.contains_key(key@) && self.options@[key@]@ is String),
            },
    {
        match self.options.get(key) {
            Some(v) => {
                proof {
                    crate::mechaflow_core::types::lemma_model_kinds(*v);
                }
                match v {
                    Value::String(s) => Some(s.clone()),
                    _ => None,
                }
            },
            None => None,
        }
    }

    /// Gets an integer option; other kinds of value give none
    pub fn get_integer(&self, key: &str) -> (r: Option<i64>)
        ensures
            match r {
                Some(i) => self.options@.contains_key(key@) && self.options@[key@]@
                    == ValueModel::Integer(i),
                None => !(self.options@.contains_key(key@) && self.options@[key@]@ is Integer),
            },
    {
        match self.options.get(key) {
            Some(v) => {
                proof {
                    crate::mechaflow_core::types::lemma_model_kinds(*v);
                }
                match v {
                    Value::Integer(i) => Some(*i),
                    _ => None,
                }
            },
            None => None,
        }
    }

    /// Gets a boolean option; other kinds of value give none
    pub fn get_bool(&self, key: &str) -> (r: Option<bool>)
        ensures
            match r {
                Some(b) => self.options@.contains_key(key@) && self.options@[key@]@
                    == ValueModel::Bool(b),
                None => !(self.options@.contains_key(key@) && self.options@[key@]@ is Bool),
            },
    {
        match self.options.get(key) {
            Some(v) => {
                proof {
                    crate::mechaflow_core::types::lemma_model_kinds(*v);
                }
                match v {
                    Value::Bool(b) => Some(*b),
                    _ => None,
                }
            },
            None => None,
        }
    }

    /// Gets the timeout or a default value
    pub fn timeout_or(&self, default: std::time::Duration) -> (r: std::time::Duration)
        ensures
            r == match self.timeout {
                Some(t) => t,
                None => default,
            },
    {
        match self.timeout {
            Some(t) => t,
            None => default,
        }
    }
}

impl Default for ProtocolOptions {
    fn default() -> (o: Self)
        ensures
            o.timeout is None,
            o.options@ == Map::<Seq<char>, Value>::empty(),
    {
        ProtocolOptions::new()
    }
}

/// Some name in the list is `name`.
pub open spec fn supports(names: Seq<String>, name: Seq<char>) -> bool {
    exists|i: int| 0 <= i < names.len() && #[trigger] names[i]@ == name
}

/// Where a protocol comes from.
#[derive(Debug)]
pub enum ProtocolSource<'a, P, Q> {
    /// It was created before
    Existing(&'a Q),
    /// This provider is to create it
    Create(&'a P),
}

/// The registry of protocol providers and of the protocols they created;
/// `P` is the handle of a provider and `Q` that of a protocol.
#[derive(Debug)]
pub struct ProtocolRegistry<P, Q> {
    providers: StrMap<(Vec<String>, P)>,
    protocols: StrMap<Q>,
}

impl<P, Q> ProtocolRegistry<P, Q> {
    /// The providers in registration order, each with its name and the
    /// protocols it supports.
    pub closed spec fn providers_spec(self) -> Seq<(String, (Vec<String>, P))> {
        self.providers.entry_seq()
    }

    /// The providers by name.
    pub closed spec fn provider_map(self) -> Map<Seq<char>, (Vec<String>, P)> {
        self.providers@
    }

    /// The protocols created, by name.
    pub closed spec fn protocols_spec(self) -> Map<Seq<char>, Q> {
        self.protocols@
    }

    /// Create a new protocol registry
    pub fn new() -> (r: Self)
        ensures
            r.providers_spec().len() == 0,
            r.provider_map() == Map::<Seq<char>, (Vec<String>, P)>::empty(),
            r.protocols_spec() == Map::<Seq<char>, Q>::empty(),
    {
        ProtocolRegistry { providers: StrMap::new(), protocols: StrMap::new() }
    }

    /// Register a protocol provider under its name, with the protocols it
    /// supports; a provider of the same name is replaced
    pub fn register_provider(&mut self, name: &str, supported: Vec<String>, provider: P)
        ensures
            final(self).provider_map() == old(self).provider_map().insert(name@, (supported, provider)),
            final(self).protocols_spec() == old(self).protocols_spec(),
    {
        self.providers.insert(owned(name), (supported, provider));
    }

    /// Get a protocol provider by name
    pub fn get_provider(&self, name: &str) -> (r: Option<&P>)
        ensures
            match r {
                Some(p) => self.provider_map().contains_key(name@) && *p
                    == self.provider_map()[name@].1,
                None => !self.provider_map().contains_key(name@),
            },
    {
        match self.providers.get(name) {
            Some(e) => Some(&e.1),
            None => None,
        }
    }

    /// Get all protocol providers, in registration order
    pub fn providers(&self) -> (r: Vec<&P>)
        ensures
            r@.len() == self.providers_spec().len(),
            forall|i: int| 0 <= i < r@.len() ==> *#[trigger] r@[i] == self.providers_spec()[i].1.1,
    {
        let n = self.providers.len();
        let mut out: Vec<&P> = Vec::new();
        let mut i: usize = 0;
        while i < n
            invariant
                n == self.providers.entry_seq().len(),
                i <= n,
                out@.len() == i,
                forall|j: int| 0 <= j < i ==> *#[trigger] out@[j] == self.providers.entry_seq()[j].1.1,
            decreases n - i,
        {
            let (_k, e) = self.providers.entry_at(i);
            out.push(&e.1);
            i = i + 1;
        }
        out
    }

    /// Get a protocol instance by name
    pub fn get_protocol(&self, name: &str) -> (r: Option<&Q>)
        ensures
            match r {
                Some(q) => self.protocols_spec().contains_key(name@) && *q
                    == self.protocols_spec()[name@],
                None => !self.protocols_spec().contains_key(name@),
            },
    {
        self.protocols.get(name)
    }

    /// Where protocol `name` comes from: the instance created before, else
    /// the first registered provider that supports it; a protocol no
    /// provider supports is refused.
    #[verifier::loop_isolation(false)]
    pub fn protocol_source(&self, name: &str) -> (r: Result<ProtocolSource<'_, P, Q>>)
        ensures
            self.protocols_spec().contains_key(name@) ==> (r matches Ok(ProtocolSource::Existing(q))
                && *q == self.protocols_spec()[name@]),
            !self.protocols_spec().contains_key(name@) ==> match r {
                Ok(ProtocolSource::Create(p)) => exists|i: int|
                    0 <= i < self.providers_spec().len() && supports(
                        #[trigger] self.providers_spec()[i].1.0@,
                        name@,
                    ) && *p == self.providers_spec()[i].1.1 && forall|j: int|
                        0 <= j < i ==> !supports(self.providers_spec()[j].1.0@, name@),
                Ok(ProtocolSource::Existing(_)) => false,
                Err(e) => (e matches DeviceError::UnsupportedProtocol(m) && m@ == name@)
                    && forall|i: int|
                    0 <= i < self.providers_spec().len() ==> !supports(
                        #[trigger] self.providers_spec()[i].1.0@,
                        name@,
                    ),
            },
    {
        match self.protocols.get(name) {
            Some(q) => {
                return Ok(ProtocolSource::Existing(q));
            },
            None => {},
        }
        let n = self.providers.len();
        let mut i: usize = 0;
        while i < n
            invariant
                n == self.providers.entry_seq().len(),
                i <= n,
                forall|j: int| 0 <= j < i ==> !supports(self.providers.entry_seq()[j].1.0@, name@),
            decreases n - i,
        {
            let (_k, e) = self.providers.entry_at(i);
            let names = &e.0;
            let mut found = false;
            let mut x: usize = 0;
            while x < names.len()
                invariant
                    x <= names@.len(),
                    !found ==> forall|y: int| 0 <= y < x ==> names@[y]@ != name@,
                    found ==> supports(names@, name@),
                decreases names@.len() - x,
            {
                if str_eq(names[x].as_str(), name) {
                    found = true;
                }
                x = x + 1;
            }
            if found {
                proof {
                    assert(supports(self.providers_spec()[i as int].1.0@, name@));
                }
                return Ok(ProtocolSource::Create(&e.1));
            }
            i = i + 1;
        }
        Err(DeviceError::UnsupportedProtocol(owned(name)))
    }

    /// Store a protocol created for `name`
    pub fn store_protocol(&mut self, name: &str, protocol: Q)
        ensures
            final(self).protocols_spec() == old(self).protocols_spec().insert(name@, protocol),
            final(self).providers_spec() == old(self).providers_spec(),
            final(self).provider_map() == old(self).provider_map(),
    {
        self.protocols.insert(owned(name), protocol);
    }
}

} // verus!
