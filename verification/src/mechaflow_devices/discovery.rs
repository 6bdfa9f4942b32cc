//! Device discovery: the providers by the protocols they support, which of
//! them a discovery uses, and which discovered devices are kept.
use vstd::prelude::*;

use crate::mechaflow_core::error::{join, owned};
use crate::mechaflow_core::types::{Id, Value};
use crate::mechaflow_core::utils::{duration_ms, millis_to_duration};
use crate::mechaflow_devices::device::{DeviceError, DeviceInfo};
use crate::mechaflow_devices::protocol::supports;
use crate::str_map::{str_eq, StrMap};
use crate::text::{str_debug, str_debug_text};

verus! {

/// Discovery options
#[derive(Debug)]
pub struct DiscoveryOptions {
    /// The timeout duration for discovery
    pub timeout: std::time::Duration,
    /// Whether to return the first device found
    pub first_only: bool,
    /// A filter for device types
    pub device_type_filter: Option<String>,
    /// A filter for device protocols
    pub protocol_filter: Option<String>,
    /// Additional protocol-specific options
    pub protocol_options: StrMap<Value>,
}

impl DiscoveryOptions {
    /// Options of a ten second discovery of every device, without filters.
    pub fn new() -> (o: Self)
        ensures
            duration_ms(o.timeout) == 10000,
            !o.first_only,
            o.device_type_filter is None,
            o.protocol_filter is None,
            o.protocol_options@ == Map::<Seq<char>, Value>::empty(),
    {
        DiscoveryOptions {
            timeout: millis_to_duration(10000),
            first_only: false,
            device_type_filter: None,
            protocol_filter: None,
            protocol_options: StrMap::new(),
        }
    }
}

impl Default for DiscoveryOptions {
    fn default() -> (o: Self)
        ensures
            duration_ms(o.timeout) == 10000,
            !o.first_only,
            o.device_type_filter is None,
            o.protocol_filter is None,
            o.protocol_options@ == Map::<Seq<char>, Value>::empty(),
    {
        DiscoveryOptions::new()
    }
}

/// Discovery result
#[derive(Debug)]
pub struct DiscoveryResult {
    /// The discovered device information
    pub device_info: DeviceInfo,
    /// The connection string for the device
    pub connection_string: String,
    /// Additional protocol-specific information
    pub protocol_info: StrMap<Value>,
}

/// Whether a discovered device passes the device type filter of the options.
pub open spec fn result_accepted(options: DiscoveryOptions, result: DiscoveryResult) -> bool {
    options.device_type_filter matches Some(t) ==> result.device_info.device_type@ == t@
}

/// Whether a discovered device is kept.
pub fn accept_result(options: &DiscoveryOptions, result: &DiscoveryResult) -> (r: bool)
    ensures
        r == result_accepted(*options, *result),
{
    match &options.device_type_filter {
        Some(t) => str_eq(result.device_info.device_type.as_str(), t.as_str()),
        None => true,
    }
}

/// Whether the provider names list supports a protocol.
fn list_supports(names: &Vec<String>, protocol: &str) -> (r: bool)
    ensures
        r == supports(names@, protocol@),
{
    let mut i: usize = 0;
    while i < names.len()
        invariant
            i <= names@.len(),
            forall|j: int| 0 <= j < i ==> names@[j]@ != protocol@,
        decreases names@.len() - i,
    {
        if str_eq(names[i].as_str(), protocol) {
            return true;
        }
        i = i + 1;
    }
    false
}

/// The providers, in registration order, that support a protocol.
pub open spec fn supporting<D>(providers: Seq<(Vec<String>, D)>, protocol: Seq<char>) -> Seq<D>
    decreases providers.len(),
{
    if providers.len() == 0 {
        Seq::empty()
    } else {
        let rest = supporting(providers.drop_last(), protocol);
        if supports(providers.last().0@, protocol) {
            rest.push(providers.last().1)
        } else {
            rest
        }
    }
}

/// The values behind a sequence of references.
pub open spec fn derefs<D>(s: Seq<&D>) -> Seq<D> {
    s.map_values(|d: &D| *d)
}

/// Device discoverer; `D` is the handle of a discovery provider.
#[derive(Debug)]
pub struct DeviceDiscoverer<D> {
    providers: Vec<(Vec<String>, D)>,
}

impl<D> DeviceDiscoverer<D> {
    /// The providers in registration order, with the protocols they support.
    pub closed spec fn providers_spec(self) -> Seq<(Vec<String>, D)> {
        self.providers@
    }

    /// Create a new device discoverer
    pub fn new() -> (d: Self)
        ensures
            d.providers_spec().len() == 0,
    {
        DeviceDiscoverer { providers: Vec::new() }
    }

    /// Register a discovery provider with the protocols it supports
    pub fn register_provider(&mut self, supported: Vec<String>, provider: D)
        ensures
            final(self).providers_spec() == old(self).providers_spec().push((supported, provider)),
    {
        self.providers.push((supported, provider));
    }

    /// Get registered discovery providers
    pub fn providers(&self) -> (r: Vec<&D>)
        ensures
            r@.len() == self.providers_spec().len(),
            forall|i: int| 0 <= i < r@.len() ==> *#[trigger] r@[i] == self.providers_spec()[i].1,
    {
        let mut out: Vec<&D> = Vec::new();
        let mut i: usize = 0;
        while i < self.providers.len()
            invariant
                i <= self.providers@.len(),
                out@.len() == i,
                forall|j: int| 0 <= j < i ==> *#[trigger] out@[j] == self.providers@[j].1,
            decreases self.providers@.len() - i,
        {
            out.push(&self.providers[i].1);
            i = i + 1;
        }
        out
    }

    /// Get discovery providers for a protocol, in registration order
    pub fn providers_for_protocol(&self, protocol: &str) -> (r: Vec<&D>)
        ensures
            derefs(r@) == supporting(self.providers_spec(), protocol@),
    {
        let mut out: Vec<&D> = Vec::new();
        let mut i: usize = 0;
        while i < self.providers.len()
            invariant
                i <= self.providers@.len(),
                derefs(out@) == supporting(self.providers@.take(i as int), protocol@),
            decreases self.providers@.len() - i,
        {
            let ghost before = out@;
            proof {
                assert(self.providers@.take(i + 1).drop_last() =~= self.providers@.take(i as int));
                assert(self.providers@.take(i + 1).last() == self.providers@[i as int]);
            }
            if list_supports(&self.providers[i].0, protocol) {
                out.push(&self.providers[i].1);
                proof {
                    assert(derefs(out@) =~= derefs(before).push(self.providers@[i as int].1));
                }
            }
            i = i + 1;
        }
        proof {
            assert(self.providers@.take(self.providers@.len() as int) =~= self.providers@);
        }
        out
    }

    /// The providers a discovery uses: those supporting the protocol filter,
    /// or all. Without providers, or without one for the protocol, discovery
    /// is refused.
    pub fn discovery_providers(&self, options: &DiscoveryOptions) -> (r: Result<Vec<&D>, DeviceError>)
        ensures
            self.providers_spec().len() == 0 ==> (r matches Err(DeviceError::Other(m)) && m@
                == "No discovery providers registered"@),
            self.providers_spec().len() > 0 ==> match options.protocol_filter {
                None => r matches Ok(v) && derefs(v@) == self.providers_spec().map_values(
                    |p: (Vec<String>, D)| p.1,
                ),
                Some(p) => if supporting(self.providers_spec(), p@).len() == 0 {
                    r matches Err(DeviceError::Other(m)) && m@ == "No discovery providers for protocol Some("@
                        + str_debug_text(p@) + ")"@
                } else {
                    r matches Ok(v) && derefs(v@) == supporting(self.providers_spec(), p@)
                },
            },
    {
        if self.providers.len() == 0 {
            proof {
                reveal_strlit("No discovery providers registered");
            }
            return Err(DeviceError::Other(owned("No discovery providers registered")));
        }
        match &options.protocol_filter {
            Some(p) => {
                let chosen = self.providers_for_protocol(p.as_str());
                if chosen.len() == 0 {
                    let a = join("No discovery providers for protocol Some(", str_debug(p.as_str()).as_str());
                    return Err(DeviceError::Other(join(a.as_str(), ")")));
                }
                Ok(chosen)
            },
            None => {
                let all = self.providers();
                proof {
                    assert(derefs(all@) =~= self.providers@.map_values(|p: (Vec<String>, D)| p.1));
                }
                Ok(all)
            },
        }
    }

    /// The first registered provider that supports a protocol: the one that
    /// creates a discovered device.
    pub fn provider_for(&self, protocol: &str) -> (r: Option<&D>)
        ensures
            match r {
                Some(d) => exists|i: int|
                    0 <= i < self.providers_spec().len() && supports(
                        #[trigger] self.providers_spec()[i].0@,
                        protocol@,
                    ) && *d == self.providers_spec()[i].1 && forall|j: int|
                        0 <= j < i ==> !supports(self.providers_spec()[j].0@, protocol@),
                None => forall|i: int|
                    0 <= i < self.providers_spec().len() ==> !supports(
                        #[trigger] self.providers_spec()[i].0@,
                        protocol@,
                    ),
            },
    {
        let mut i: usize = 0;
        while i < self.providers.len()
            invariant
                i <= self.providers@.len(),
                forall|j: int| 0 <= j < i ==> !supports(self.providers@[j].0@, protocol@),
            decreases self.providers@.len() - i,
        {
            if list_supports(&self.providers[i].0, protocol) {
                proof {
                    assert(supports(self.providers_spec()[i as int].0@, protocol@));
                }
                return Some(&self.providers[i].1);
            }
            i = i + 1;
        }
        None
    }
}

impl<D> Default for DeviceDiscoverer<D> {
    fn default() -> (d: Self)
        ensures
            d.providers_spec().len() == 0,
    {
        DeviceDiscoverer::new()
    }
}

/// A shared device discoverer that can be cloned
#[derive(Debug)]
pub struct SharedDeviceDiscoverer<D>(std::sync::Arc<DeviceDiscoverer<D>>);

impl<D> SharedDeviceDiscoverer<D> {
    /// Create a new shared device discoverer
    pub fn new() -> (s: Self)
        ensures
            s.discoverer_spec().providers_spec().len() == 0,
    {
        SharedDeviceDiscoverer(std::sync::Arc::new(DeviceDiscoverer::new()))
    }

    /// The shared discoverer.
    pub closed spec fn discoverer_spec(self) -> DeviceDiscoverer<D> {
        *self.0
    }

    /// Get a reference to the device discoverer
    pub fn discoverer(&self) -> (r: &DeviceDiscoverer<D>)
        ensures
            *r == self.discoverer_spec(),
    {
        &self.0
    }
}

/// What became of one discovery result in the registration loop.
#[derive(Debug)]
pub enum RegistrationOutcome {
    /// No registered provider supports the result's protocol
    NoProvider,
    /// The provider could not create the device
    CreationFailed,
    /// The registry refused the device
    RegistrationFailed,
    /// The device was created and registered under this identifier
    Registered(Id),
}

/// The state of a registration loop: whether it stops after the first
/// device, and the identifiers registered so far, in order.
#[derive(Debug)]
pub struct RegistrationRun {
    first_only: bool,
    registered: Vec<Id>,
}

impl RegistrationRun {
    /// Whether the run stops after the first registered device.
    pub closed spec fn first_only_spec(self) -> bool {
        self.first_only
    }

    /// The identifiers registered so far, in order.
    pub closed spec fn registered_spec(self) -> Seq<Id> {
        self.registered@
    }

    /// A run under the given options, with nothing registered yet.
    pub fn new(options: &DiscoveryOptions) -> (r: Self)
        ensures
            r.first_only_spec() == options.first_only,
            r.registered_spec() == Seq::<Id>::empty(),
    {
        RegistrationRun { first_only: options.first_only, registered: Vec::new() }
    }

    /// Records what became of one result and says whether the loop goes on:
    /// a registered device is added to the list, and ends the loop when
    /// only the first device is wanted; every other outcome skips the
    /// result and the loop goes on.
    pub fn record(&mut self, outcome: RegistrationOutcome) -> (go_on: bool)
        ensures
            final(self).first_only_spec() == old(self).first_only_spec(),
            match outcome {
                RegistrationOutcome::Registered(id) => final(self).registered_spec()
                    == old(self).registered_spec().push(id) && go_on == !old(self).first_only_spec(),
                _ => final(self).registered_spec() == old(self).registered_spec() && go_on,
            },
    {
        match outcome {
            RegistrationOutcome::Registered(id) => {
                self.registered.push(id);
                !self.first_only
            },
            _ => true,
        }
    }

    /// The identifiers registered, in order.
    pub fn into_registered(self) -> (r: Vec<Id>)
        ensures
            r@ == self.registered_spec(),
    {
        self.registered
    }
}

} // verus!
