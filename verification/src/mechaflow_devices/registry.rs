//! The device registry: devices by identifier, with their descriptions, and
//! the queries and events around them.
use vstd::prelude::*;

use crate::mechaflow_core::error::{join, owned};
use crate::mechaflow_core::types::Id;
use crate::mechaflow_devices::device::{
    capability_key, has_capability_spec, DeviceCapability, DeviceError, DeviceInfo, DeviceState,
};
use crate::str_map::{entries_map, key_index, keys_unique, str_eq, StrMap};

verus! {

/// Event types for device registry
#[derive(Debug)]
pub enum RegistryEvent {
    /// A device was added to the registry
    DeviceAdded(DeviceInfo),
    /// A device was removed from the registry
    DeviceRemoved(Id),
    /// A device state changed
    DeviceStateChanged {
        /// The device ID
        id: Id,
        /// The old state
        old_state: DeviceState,
        /// The new state
        new_state: DeviceState,
    },
}

/// How a registry query selects devices.
pub enum DeviceFilter {
    /// Devices of this type
    Type(Seq<char>),
    /// Devices with this capability
    Capability(DeviceCapability),
    /// Devices speaking this protocol
    Protocol(Seq<char>),
}

/// Whether a device description passes a filter.
pub open spec fn passes(f: DeviceFilter, info: DeviceInfo) -> bool {
    match f {
        DeviceFilter::Type(t) => info.device_type@ == t,
        DeviceFilter::Capability(c) => has_capability_spec(info.capabilities@, c),
        DeviceFilter::Protocol(p) => info.protocol@ == p,
    }
}

/// The devices of the entries that pass the filter, in entry order.
pub open spec fn select<D>(s: Seq<(String, (DeviceInfo, D))>, f: DeviceFilter) -> Seq<D>
    decreases s.len(),
{
    if s.len() == 0 {
        Seq::empty()
    } else {
        let rest = select(s.drop_last(), f);
        if passes(f, s.last().1.0) {
            rest.push(s.last().1.1)
        } else {
            rest
        }
    }
}

/// The values behind a sequence of references.
pub open spec fn derefs<D>(s: Seq<&D>) -> Seq<D> {
    s.map_values(|d: &D| *d)
}

/// Device registry
#[derive(Debug)]
pub struct DeviceRegistry<D> {
    devices: StrMap<(DeviceInfo, D)>,
    events: Vec<RegistryEvent>,
}

impl<D> DeviceRegistry<D> {
    /// The registered devices with their descriptions, by identifier.
    pub closed spec fn devices_spec(self) -> Map<Seq<char>, (DeviceInfo, D)> {
        self.devices@
    }

    /// The registered entries in registration order.
    pub closed spec fn entries_spec(self) -> Seq<(String, (DeviceInfo, D))> {
        self.devices.entry_seq()
    }

    /// Registry events not yet taken for publication.
    pub closed spec fn pending_events(self) -> Seq<RegistryEvent> {
        self.events@
    }

    /// Create a new device registry
    pub fn new() -> (r: Self)
        ensures
            r.devices_spec() == Map::<Seq<char>, (DeviceInfo, D)>::empty(),
            r.entries_spec().len() == 0,
            r.pending_events().len() == 0,
    {
        DeviceRegistry { devices: StrMap::new(), events: Vec::new() }
    }

    /// Register a device with the registry under the identifier of its
    /// description; an identifier already present is refused.
    pub fn register_device(&mut self, info: DeviceInfo, device: D) -> (r: Result<(), DeviceError>)
        ensures
            old(self).devices_spec().contains_key(info.id@) <==> r is Err,
            r matches Err(e) ==> e is Other && final(self).devices_spec() == old(
                self,
            ).devices_spec() && final(self).pending_events() == old(self).pending_events(),
            r is Ok ==> final(self).devices_spec() == old(self).devices_spec().insert(
                info.id@,
                (info, device),
            ),
            r is Ok ==> final(self).pending_events().len() == old(self).pending_events().len() + 1,
            r is Ok ==> (final(self).pending_events().last() matches RegistryEvent::DeviceAdded(i)
                && i.id@ == info.id@),
    {
        let id = info.id.clone();
        if self.devices.contains_key(id.as_str()) {
            return Err(
                DeviceError::Other(
                    join(join("Device with ID ", id.as_str()).as_str(), " already registered"),
                ),
            );
        }
        let announced = info.duplicate();
        self.devices.insert(owned(id.as_str()), (info, device));
        self.events.push(RegistryEvent::DeviceAdded(announced));
        Ok(())
    }

    /// Unregister a device from the registry
    pub fn unregister_device(&mut self, id: &Id) -> (r: Result<(), DeviceError>)
        ensures
            old(self).devices_spec().contains_key(id@) <==> r is Ok,
            r matches Err(e) ==> e is Other && final(self).devices_spec() == old(
                self,
            ).devices_spec() && final(self).pending_events() == old(self).pending_events(),
            r is Ok ==> final(self).devices_spec() == old(self).devices_spec().remove(id@),
            r is Ok ==> final(self).pending_events().len() == old(self).pending_events().len() + 1,
            r is Ok ==> (final(self).pending_events().last() matches RegistryEvent::DeviceRemoved(i)
                && i@ == id@),
    {
        match self.devices.remove(id.as_str()) {
            Some(_) => {
                self.events.push(RegistryEvent::DeviceRemoved(id.clone()));
                Ok(())
            },
            None => Err(
                DeviceError::Other(
                    join(join("Device with ID ", id.as_str()).as_str(), " not registered"),
                ),
            ),
        }
    }

    /// Get a device by ID
    pub fn get_device(&self, id: &Id) -> (r: Result<&D, DeviceError>)
        ensures
            match r {
                Ok(d) => self.devices_spec().contains_key(id@) && *d == self.devices_spec()[id@].1,
                Err(e) => !self.devices_spec().contains_key(id@) && e is Other,
            },
    {
        match self.devices.get(id.as_str()) {
            Some(entry) => Ok(&entry.1),
            None => Err(
                DeviceError::Other(join(join("Device with ID ", id.as_str()).as_str(), " not found")),
            ),
        }
    }

    /// Get the description of a device by ID
    pub fn get_device_info(&self, id: &Id) -> (r: Result<&DeviceInfo, DeviceError>)
        ensures
            match r {
                Ok(d) => self.devices_spec().contains_key(id@) && *d == self.devices_spec()[id@].0,
                Err(e) => !self.devices_spec().contains_key(id@) && e is Other,
            },
    {
        match self.devices.get(id.as_str()) {
            Some(entry) => Ok(&entry.0),
            None => Err(
                DeviceError::Other(join(join("Device with ID ", id.as_str()).as_str(), " not found")),
            ),
        }
    }

    /// The devices whose descriptions pass the filter, in registration order.
    fn select_devices(&self, filter: &DeviceFilterArg) -> (r: Vec<&D>)
        ensures
            derefs(r@) == select(self.entries_spec(), filter.spec()),
    {
        let n = self.devices.len();
        let mut out: Vec<&D> = Vec::new();
        let mut i: usize = 0;
        while i < n
            invariant
                n == self.devices.entry_seq().len(),
                i <= n,
                derefs(out@) == select(self.devices.entry_seq().take(i as int), filter.spec()),
            decreases n - i,
        {
            let (_k, entry) = self.devices.entry_at(i);
            let keep = match filter {
                DeviceFilterArg::Type(t) => str_eq(entry.0.device_type.as_str(), t.as_str()),
                DeviceFilterArg::Capability(c) => entry.0.has_capability(c),
                DeviceFilterArg::Protocol(p) => str_eq(entry.0.protocol.as_str(), p.as_str()),
            };
            proof {
                let s = self.devices.entry_seq();
                assert(s.take(i + 1).drop_last() =~= s.take(i as int));
                assert(s.take(i + 1).last() == s[i as int]);
            }
            let ghost before = out@;
            if keep {
                out.push(&entry.1);
                proof {
                    assert(derefs(out@) =~= derefs(before).push(entry.1));
                }
            }
            i = i + 1;
        }
        proof {
            assert(self.devices.entry_seq().take(n as int) =~= self.devices.entry_seq());
        }
        out
    }

    /// Get all registered devices, in registration order
    pub fn get_devices(&self) -> (r: Result<Vec<&D>, DeviceError>)
        ensures
            r matches Ok(v) && v@.len() == self.entries_spec().len() && forall|i: int|
                0 <= i < v@.len() ==> #[trigger] v@[i] == self.entries_spec()[i].1.1,
    {
        let n = self.devices.len();
        let mut out: Vec<&D> = Vec::new();
        let mut i: usize = 0;
        while i < n
            invariant
                n == self.devices.entry_seq().len(),
                i <= n,
                out@.len() == i,
                forall|j: int| 0 <= j < i ==> #[trigger] out@[j] == self.devices.entry_seq()[j].1.1,
            decreases n - i,
        {
            let (_k, entry) = self.devices.entry_at(i);
            out.push(&entry.1);
            i = i + 1;
        }
        Ok(out)
    }

    /// Get all device IDs, in registration order
    pub fn get_device_ids(&self) -> (r: Result<Vec<Id>, DeviceError>)
        ensures
            r matches Ok(v) && v@.len() == self.entries_spec().len() && forall|i: int|
                0 <= i < v@.len() ==> (#[trigger] v@[i])@ == self.entries_spec()[i].0@,
    {
        let n = self.devices.len();
        let mut out: Vec<Id> = Vec::new();
        let mut i: usize = 0;
        while i < n
            invariant
                n == self.devices.entry_seq().len(),
                i <= n,
                out@.len() == i,
                forall|j: int|
                    0 <= j < i ==> (#[trigger] out@[j])@ == self.devices.entry_seq()[j].0@,
            decreases n - i,
        {
            let (k, _entry) = self.devices.entry_at(i);
            out.push(Id::from_string(k.as_str()));
            i = i + 1;
        }
        Ok(out)
    }

    /// Get devices by type
    pub fn get_devices_by_type(&self, device_type: &str) -> (r: Result<Vec<&D>, DeviceError>)
        ensures
            r matches Ok(v) && derefs(v@) == select(self.entries_spec(), DeviceFilter::Type(device_type@)),
    {
        let f = DeviceFilterArg::Type(owned(device_type));
        Ok(self.select_devices(&f))
    }

    /// Get devices by capability
    pub fn get_devices_by_capability(&self, capability: &DeviceCapability) -> (r: Result<
        Vec<&D>,
        DeviceError,
    >)
        ensures
            r matches Ok(v) && derefs(v@) == select(
                self.entries_spec(),
                DeviceFilter::Capability(*capability),
            ),
    {
        let f = DeviceFilterArg::Capability(capability.duplicate());
        let out = self.select_devices(&f);
        proof {
            lemma_select_same_capability(self.entries_spec(), f.spec(), DeviceFilter::Capability(*capability));
        }
        Ok(out)
    }

    /// Get devices by protocol
    pub fn get_devices_by_protocol(&self, protocol: &str) -> (r: Result<Vec<&D>, DeviceError>)
        ensures
            r matches Ok(v) && derefs(v@) == select(self.entries_spec(), DeviceFilter::Protocol(protocol@)),
    {
        let f = DeviceFilterArg::Protocol(owned(protocol));
        Ok(self.select_devices(&f))
    }

    /// Count registered devices
    pub fn count_devices(&self) -> (r: Result<usize, DeviceError>)
        ensures
            r matches Ok(n) && n == self.devices_spec().len(),
    {
        Ok(self.devices.len())
    }

    /// Check if a device is registered
    pub fn has_device(&self, id: &Id) -> (r: Result<bool, DeviceError>)
        ensures
            r matches Ok(b) && b == self.devices_spec().contains_key(id@),
    {
        Ok(self.devices.contains_key(id.as_str()))
    }

    /// Take the registry events produced since the last call, oldest first.
    pub fn take_events(&mut self) -> (r: Vec<RegistryEvent>)
        ensures
            r@ == old(self).pending_events(),
            final(self).pending_events().len() == 0,
            final(self).devices_spec() == old(self).devices_spec(),
            final(self).entries_spec() == old(self).entries_spec(),
    {
        let mut out: Vec<RegistryEvent> = Vec::new();
        std::mem::swap(&mut out, &mut self.events);
        out
    }
}

/// A filter as the executable code carries it.
pub enum DeviceFilterArg {
    /// Devices of this type
    Type(String),
    /// Devices with this capability
    Capability(DeviceCapability),
    /// Devices speaking this protocol
    Protocol(String),
}

impl DeviceFilterArg {
    /// The filter this argument stands for.
    pub open spec fn spec(&self) -> DeviceFilter {
        match self {
            DeviceFilterArg::Type(t) => DeviceFilter::Type(t@),
            DeviceFilterArg::Capability(c) => DeviceFilter::Capability(*c),
            DeviceFilterArg::Protocol(p) => DeviceFilter::Protocol(p@),
        }
    }
}

/// Capability filters select the same devices when the capabilities are equal.
pub proof fn lemma_select_same_capability<D>(
    s: Seq<(String, (DeviceInfo, D))>,
    f1: DeviceFilter,
    f2: DeviceFilter,
)
    requires
        f1 matches DeviceFilter::Capability(c1),
        f2 matches DeviceFilter::Capability(c2),
        capability_key(f1->Capability_0) == capability_key(f2->Capability_0),
    ensures
        select(s, f1) == select(s, f2),
    decreases s.len(),
{
    if s.len() > 0 {
        lemma_select_same_capability(s.drop_last(), f1, f2);
    }
}

} // verus!
