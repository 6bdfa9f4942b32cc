//! Triggers that start workflows: the events they react to and the rules by
//! which each kind of trigger matches an event.
use vstd::prelude::*;

use crate::mechaflow_core::error::owned;
use crate::mechaflow_core::types::{Id, Timestamp, Value, ValueModel};
use crate::mechaflow_devices::device::{event_device, event_type_name, DeviceEvent, DeviceState};
use crate::mechaflow_engine::error::Result;
use crate::str_map::{str_eq, StrMap};

verus! {

/// A trigger event that can start a workflow
#[derive(Debug)]
pub enum TriggerEvent {
    /// Event from a device
    Device(DeviceEvent),
    /// Timer event
    Timer(TimerEvent),
    /// Webhook event
    Webhook(WebhookEvent),
    /// Manual trigger
    Manual(ManualTriggerEvent),
    /// State change event
    StateChange(StateChangeEvent),
    /// Custom event
    Custom(CustomEvent),
}

/// A timer event
#[derive(Debug)]
pub struct TimerEvent {
    /// Event timestamp
    pub timestamp: Timestamp,
    /// Timer ID
    pub timer_id: String,
    /// Timer name
    pub timer_name: Option<String>,
    /// Additional data
    pub data: StrMap<Value>,
}

/// A webhook event
#[derive(Debug)]
pub struct WebhookEvent {
    /// Event timestamp
    pub timestamp: Timestamp,
    /// Webhook ID
    pub webhook_id: String,
    /// Webhook path
    pub path: String,
    /// HTTP method
    pub method: String,
    /// Headers
    pub headers: StrMap<String>,
    /// Query parameters
    pub query_params: StrMap<String>,
    /// Request body
    pub body: Option<Value>,
}

/// A manual trigger event
#[derive(Debug)]
pub struct ManualTriggerEvent {
    /// Event timestamp
    pub timestamp: Timestamp,
    /// User ID that triggered the event
    pub user_id: Option<String>,
    /// Additional data
    pub data: StrMap<Value>,
}

/// A state change event
#[derive(Debug)]
pub struct StateChangeEvent {
    /// Event timestamp
    pub timestamp: Timestamp,
    /// Entity type
    pub entity_type: String,
    /// Entity ID
    pub entity_id: Id,
    /// Previous state
    pub previous_state: Value,
    /// New state
    pub new_state: Value,
}

/// A custom event
#[derive(Debug)]
pub struct CustomEvent {
    /// Event timestamp
    pub timestamp: Timestamp,
    /// Event type
    pub event_type: String,
    /// Source of the event
    pub source: String,
    /// Event data
    pub data: Value,
}

/// The name of an event's kind.
pub open spec fn trigger_event_type(e: TriggerEvent) -> Seq<char> {
    match e {
        TriggerEvent::Device(_) => "device"@,
        TriggerEvent::Timer(_) => "timer"@,
        TriggerEvent::Webhook(_) => "webhook"@,
        TriggerEvent::Manual(_) => "manual"@,
        TriggerEvent::StateChange(_) => "state_change"@,
        TriggerEvent::Custom(_) => "custom"@,
    }
}

/// When an event happened; device events carry no time of their own.
pub open spec fn trigger_event_time(e: TriggerEvent) -> Option<Timestamp> {
    match e {
        TriggerEvent::Device(_) => None,
        TriggerEvent::Timer(t) => Some(t.timestamp),
        TriggerEvent::Webhook(w) => Some(w.timestamp),
        TriggerEvent::Manual(m) => Some(m.timestamp),
        TriggerEvent::StateChange(s) => Some(s.timestamp),
        TriggerEvent::Custom(c) => Some(c.timestamp),
    }
}

impl TriggerEvent {
    /// Get the event type as a string
    pub fn event_type(&self) -> (r: &'static str)
        ensures
            r@ == trigger_event_type(*self),
    {
        match self {
            TriggerEvent::Device(_) => "device",
            TriggerEvent::Timer(_) => "timer",
            TriggerEvent::Webhook(_) => "webhook",
            TriggerEvent::Manual(_) => "manual",
            TriggerEvent::StateChange(_) => "state_change",
            TriggerEvent::Custom(_) => "custom",
        }
    }

    /// Get the event timestamp, where the event carries one
    pub fn timestamp(&self) -> (r: Option<Timestamp>)
        ensures
            r == trigger_event_time(*self),
    {
        match self {
            TriggerEvent::Device(_) => None,
            TriggerEvent::Timer(t) => Some(t.timestamp),
            TriggerEvent::Webhook(w) => Some(w.timestamp),
            TriggerEvent::Manual(m) => Some(m.timestamp),
            TriggerEvent::StateChange(s) => Some(s.timestamp),
            TriggerEvent::Custom(c) => Some(c.timestamp),
        }
    }
}

/// The text of an optional string.
pub open spec fn opt_seq(s: Option<String>) -> Option<Seq<char>> {
    match s {
        Some(t) => Some(t@),
        None => None,
    }
}

/// Copy of an optional string.
fn copy_opt_string(s: &Option<String>) -> (r: Option<String>)
    ensures
        opt_seq(r) == opt_seq(*s),
{
    match s {
        Some(t) => Some(t.clone()),
        None => None,
    }
}

/// Whether a device trigger with these settings matches an event: the event
/// comes from the device, and each setting that is given agrees with it (a
/// state needs a state change, a property a property change).
pub open spec fn device_trigger_matches(
    device_id: Seq<char>,
    event_type: Option<Seq<char>>,
    state: Option<DeviceState>,
    property: Option<Seq<char>>,
    property_value: Option<ValueModel>,
    event: TriggerEvent,
) -> bool {
    match event {
        TriggerEvent::Device(d) => {
            &&& event_device(d) == device_id
            &&& (event_type matches Some(t) ==> event_type_name(d) == t)
            &&& (state matches Some(s) ==> d.state_of() == Some(s))
            &&& (property matches Some(p) ==> (d.property_of() matches Some(pv) && pv.0 == p && (
            property_value matches Some(v) ==> crate::mechaflow_core::types::model_eq(pv.1, v))))
        },
        _ => false,
    }
}

/// A device trigger matches exactly the events of its device that pass
/// each filter it sets: the event's kind equals the trigger's event type;
/// with a state set, the event is a state change into that state; with a
/// property set, the event is a change of that property, and with a value
/// set too, to a value equal to it. No other event matches.
pub proof fn lemma_device_trigger_matching(t: DeviceTrigger, event: TriggerEvent)
    ensures
        t.matches_spec(event) <==> (event matches TriggerEvent::Device(d) && {
            &&& event_device(d) == t.device_spec()
            &&& (t.event_type_spec() matches Some(ty) ==> event_type_name(d) == ty)
            &&& (t.state_spec() matches Some(s) ==> (d matches DeviceEvent::StateChanged {
                new_state,
                ..
            } && new_state == s))
            &&& (t.property_spec() matches Some(p) ==> (d matches DeviceEvent::PropertyChanged {
                property,
                new_value,
                ..
            } && property@ == p && (t.property_value_spec() matches Some(v)
                ==> crate::mechaflow_core::types::model_eq(new_value@, v))))
        }),
{
}

/// A device trigger that starts a workflow when a device event occurs
#[derive(Debug)]
pub struct DeviceTrigger {
    id: String,
    description: Option<String>,
    device_id: Id,
    event_type: Option<String>,
    state: Option<DeviceState>,
    property: Option<String>,
    property_value: Option<Value>,
}

impl DeviceTrigger {
    /// The trigger's identifier.
    pub closed spec fn id_spec(self) -> Seq<char> {
        self.id@
    }

    /// The trigger's description.
    pub closed spec fn description_spec(self) -> Option<Seq<char>> {
        opt_seq(self.description)
    }

    /// The device watched.
    pub closed spec fn device_spec(self) -> Seq<char> {
        self.device_id@
    }

    /// The event kind required, if any.
    pub closed spec fn event_type_spec(self) -> Option<Seq<char>> {
        opt_seq(self.event_type)
    }

    /// The state required, if any.
    pub closed spec fn state_spec(self) -> Option<DeviceState> {
        self.state
    }

    /// The property required, if any.
    pub closed spec fn property_spec(self) -> Option<Seq<char>> {
        opt_seq(self.property)
    }

    /// The property value required, if any.
    pub closed spec fn property_value_spec(self) -> Option<ValueModel> {
        match self.property_value {
            Some(v) => Some(v@),
            None => None,
        }
    }

    /// Whether the trigger matches an event.
    pub open spec fn matches_spec(self, event: TriggerEvent) -> bool {
        device_trigger_matches(
            self.device_spec(),
            self.event_type_spec(),
            self.state_spec(),
            self.property_spec(),
            self.property_value_spec(),
            event,
        )
    }

    /// Create a new device trigger
    pub fn new(id: &str, device_id: Id) -> (t: Self)
        ensures
            t.id_spec() == id@,
            t.description_spec() is None,
            t.device_spec() == device_id@,
            t.event_type_spec() is None,
            t.state_spec() is None,
            t.property_spec() is None,
            t.property_value_spec() is None,
    {
        DeviceTrigger {
            id: owned(id),
            description: None,
            device_id,
            event_type: None,
            state: None,
            property: None,
            property_value: None,
        }
    }

    /// Set the trigger description
    pub fn with_description(self, description: &str) -> (t: Self)
        ensures
            t.description_spec() == Some(description@),
            t.id_spec() == self.id_spec(),
            t.device_spec() == self.device_spec(),
            t.event_type_spec() == self.event_type_spec(),
            t.state_spec() == self.state_spec(),
            t.property_spec() == self.property_spec(),
            t.property_value_spec() == self.property_value_spec(),
    {
        let mut t = self;
        t.description = Some(owned(description));
        t
    }

    /// Set the event type to monitor
    pub fn with_event_type(self, event_type: &str) -> (t: Self)
        ensures
            t.event_type_spec() == Some(event_type@),
            t.id_spec() == self.id_spec(),
            t.description_spec() == self.description_spec(),
            t.device_spec() == self.device_spec(),
            t.state_spec() == self.state_spec(),
            t.property_spec() == self.property_spec(),
            t.property_value_spec() == self.property_value_spec(),
    {
        let mut t = self;
        t.event_type = Some(owned(event_type));
        t
    }

    /// Set the state to monitor
    pub fn with_state(self, state: DeviceState) -> (t: Self)
        ensures
            t.state_spec() == Some(state),
            t.id_spec() == self.id_spec(),
            t.description_spec() == self.description_spec(),
            t.device_spec() == self.device_spec(),
            t.event_type_spec() == self.event_type_spec(),
            t.property_spec() == self.property_spec(),
            t.property_value_spec() == self.property_value_spec(),
    {
        let mut t = self;
        t.state = Some(state);
        t
    }

    /// Set the property to monitor
    pub fn with_property(self, property: &str) -> (t: Self)
        ensures
            t.property_spec() == Some(property@),
            t.id_spec() == self.id_spec(),
            t.description_spec() == self.description_spec(),
            t.device_spec() == self.device_spec(),
            t.event_type_spec() == self.event_type_spec(),
            t.state_spec() == self.state_spec(),
            t.property_value_spec() == self.property_value_spec(),
    {
        let mut t = self;
        t.property = Some(owned(property));
        t
    }

    /// Set the property value to match
    pub fn with_property_value(self, value: Value) -> (t: Self)
        ensures
            t.property_value_spec() == Some(value@),
            t.id_spec() == self.id_spec(),
            t.description_spec() == self.description_spec(),
            t.device_spec() == self.device_spec(),
            t.event_type_spec() == self.event_type_spec(),
            t.state_spec() == self.state_spec(),
            t.property_spec() == self.property_spec(),
    {
        let mut t = self;
        t.property_value = Some(value);
        t
    }

    /// The trigger type
    pub fn trigger_type(&self) -> (r: &'static str)
        ensures
            r@ == "device"@,
    {
        "device"
    }

    /// Check if the trigger matches the given event
    pub fn matches_event(&self, event: &TriggerEvent) -> (r: Result<bool>)
        ensures
            r matches Ok(b) && b == self.matches_spec(*event),
    {
        match event {
            TriggerEvent::Device(d) => {
                if !d.device_id().same(&self.device_id) {
                    return Ok(false);
                }
                match &self.event_type {
                    Some(t) => {
                        if !str_eq(d.event_type(), t.as_str()) {
                            return Ok(false);
                        }
                    },
                    None => {},
                }
                match &self.state {
                    Some(s) => match d.state() {
                        Some(ds) => {
                            if ds != *s {
                                return Ok(false);
                            }
                        },
                        None => {
                            return Ok(false);
                        },
                    },
                    None => {},
                }
                match &self.property {
                    Some(p) => match d.property() {
                        Some((prop, value)) => {
                            if !str_eq(prop.as_str(), p.as_str()) {
                                return Ok(false);
                            }
                            match &self.property_value {
                                Some(expected) => {
                                    if !value.equals(expected) {
                                        return Ok(false);
                                    }
                                },
                                None => {},
                            }
                        },
                        None => {
                            return Ok(false);
                        },
                    },
                    None => {},
                }
                Ok(true)
            },
            _ => Ok(false),
        }
    }

    /// Get the trigger ID
    pub fn id(&self) -> (r: &str)
        ensures
            r@ == self.id_spec(),
    {
        self.id.as_str()
    }

    /// Get the trigger description
    pub fn description(&self) -> (r: Option<&str>)
        ensures
            match r {
                Some(d) => self.description_spec() == Some(d@),
                None => self.description_spec() is None,
            },
    {
        match &self.description {
            Some(d) => Some(d.as_str()),
            None => None,
        }
    }
}


/// A timer trigger that starts a workflow at specific times
#[derive(Debug)]
pub struct TimerTrigger {
    id: String,
    description: Option<String>,
    cron: Option<String>,
    interval: Option<u64>,
    times: Vec<String>,
    timer_id: Option<String>,
}

/// Whether a timer trigger with this timer filter matches an event: any
/// timer event matches unless a timer ID is given, which must then agree.
pub open spec fn timer_trigger_matches(timer_id: Option<Seq<char>>, event: TriggerEvent) -> bool {
    match event {
        TriggerEvent::Timer(t) => timer_id matches Some(id) ==> t.timer_id@ == id,
        _ => false,
    }
}

impl TimerTrigger {
    /// The trigger's identifier.
    pub closed spec fn id_spec(self) -> Seq<char> {
        self.id@
    }

    /// The trigger's description.
    pub closed spec fn description_spec(self) -> Option<Seq<char>> {
        opt_seq(self.description)
    }

    /// The cron expression, if any.
    pub closed spec fn cron_spec(self) -> Option<Seq<char>> {
        opt_seq(self.cron)
    }

    /// The interval in seconds, if any.
    pub closed spec fn interval_spec(self) -> Option<u64> {
        self.interval
    }

    /// The specific times, in the order they were added.
    pub closed spec fn times_spec(self) -> Seq<Seq<char>> {
        self.times@.map_values(|t: String| t@)
    }

    /// The timer whose events match, if restricted.
    pub closed spec fn timer_id_spec(self) -> Option<Seq<char>> {
        opt_seq(self.timer_id)
    }

    /// Create a new timer trigger
    pub fn new(id: &str) -> (t: Self)
        ensures
            t.id_spec() == id@,
            t.description_spec() is None,
            t.cron_spec() is None,
            t.interval_spec() is None,
            t.times_spec().len() == 0,
            t.timer_id_spec() is None,
    {
        let t = TimerTrigger {
            id: owned(id),
            description: None,
            cron: None,
            interval: None,
            times: Vec::new(),
            timer_id: None,
        };
        assert(t.times_spec() =~= Seq::empty());
        t
    }

    /// Set the trigger description
    pub fn with_description(self, description: &str) -> (t: Self)
        ensures
            t.description_spec() == Some(description@),
            t.id_spec() == self.id_spec(),
            t.cron_spec() == self.cron_spec(),
            t.interval_spec() == self.interval_spec(),
            t.times_spec() == self.times_spec(),
            t.timer_id_spec() == self.timer_id_spec(),
    {
        let mut t = self;
        t.description = Some(owned(description));
        t
    }

    /// Set a cron expression for scheduling
    pub fn with_cron(self, cron: &str) -> (t: Self)
        ensures
            t.cron_spec() == Some(cron@),
            t.id_spec() == self.id_spec(),
            t.description_spec() == self.description_spec(),
            t.interval_spec() == self.interval_spec(),
            t.times_spec() == self.times_spec(),
            t.timer_id_spec() == self.timer_id_spec(),
    {
        let mut t = self;
        t.cron = Some(owned(cron));
        t
    }

    /// Set an interval in seconds
    pub fn with_interval(self, interval: u64) -> (t: Self)
        ensures
            t.interval_spec() == Some(interval),
            t.id_spec() == self.id_spec(),
            t.description_spec() == self.description_spec(),
            t.cron_spec() == self.cron_spec(),
            t.times_spec() == self.times_spec(),
            t.timer_id_spec() == self.timer_id_spec(),
    {
        let mut t = self;
        t.interval = Some(interval);
        t
    }

    /// Add a specific time
    pub fn add_time(self, time: &str) -> (t: Self)
        ensures
            t.times_spec() == self.times_spec().push(time@),
            t.id_spec() == self.id_spec(),
            t.description_spec() == self.description_spec(),
            t.cron_spec() == self.cron_spec(),
            t.interval_spec() == self.interval_spec(),
            t.timer_id_spec() == self.timer_id_spec(),
    {
        let mut t = self;
        t.times.push(owned(time));
        assert(t.times_spec() =~= self.times_spec().push(time@));
        t
    }

    /// Set the timer ID to match
    pub fn with_timer_id(self, timer_id: &str) -> (t: Self)
        ensures
            t.timer_id_spec() == Some(timer_id@),
            t.id_spec() == self.id_spec(),
            t.description_spec() == self.description_spec(),
            t.cron_spec() == self.cron_spec(),
            t.interval_spec() == self.interval_spec(),
            t.times_spec() == self.times_spec(),
    {
        let mut t = self;
        t.timer_id = Some(owned(timer_id));
        t
    }

    /// The trigger type
    pub fn trigger_type(&self) -> (r: &'static str)
        ensures
            r@ == "timer"@,
    {
        "timer"
    }

    /// Check if the trigger matches the given event. Cron, interval and
    /// times are honoured by whoever sends timer events.
    pub fn matches_event(&self, event: &TriggerEvent) -> (r: Result<bool>)
        ensures
            r matches Ok(b) && b == timer_trigger_matches(self.timer_id_spec(), *event),
    {
        match event {
            TriggerEvent::Timer(t) => match &self.timer_id {
                Some(id) => Ok(str_eq(t.timer_id.as_str(), id.as_str())),
                None => Ok(true),
            },
            _ => Ok(false),
        }
    }

    /// Get the trigger ID
    pub fn id(&self) -> (r: &str)
        ensures
            r@ == self.id_spec(),
    {
        self.id.as_str()
    }

    /// Get the trigger description
    pub fn description(&self) -> (r: Option<&str>)
        ensures
            match r {
                Some(d) => self.description_spec() == Some(d@),
                None => self.description_spec() is None,
            },
    {
        match &self.description {
            Some(d) => Some(d.as_str()),
            None => None,
        }
    }
}

/// Every required entry is present in `actual` with the same text.
pub open spec fn entries_required(
    required: Map<Seq<char>, String>,
    actual: Map<Seq<char>, String>,
) -> bool {
    forall|k: Seq<char>|
        #[trigger] required.contains_key(k) ==> actual.contains_key(k) && actual[k]@
            == required[k]@
}

/// Whether every entry of `required` appears in `actual`.
fn all_entries_present(required: &StrMap<String>, actual: &StrMap<String>) -> (r: bool)
    ensures
        r == entries_required(required@, actual@),
{
    let n = required.len();
    let mut i: usize = 0;
    while i < n
        invariant
            n == required.entry_seq().len(),
            i <= n,
            required@ == crate::str_map::entries_map(required.entry_seq()),
            crate::str_map::keys_unique(required.entry_seq()),
            forall|j: int|
                0 <= j < i ==> #[trigger] actual@.contains_key(required.entry_seq()[j].0@)
                    && actual@[required.entry_seq()[j].0@]@ == required.entry_seq()[j].1@,
        decreases n - i,
    {
        let (k, v) = required.entry_at(i);
        match actual.get(k.as_str()) {
            Some(a) => {
                if !str_eq(a.as_str(), v.as_str()) {
                    return false;
                }
            },
            None => {
                return false;
            },
        }
        i = i + 1;
    }
    proof {
        assert forall|k: Seq<char>| #[trigger] required@.contains_key(k) implies actual@.contains_key(
            k,
        ) && actual@[k]@ == required@[k]@ by {
            let j = crate::str_map::key_index(required.entry_seq(), k);
            crate::str_map::lemma_key_index_unique(required.entry_seq(), j);
            assert(actual@.contains_key(required.entry_seq()[j].0@));
        }
    }
    true
}

/// Whether a webhook trigger matches an event: same path, the method if one
/// is required, and every required header and query parameter with the same
/// value.
pub open spec fn webhook_trigger_matches(
    path: Seq<char>,
    method: Option<Seq<char>>,
    headers: Map<Seq<char>, String>,
    query_params: Map<Seq<char>, String>,
    event: TriggerEvent,
) -> bool {
    match event {
        TriggerEvent::Webhook(w) => {
            &&& w.path@ == path
            &&& (method matches Some(m) ==> w.method@ == m)
            &&& entries_required(headers, w.headers@)
            &&& entries_required(query_params, w.query_params@)
        },
        _ => false,
    }
}

/// A webhook trigger that starts a workflow when an HTTP request is received
#[derive(Debug)]
pub struct WebhookTrigger {
    id: String,
    description: Option<String>,
    path: String,
    method: Option<String>,
    headers: StrMap<String>,
    query_params: StrMap<String>,
}

impl WebhookTrigger {
    /// The trigger's identifier.
    pub closed spec fn id_spec(self) -> Seq<char> {
        self.id@
    }

    /// The trigger's description.
    pub closed spec fn description_spec(self) -> Option<Seq<char>> {
        opt_seq(self.description)
    }

    /// The webhook path.
    pub closed spec fn path_spec(self) -> Seq<char> {
        self.path@
    }

    /// The HTTP method required, if any.
    pub closed spec fn method_spec(self) -> Option<Seq<char>> {
        opt_seq(self.method)
    }

    /// The headers required.
    pub closed spec fn headers_spec(self) -> Map<Seq<char>, String> {
        self.headers@
    }

    /// The query parameters required.
    pub closed spec fn query_params_spec(self) -> Map<Seq<char>, String> {
        self.query_params@
    }

    /// Create a new webhook trigger
    pub fn new(id: &str, path: &str) -> (t: Self)
        ensures
            t.id_spec() == id@,
            t.path_spec() == path@,
            t.description_spec() is None,
            t.method_spec() is None,
            t.headers_spec() == Map::<Seq<char>, String>::empty(),
            t.query_params_spec() == Map::<Seq<char>, String>::empty(),
    {
        WebhookTrigger {
            id: owned(id),
            description: None,
            path: owned(path),
            method: None,
            headers: StrMap::new(),
            query_params: StrMap::new(),
        }
    }

    /// Set the trigger description
    pub fn with_description(self, description: &str) -> (t: Self)
        ensures
            t.description_spec() == Some(description@),
            t.id_spec() == self.id_spec(),
            t.path_spec() == self.path_spec(),
            t.method_spec() == self.method_spec(),
            t.headers_spec() == self.headers_spec(),
            t.query_params_spec() == self.query_params_spec(),
    {
        let mut t = self;
        t.description = Some(owned(description));
        t
    }

    /// Set the HTTP method
    pub fn with_method(self, method: &str) -> (t: Self)
        ensures
            t.method_spec() == Some(method@),
            t.id_spec() == self.id_spec(),
            t.description_spec() == self.description_spec(),
            t.path_spec() == self.path_spec(),
            t.headers_spec() == self.headers_spec(),
            t.query_params_spec() == self.query_params_spec(),
    {
        let mut t = self;
        t.method = Some(owned(method));
        t
    }

    /// Add a required header
    pub fn add_header(self, key: &str, value: &str) -> (t: Self)
        ensures
            t.headers_spec().dom() == self.headers_spec().dom().insert(key@),
            t.headers_spec()[key@]@ == value@,
            forall|k: Seq<char>|
                k != key@ && #[trigger] self.headers_spec().contains_key(k) ==> t.headers_spec()[k]
                    == self.headers_spec()[k],
            t.id_spec() == self.id_spec(),
            t.description_spec() == self.description_spec(),
            t.path_spec() == self.path_spec(),
            t.method_spec() == self.method_spec(),
            t.query_params_spec() == self.query_params_spec(),
    {
        let mut t = self;
        t.headers.insert(owned(key), owned(value));
        t
    }

    /// Add a required query parameter
    pub fn add_query_param(self, key: &str, value: &str) -> (t: Self)
        ensures
            t.query_params_spec().dom() == self.query_params_spec().dom().insert(key@),
            t.query_params_spec()[key@]@ == value@,
            forall|k: Seq<char>|
                k != key@ && #[trigger] self.query_params_spec().contains_key(k)
                    ==> t.query_params_spec()[k] == self.query_params_spec()[k],
            t.id_spec() == self.id_spec(),
            t.description_spec() == self.description_spec(),
            t.path_spec() == self.path_spec(),
            t.method_spec() == self.method_spec(),
            t.headers_spec() == self.headers_spec(),
    {
        let mut t = self;
        t.query_params.insert(owned(key), owned(value));
        t
    }

    /// The trigger type
    pub fn trigger_type(&self) -> (r: &'static str)
        ensures
            r@ == "webhook"@,
    {
        "webhook"
    }

    /// Check if the trigger matches the given event
    pub fn matches_event(&self, event: &TriggerEvent) -> (r: Result<bool>)
        ensures
            r matches Ok(b) && b == webhook_trigger_matches(
                self.path_spec(),
                self.method_spec(),
                self.headers_spec(),
                self.query_params_spec(),
                *event,
            ),
    {
        match event {
            TriggerEvent::Webhook(w) => {
                if !str_eq(w.path.as_str(), self.path.as_str()) {
                    return Ok(false);
                }
                match &self.method {
                    Some(m) => {
                        if !str_eq(w.method.as_str(), m.as_str()) {
                            return Ok(false);
                        }
                    },
                    None => {},
                }
                if !all_entries_present(&self.headers, &w.headers) {
                    return Ok(false);
                }
                Ok(all_entries_present(&self.query_params, &w.query_params))
            },
            _ => Ok(false),
        }
    }

    /// Get the trigger ID
    pub fn id(&self) -> (r: &str)
        ensures
            r@ == self.id_spec(),
    {
        self.id.as_str()
    }

    /// Get the trigger description
    pub fn description(&self) -> (r: Option<&str>)
        ensures
            match r {
                Some(d) => self.description_spec() == Some(d@),
                None => self.description_spec() is None,
            },
    {
        match &self.description {
            Some(d) => Some(d.as_str()),
            None => None,
        }
    }
}

/// Whether a manual trigger requiring these data fields matches an event.
pub open spec fn manual_trigger_matches(required: Seq<Seq<char>>, event: TriggerEvent) -> bool {
    match event {
        TriggerEvent::Manual(m) => forall|i: int|
            0 <= i < required.len() ==> m.data@.contains_key(#[trigger] required[i]),
        _ => false,
    }
}

/// A manual trigger that starts a workflow when manually triggered
#[derive(Debug)]
pub struct ManualTrigger {
    id: String,
    description: Option<String>,
    required_data: Vec<String>,
}

impl ManualTrigger {
    /// The trigger's identifier.
    pub closed spec fn id_spec(self) -> Seq<char> {
        self.id@
    }

    /// The trigger's description.
    pub closed spec fn description_spec(self) -> Option<Seq<char>> {
        opt_seq(self.description)
    }

    /// The data fields an event must carry, in the order they were added.
    pub closed spec fn required_spec(self) -> Seq<Seq<char>> {
        self.required_data@.map_values(|f: String| f@)
    }

    /// Create a new manual trigger
    pub fn new(id: &str) -> (t: Self)
        ensures
            t.id_spec() == id@,
            t.description_spec() is None,
            t.required_spec().len() == 0,
    {
        let t = ManualTrigger { id: owned(id), description: None, required_data: Vec::new() };
        assert(t.required_spec() =~= Seq::empty());
        t
    }

    /// Set the trigger description
    pub fn with_description(self, description: &str) -> (t: Self)
        ensures
            t.description_spec() == Some(description@),
            t.id_spec() == self.id_spec(),
            t.required_spec() == self.required_spec(),
    {
        let mut t = self;
        t.description = Some(owned(description));
        t
    }

    /// Add a required data field
    pub fn add_required_data(self, field: &str) -> (t: Self)
        ensures
            t.required_spec() == self.required_spec().push(field@),
            t.id_spec() == self.id_spec(),
            t.description_spec() == self.description_spec(),
    {
        let mut t = self;
        t.required_data.push(owned(field));
        assert(t.required_spec() =~= self.required_spec().push(field@));
        t
    }

    /// The trigger type
    pub fn trigger_type(&self) -> (r: &'static str)
        ensures
            r@ == "manual"@,
    {
        "manual"
    }

    /// Check if the trigger matches the given event
    #[verifier::loop_isolation(false)]
    pub fn matches_event(&self, event: &TriggerEvent) -> (r: Result<bool>)
        ensures
            r matches Ok(b) && b == manual_trigger_matches(self.required_spec(), *event),
    {
        match event {
            TriggerEvent::Manual(m) => {
                let n = self.required_data.len();
                let mut i: usize = 0;
                while i < n
                    invariant
                        n == self.required_data@.len(),
                        i <= n,
                        forall|j: int|
                            0 <= j < i ==> m.data@.contains_key(
                                #[trigger] self.required_spec()[j],
                            ),
                    decreases n - i,
                {
                    if !m.data.contains_key(self.required_data[i].as_str()) {
                        proof {
                            assert(self.required_spec()[i as int] == self.required_data@[i as int]@);
                        }
                        return Ok(false);
                    }
                    i = i + 1;
                }
                Ok(true)
            },
            _ => Ok(false),
        }
    }

    /// Get the trigger ID
    pub fn id(&self) -> (r: &str)
        ensures
            r@ == self.id_spec(),
    {
        self.id.as_str()
    }

    /// Get the trigger description
    pub fn description(&self) -> (r: Option<&str>)
        ensures
            match r {
                Some(d) => self.description_spec() == Some(d@),
                None => self.description_spec() is None,
            },
    {
        match &self.description {
            Some(d) => Some(d.as_str()),
            None => None,
        }
    }
}

} // verus!
