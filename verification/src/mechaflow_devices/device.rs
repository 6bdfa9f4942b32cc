//! Device descriptions, device errors and events, property metadata and the
//! base device: its lifecycle states, properties and the rules for reading
//! and writing them.
use vstd::prelude::*;

use crate::mechaflow_core::error::{error_detail, error_prefix, join, owned, Error as CoreError};
use crate::mechaflow_core::types::{model, now, Id, Timestamp, Value, ValueModel};
use crate::str_map::{str_eq, StrMap};
use crate::text::{
    decimal_of, join_all, join_texts, list_debug, list_debug_text, str_debug, str_debug_text,
    u64_to_decimal,
};

verus! {

/// Error type for device operations
#[derive(Debug)]
pub enum DeviceError {
    /// The device is not connected
    NotConnected,
    /// The property is not supported by the device
    PropertyNotSupported(String),
    /// The value type is not valid for the property (property, expected, got)
    InvalidValueType(String, String, String),
    /// The value is out of range for the property
    ValueOutOfRange(String, String),
    /// The device is in an invalid state for the operation
    InvalidState(String),
    /// Communication error with the device
    CommunicationError(String),
    /// Protocol-specific error
    ProtocolError(String),
    /// Timeout error
    Timeout(String),
    /// Permission error
    PermissionDenied(String),
    /// Configuration error
    ConfigurationError(String),
    /// Other error
    Other(String),
    /// Core error
    CoreError(CoreError),
    /// The protocol is not supported
    UnsupportedProtocol(String),
    /// The property is not known to the device or protocol
    UnsupportedProperty(String),
    /// The command is not known to the device or protocol
    UnsupportedCommand(String),
    /// The value is not acceptable
    InvalidValue(String),
    /// A required command parameter is missing
    MissingParameter(String),
    /// Serialization failed
    Serialization(String),
}

/// Result type for device operations
pub type Result<T> = std::result::Result<T, DeviceError>;

/// The human-readable message of a device error.
pub open spec fn device_error_text(e: DeviceError) -> Seq<char> {
    match e {
        DeviceError::NotConnected => "Device not connected"@,
        DeviceError::PropertyNotSupported(p) => "Property not supported: "@ + p@,
        DeviceError::InvalidValueType(p, x, g) => "Invalid value type for property "@ + p@
            + ": expected "@ + x@ + ", got "@ + g@,
        DeviceError::ValueOutOfRange(p, m) => "Value out of range for property "@ + p@ + ": "@
            + m@,
        DeviceError::InvalidState(m) => "Invalid device state: "@ + m@,
        DeviceError::CommunicationError(m) => "Communication error: "@ + m@,
        DeviceError::ProtocolError(m) => "Protocol error: "@ + m@,
        DeviceError::Timeout(m) => "Timeout error: "@ + m@,
        DeviceError::PermissionDenied(m) => "Permission error: "@ + m@,
        DeviceError::ConfigurationError(m) => "Configuration error: "@ + m@,
        DeviceError::Other(m) => "Other error: "@ + m@,
        DeviceError::CoreError(c) => "Core error: "@ + error_prefix(c) + error_detail(c),
        DeviceError::UnsupportedProtocol(m) => "Unsupported protocol: "@ + m@,
        DeviceError::UnsupportedProperty(m) => "Unsupported property: "@ + m@,
        DeviceError::UnsupportedCommand(m) => "Unsupported command: "@ + m@,
        DeviceError::InvalidValue(m) => "Invalid value: "@ + m@,
        DeviceError::MissingParameter(m) => "Missing parameter: "@ + m@,
        DeviceError::Serialization(m) => "Serialization error: "@ + m@,
    }
}

impl DeviceError {
    /// The human-readable message of this error.
    pub fn to_string(&self) -> (r: String)
        ensures
            r@ == device_error_text(*self),
    {
        match self {
            DeviceError::NotConnected => owned("Device not connected"),
            DeviceError::PropertyNotSupported(p) => join("Property not supported: ", p.as_str()),
            DeviceError::InvalidValueType(p, x, g) => {
                let a = join("Invalid value type for property ", p.as_str());
                let b = join(a.as_str(), ": expected ");
                let c = join(b.as_str(), x.as_str());
                let d = join(c.as_str(), ", got ");
                join(d.as_str(), g.as_str())
            },
            DeviceError::ValueOutOfRange(p, m) => {
                let a = join("Value out of range for property ", p.as_str());
                let b = join(a.as_str(), ": ");
                join(b.as_str(), m.as_str())
            },
            DeviceError::InvalidState(m) => join("Invalid device state: ", m.as_str()),
            DeviceError::CommunicationError(m) => join("Communication error: ", m.as_str()),
            DeviceError::ProtocolError(m) => join("Protocol error: ", m.as_str()),
            DeviceError::Timeout(m) => join("Timeout error: ", m.as_str()),
            DeviceError::PermissionDenied(m) => join("Permission error: ", m.as_str()),
            DeviceError::ConfigurationError(m) => join("Configuration error: ", m.as_str()),
            DeviceError::Other(m) => join("Other error: ", m.as_str()),
            DeviceError::CoreError(c) => join("Core error: ", c.to_string().as_str()),
            DeviceError::UnsupportedProtocol(m) => join("Unsupported protocol: ", m.as_str()),
            DeviceError::UnsupportedProperty(m) => join("Unsupported property: ", m.as_str()),
            DeviceError::UnsupportedCommand(m) => join("Unsupported command: ", m.as_str()),
            DeviceError::InvalidValue(m) => join("Invalid value: ", m.as_str()),
            DeviceError::MissingParameter(m) => join("Missing parameter: ", m.as_str()),
            DeviceError::Serialization(m) => join("Serialization error: ", m.as_str()),
        }
    }
}


impl From<CoreError> for DeviceError {
    fn from(e: CoreError) -> (r: Self) {
        DeviceError::CoreError(e)
    }
}

impl vstd::std_specs::convert::FromSpecImpl<CoreError> for DeviceError {
    open spec fn obeys_from_spec() -> bool {
        true
    }

    open spec fn from_spec(v: CoreError) -> DeviceError {
        DeviceError::CoreError(v)
    }
}

/// Device capability
#[derive(Debug)]
pub enum DeviceCapability {
    /// The device can be read
    Read,
    /// The device can be written to
    Write,
    /// The device supports streaming data
    Stream,
    /// The device supports commands
    Command,
    /// The device supports configuration
    Configure,
    /// The device supports discovery
    Discover,
    /// The device supports events
    Events,
    /// The device supports direct memory access
    DirectMemoryAccess,
    /// The device supports metadata
    Metadata,
    /// Custom capability
    Custom(String),
}

/// What identifies a capability: its kind and, for a custom one, its name.
pub open spec fn capability_key(c: DeviceCapability) -> (int, Seq<char>) {
    match c {
        DeviceCapability::Read => (0, Seq::empty()),
        DeviceCapability::Write => (1, Seq::empty()),
        DeviceCapability::Stream => (2, Seq::empty()),
        DeviceCapability::Command => (3, Seq::empty()),
        DeviceCapability::Configure => (4, Seq::empty()),
        DeviceCapability::Discover => (5, Seq::empty()),
        DeviceCapability::Events => (6, Seq::empty()),
        DeviceCapability::DirectMemoryAccess => (7, Seq::empty()),
        DeviceCapability::Metadata => (8, Seq::empty()),
        DeviceCapability::Custom(s) => (9, s@),
    }
}

impl DeviceCapability {
    /// Whether two capabilities are the same.
    pub fn same(&self, other: &DeviceCapability) -> (r: bool)
        ensures
            r == (capability_key(*self) == capability_key(*other)),
    {
        match (self, other) {
            (DeviceCapability::Read, DeviceCapability::Read) => true,
            (DeviceCapability::Write, DeviceCapability::Write) => true,
            (DeviceCapability::Stream, DeviceCapability::Stream) => true,
            (DeviceCapability::Command, DeviceCapability::Command) => true,
            (DeviceCapability::Configure, DeviceCapability::Configure) => true,
            (DeviceCapability::Discover, DeviceCapability::Discover) => true,
            (DeviceCapability::Events, DeviceCapability::Events) => true,
            (DeviceCapability::DirectMemoryAccess, DeviceCapability::DirectMemoryAccess) => true,
            (DeviceCapability::Metadata, DeviceCapability::Metadata) => true,
            (DeviceCapability::Custom(a), DeviceCapability::Custom(b)) => *a == *b,
            _ => false,
        }
    }

    /// Copy of the capability.
    pub fn duplicate(&self) -> (r: DeviceCapability)
        ensures
            capability_key(r) == capability_key(*self),
    {
        match self {
            DeviceCapability::Read => DeviceCapability::Read,
            DeviceCapability::Write => DeviceCapability::Write,
            DeviceCapability::Stream => DeviceCapability::Stream,
            DeviceCapability::Command => DeviceCapability::Command,
            DeviceCapability::Configure => DeviceCapability::Configure,
            DeviceCapability::Discover => DeviceCapability::Discover,
            DeviceCapability::Events => DeviceCapability::Events,
            DeviceCapability::DirectMemoryAccess => DeviceCapability::DirectMemoryAccess,
            DeviceCapability::Metadata => DeviceCapability::Metadata,
            DeviceCapability::Custom(s) => DeviceCapability::Custom(s.clone()),
        }
    }
}

/// Device state
#[derive(Debug, Clone, Copy, PartialEq, Eq, Hash, Structural)]
pub enum DeviceState {
    /// The device is disconnected
    Disconnected,
    /// The device is connecting
    Connecting,
    /// The device is connected
    Connected,
    /// The device is initializing
    Initializing,
    /// The device is ready for use
    Ready,
    /// The device is in an error state
    Error,
    /// The device is busy
    Busy,
    /// The device is shutting down
    ShuttingDown,
    /// The device is powered but idle by choice (thermostat turned off)
    Standby,
    /// The device is actively working (thermostat heating, cooling or fanning)
    Active,
    /// The device is on but has nothing to do
    Idle,
    /// The device is disconnecting
    Disconnecting,
}

/// Device event
#[derive(Debug)]
pub enum DeviceEvent {
    /// The device state has changed
    StateChanged {
        /// The device ID
        device_id: Id,
        /// The old state
        old_state: DeviceState,
        /// The new state
        new_state: DeviceState,
    },
    /// A property value has changed
    PropertyChanged {
        /// The device ID
        device_id: Id,
        /// The property name
        property: String,
        /// The old value
        old_value: Option<Value>,
        /// The new value
        new_value: Value,
    },
    /// A command has been received
    CommandReceived {
        /// The device ID
        device_id: Id,
        /// The command name
        command: String,
        /// The command parameters
        parameters: StrMap<Value>,
    },
    /// An error has occurred
    Error {
        /// The device ID
        device_id: Id,
        /// The error message
        message: String,
    },
}

/// The device an event comes from.
pub open spec fn event_device(e: DeviceEvent) -> Seq<char> {
    match e {
        DeviceEvent::StateChanged { device_id, .. } => device_id@,
        DeviceEvent::PropertyChanged { device_id, .. } => device_id@,
        DeviceEvent::CommandReceived { device_id, .. } => device_id@,
        DeviceEvent::Error { device_id, .. } => device_id@,
    }
}

/// The name of an event's kind.
pub open spec fn event_type_name(e: DeviceEvent) -> Seq<char> {
    match e {
        DeviceEvent::StateChanged { .. } => "state_changed"@,
        DeviceEvent::PropertyChanged { .. } => "property_changed"@,
        DeviceEvent::CommandReceived { .. } => "command_received"@,
        DeviceEvent::Error { .. } => "error"@,
    }
}

impl DeviceEvent {
    /// The device the event comes from
    pub fn device_id(&self) -> (r: &Id)
        ensures
            r@ == event_device(*self),
    {
        match self {
            DeviceEvent::StateChanged { device_id, .. } => device_id,
            DeviceEvent::PropertyChanged { device_id, .. } => device_id,
            DeviceEvent::CommandReceived { device_id, .. } => device_id,
            DeviceEvent::Error { device_id, .. } => device_id,
        }
    }

    /// The name of the event's kind
    pub fn event_type(&self) -> (r: &'static str)
        ensures
            r@ == event_type_name(*self),
    {
        match self {
            DeviceEvent::StateChanged { .. } => "state_changed",
            DeviceEvent::PropertyChanged { .. } => "property_changed",
            DeviceEvent::CommandReceived { .. } => "command_received",
            DeviceEvent::Error { .. } => "error",
        }
    }

    /// The state the device entered, for a state change
    pub fn state(&self) -> (r: Option<DeviceState>)
        ensures
            r == (match *self {
                DeviceEvent::StateChanged { new_state, .. } => Some(new_state),
                _ => None::<DeviceState>,
            }),
    {
        match self {
            DeviceEvent::StateChanged { new_state, .. } => Some(*new_state),
            _ => None,
        }
    }

    /// The property and its new value, for a property change
    pub fn property(&self) -> (r: Option<(&String, &Value)>)
        ensures
            match *self {
                DeviceEvent::PropertyChanged { property, new_value, .. } => r matches Some(p)
                    && *p.0 == property && *p.1 == new_value,
                _ => r is None,
            },
    {
        match self {
            DeviceEvent::PropertyChanged { property, new_value, .. } => Some((property, new_value)),
            _ => None,
        }
    }

    /// Copy of the event.
    pub fn duplicate(&self) -> (r: DeviceEvent)
        ensures
            event_device(r) == event_device(*self),
            event_type_name(r) == event_type_name(*self),
            r.state_of() == self.state_of(),
            r.property_of() == self.property_of(),
    {
        match self {
            DeviceEvent::StateChanged { device_id, old_state, new_state } => DeviceEvent::StateChanged {
                device_id: device_id.clone(),
                old_state: *old_state,
                new_state: *new_state,
            },
            DeviceEvent::PropertyChanged { device_id, property, old_value, new_value } => {
                let ov = match old_value {
                    Some(v) => Some(v.duplicate()),
                    None => None,
                };
                DeviceEvent::PropertyChanged {
                    device_id: device_id.clone(),
                    property: property.clone(),
                    old_value: ov,
                    new_value: new_value.duplicate(),
                }
            },
            DeviceEvent::CommandReceived { device_id, command, parameters } => {
                let mut params: StrMap<Value> = StrMap::new();
                let n = parameters.len();
                let mut i: usize = 0;
                while i < n
                    invariant
                        n == parameters.entry_seq().len(),
                        i <= n,
                    decreases n - i,
                {
                    let (k, v) = parameters.entry_at(i);
                    params.insert(k.clone(), v.duplicate());
                    i = i + 1;
                }
                DeviceEvent::CommandReceived {
                    device_id: device_id.clone(),
                    command: command.clone(),
                    parameters: params,
                }
            },
            DeviceEvent::Error { device_id, message } => DeviceEvent::Error {
                device_id: device_id.clone(),
                message: message.clone(),
            },
        }
    }

    /// The new state, for a state change.
    pub open spec fn state_of(self) -> Option<DeviceState> {
        match self {
            DeviceEvent::StateChanged { new_state, .. } => Some(new_state),
            _ => None,
        }
    }

    /// The property name and the model of its new value, for a property change.
    pub open spec fn property_of(self) -> Option<(Seq<char>, ValueModel)> {
        match self {
            DeviceEvent::PropertyChanged { property, new_value, .. } => Some(
                (property@, new_value@),
            ),
            _ => None,
        }
    }
}

/// Device information
#[derive(Debug)]
pub struct DeviceInfo {
    /// The device ID
    pub id: Id,
    /// The device name
    pub name: String,
    /// The device type
    pub device_type: String,
    /// The device manufacturer
    pub manufacturer: Option<String>,
    /// The device model
    pub model: Option<String>,
    /// The device serial number
    pub serial_number: Option<String>,
    /// The device firmware version
    pub firmware_version: Option<String>,
    /// The device protocol
    pub protocol: String,
    /// The device capabilities
    pub capabilities: Vec<DeviceCapability>,
    /// Additional device metadata
    pub metadata: StrMap<Value>,
}

/// The list of capabilities contains one equal to `c`.
pub open spec fn has_capability_spec(caps: Seq<DeviceCapability>, c: DeviceCapability) -> bool {
    exists|i: int| 0 <= i < caps.len() && capability_key(#[trigger] caps[i]) == capability_key(c)
}

/// Copy an optional string.
pub fn copy_opt(s: &Option<String>) -> (r: Option<String>)
    ensures
        r == *s,
{
    match s {
        Some(x) => Some(x.clone()),
        None => None,
    }
}

/// Copy a string-keyed map of values.
pub fn copy_values(m: &StrMap<Value>) -> (r: StrMap<Value>)
    ensures
        r@.dom() == m@.dom(),
        forall|k: Seq<char>| #[trigger] r@.contains_key(k) ==> r@[k]@ == m@[k]@,
{
    let mut out: StrMap<Value> = StrMap::new();
    let n = m.len();
    let mut i: usize = 0;
    while i < n
        invariant
            n == m.entry_seq().len(),
            m@ == crate::str_map::entries_map(m.entry_seq()),
            crate::str_map::keys_unique(m.entry_seq()),
            i <= n,
            out@.dom() =~= Set::new(
                |k: Seq<char>| exists|j: int| 0 <= j < i && m.entry_seq()[j].0@ == k,
            ),
            forall|k: Seq<char>| #[trigger] out@.contains_key(k) ==> out@[k]@ == m@[k]@,
        decreases n - i,
    {
        let (k, v) = m.entry_at(i);
        let ghost before = out@;
        out.insert(k.clone(), v.duplicate());
        proof {
            assert forall|x: Seq<char>| #[trigger] out@.contains_key(x) implies out@[x]@
                == m@[x]@ by {
                if x != k@ {
                    assert(before.contains_key(x));
                }
            }
            assert(out@.dom() =~= Set::new(
                |x: Seq<char>| exists|j: int| 0 <= j < i + 1 && m.entry_seq()[j].0@ == x,
            )) by {
                assert forall|x: Seq<char>| out@.dom().contains(x) implies exists|j: int|
                    0 <= j < i + 1 && m.entry_seq()[j].0@ == x by {
                    if x != k@ {
                        assert(before.dom().contains(x));
                    }
                }
            }
        }
        i = i + 1;
    }
    proof {
        assert(out@.dom() =~= m@.dom()) by {
            assert forall|x: Seq<char>| m@.dom().contains(x) implies out@.dom().contains(x) by {
                let j = crate::str_map::key_index(m.entry_seq(), x);
                assert(m.entry_seq()[j].0@ == x);
            }
        }
    }
    out
}

impl DeviceInfo {
    /// Get the device ID
    pub fn id(&self) -> (r: &Id)
        ensures
            r@ == self.id@,
    {
        &self.id
    }

    /// Get the device name
    pub fn name(&self) -> (r: &str)
        ensures
            r@ == self.name@,
    {
        self.name.as_str()
    }

    /// Get the device type
    pub fn device_type(&self) -> (r: &str)
        ensures
            r@ == self.device_type@,
    {
        self.device_type.as_str()
    }

    /// Get the device protocol
    pub fn protocol(&self) -> (r: &str)
        ensures
            r@ == self.protocol@,
    {
        self.protocol.as_str()
    }

    /// Check if the device has a specific capability
    pub fn has_capability(&self, capability: &DeviceCapability) -> (r: bool)
        ensures
            r == has_capability_spec(self.capabilities@, *capability),
    {
        let n = self.capabilities.len();
        let mut i: usize = 0;
        while i < n
            invariant
                n == self.capabilities@.len(),
                i <= n,
                forall|j: int|
                    0 <= j < i ==> capability_key(#[trigger] self.capabilities@[j])
                        != capability_key(*capability),
            decreases n - i,
        {
            if self.capabilities[i].same(capability) {
                return true;
            }
            i = i + 1;
        }
        false
    }

    /// Copy of the device information.
    pub fn duplicate(&self) -> (r: DeviceInfo)
        ensures
            r.id@ == self.id@,
            r.name@ == self.name@,
            r.device_type@ == self.device_type@,
            r.protocol@ == self.protocol@,
            r.manufacturer == self.manufacturer,
            r.model == self.model,
            r.serial_number == self.serial_number,
            r.firmware_version == self.firmware_version,
            r.capabilities@.len() == self.capabilities@.len(),
            forall|i: int|
                0 <= i < r.capabilities@.len() ==> capability_key(#[trigger] r.capabilities@[i])
                    == capability_key(self.capabilities@[i]),
            r.metadata@.dom() == self.metadata@.dom(),
    {
        let mut caps: Vec<DeviceCapability> = Vec::new();
        let n = self.capabilities.len();
        let mut i: usize = 0;
        while i < n
            invariant
                n == self.capabilities@.len(),
                i <= n,
                caps@.len() == i,
                forall|j: int|
                    0 <= j < i ==> capability_key(#[trigger] caps@[j]) == capability_key(
                        self.capabilities@[j],
                    ),
            decreases n - i,
        {
            caps.push(self.capabilities[i].duplicate());
            i = i + 1;
        }
        DeviceInfo {
            id: self.id.clone(),
            name: self.name.clone(),
            device_type: self.device_type.clone(),
            manufacturer: copy_opt(&self.manufacturer),
            model: copy_opt(&self.model),
            serial_number: copy_opt(&self.serial_number),
            firmware_version: copy_opt(&self.firmware_version),
            protocol: self.protocol.clone(),
            capabilities: caps,
            metadata: copy_values(&self.metadata),
        }
    }
}

/// Property data type
#[derive(Debug)]
pub enum PropertyDataType {
    /// Boolean
    Boolean,
    /// Integer
    Integer,
    /// Float
    Float,
    /// String
    String,
    /// Binary
    Binary,
    /// Enum
    Enum(Vec<String>),
    /// Array
    Array(Box<PropertyDataType>),
    /// Object
    Object,
    /// Custom
    Custom(String),
}

/// Property access mode
#[derive(Debug, Clone, Copy, PartialEq, Eq, Structural)]
pub enum PropertyAccess {
    /// Read-only property
    ReadOnly,
    /// Write-only property
    WriteOnly,
    /// Read-write property
    ReadWrite,
}

/// Property metadata
#[derive(Debug)]
pub struct PropertyMetadata {
    /// The property name
    pub name: String,
    /// The property description
    pub description: Option<String>,
    /// The property data type
    pub data_type: PropertyDataType,
    /// The property access mode
    pub access: PropertyAccess,
    /// The property unit
    pub unit: Option<String>,
    /// The property minimum value
    pub min_value: Option<Value>,
    /// The property maximum value
    pub max_value: Option<Value>,
    /// The property precision (IEEE-754 binary64 bits)
    pub precision: Option<u64>,
    /// The property scale factor (IEEE-754 binary64 bits)
    pub scale_factor: Option<u64>,
    /// The property update rate in milliseconds
    pub update_rate_ms: Option<u64>,
    /// Additional property metadata
    pub metadata: StrMap<Value>,
}

/// Whether a value has the shape that a data type asks for.
pub open spec fn type_matches(t: PropertyDataType, v: ValueModel) -> bool {
    match (t, v) {
        (PropertyDataType::Boolean, ValueModel::Bool(_)) => true,
        (PropertyDataType::Integer, ValueModel::Integer(_)) => true,
        (PropertyDataType::Float, ValueModel::Float(_)) => true,
        (PropertyDataType::String, ValueModel::String(_)) => true,
        (PropertyDataType::Binary, ValueModel::Binary(_)) => true,
        (PropertyDataType::Array(_), ValueModel::Array(_)) => true,
        (PropertyDataType::Object, ValueModel::Object(_)) => true,
        (PropertyDataType::Enum(variants), ValueModel::String(s)) => exists|i: int|
            0 <= i < variants@.len() && #[trigger] variants@[i]@ == s,
        _ => false,
    }
}

/// The ordering key of a non-NaN binary64 number: comparing keys compares the
/// numbers (the two zeros share key 0).
pub open spec fn float_key(b: u64) -> int {
    if b >= 0x8000_0000_0000_0000u64 {
        -((b - 0x8000_0000_0000_0000u64) as int)
    } else {
        b as int
    }
}

/// IEEE-754 `<` on binary64 numbers given by their bits.
pub open spec fn float_lt(a: u64, b: u64) -> bool {
    !crate::mechaflow_core::types::float_is_nan(a) && !crate::mechaflow_core::types::float_is_nan(b)
        && float_key(a) < float_key(b)
}

/// Exec IEEE `<` on bit patterns.
pub fn float_bits_lt(a: u64, b: u64) -> (r: bool)
    ensures
        r == float_lt(a, b),
{
    let a_nan = (a & 0x7ff0_0000_0000_0000u64) == 0x7ff0_0000_0000_0000u64 && (a
        & 0x000f_ffff_ffff_ffffu64) != 0;
    let b_nan = (b & 0x7ff0_0000_0000_0000u64) == 0x7ff0_0000_0000_0000u64 && (b
        & 0x000f_ffff_ffff_ffffu64) != 0;
    if a_nan || b_nan {
        return false;
    }
    let a_neg = a >= 0x8000_0000_0000_0000u64;
    let b_neg = b >= 0x8000_0000_0000_0000u64;
    let a_mag = if a_neg { a - 0x8000_0000_0000_0000u64 } else { a };
    let b_mag = if b_neg { b - 0x8000_0000_0000_0000u64 } else { b };
    if a_neg && b_neg {
        a_mag > b_mag
    } else if a_neg {
        a_mag != 0 || b_mag != 0
    } else if b_neg {
        false
    } else {
        a_mag < b_mag
    }
}

/// Why a value falls outside the bounds of its property, if it does: the
/// minimum is checked before the maximum; integers are compared with integer
/// bounds and floats with float bounds.
pub open spec fn bound_violation(
    v: ValueModel,
    min: Option<ValueModel>,
    max: Option<ValueModel>,
) -> Option<bool> {
    match (v, min, max) {
        (ValueModel::Integer(i), Some(ValueModel::Integer(lo)), _) if i < lo => Some(true),
        (ValueModel::Integer(i), _, Some(ValueModel::Integer(hi))) if i > hi => Some(false),
        (ValueModel::Float(f), Some(ValueModel::Float(lo)), _) if float_lt(f, lo) => Some(true),
        (ValueModel::Float(f), _, Some(ValueModel::Float(hi))) if float_lt(hi, f) => Some(false),
        _ => None,
    }
}

/// The model of an optional value.
pub open spec fn opt_model(v: Option<Value>) -> Option<ValueModel> {
    match v {
        Some(x) => Some(x@),
        None => None,
    }
}

/// The decimal text of an integer, as Rust's `Display` for `i64` writes
/// it: a minus sign before the digits of a negative number.
pub open spec fn decimal_text(i: i64) -> Seq<char> {
    if i < 0 {
        "-"@ + decimal_of((-(i as int)) as nat)
    } else {
        decimal_of(i as nat)
    }
}

/// Formats an integer in decimal.
pub fn i64_to_decimal(i: i64) -> (r: String)
    ensures
        r@ == decimal_text(i),
{
    if i < 0 {
        let magnitude: u64 = (0i128 - i as i128) as u64;
        join("-", u64_to_decimal(magnitude).as_str())
    } else {
        u64_to_decimal(i as u64)
    }
}

/// The name of a value's kind, as its `Debug` rendering starts.
pub open spec fn value_kind_label(v: ValueModel) -> Seq<char> {
    match v {
        ValueModel::Null => "Null"@,
        ValueModel::Bool(_) => "Bool"@,
        ValueModel::Integer(_) => "Integer"@,
        ValueModel::Float(_) => "Float"@,
        ValueModel::String(_) => "String"@,
        ValueModel::Array(_) => "Array"@,
        ValueModel::Object(_) => "Object"@,
        ValueModel::Binary(_) => "Binary"@,
        ValueModel::Timestamp(_) => "Timestamp"@,
    }
}

/// The name of a data type's kind.
pub open spec fn data_type_label(t: PropertyDataType) -> Seq<char> {
    match t {
        PropertyDataType::Boolean => "Boolean"@,
        PropertyDataType::Integer => "Integer"@,
        PropertyDataType::Float => "Float"@,
        PropertyDataType::String => "String"@,
        PropertyDataType::Binary => "Binary"@,
        PropertyDataType::Enum(_) => "Enum"@,
        PropertyDataType::Array(_) => "Array"@,
        PropertyDataType::Object => "Object"@,
        PropertyDataType::Custom(_) => "Custom"@,
    }
}

/// The name of a device state.
pub open spec fn state_label(s: DeviceState) -> Seq<char> {
    match s {
        DeviceState::Disconnected => "Disconnected"@,
        DeviceState::Connecting => "Connecting"@,
        DeviceState::Connected => "Connected"@,
        DeviceState::Initializing => "Initializing"@,
        DeviceState::Ready => "Ready"@,
        DeviceState::Error => "Error"@,
        DeviceState::Busy => "Busy"@,
        DeviceState::ShuttingDown => "ShuttingDown"@,
        DeviceState::Standby => "Standby"@,
        DeviceState::Active => "Active"@,
        DeviceState::Idle => "Idle"@,
        DeviceState::Disconnecting => "Disconnecting"@,
    }
}

/// The name of a value's kind, used in messages.
pub fn value_kind_name(v: &Value) -> (r: &'static str)
    ensures
        r@ == value_kind_label(v@),
{
    proof {
        crate::mechaflow_core::types::lemma_model_kinds(*v);
    }
    match v {
        Value::Null => "Null",
        Value::Bool(_) => "Bool",
        Value::Integer(_) => "Integer",
        Value::Float(_) => "Float",
        Value::String(_) => "String",
        Value::Array(_) => "Array",
        Value::Object(_) => "Object",
        Value::Binary(_) => "Binary",
        Value::Timestamp(_) => "Timestamp",
    }
}

/// The name of a data type's kind, used in messages.
pub fn data_type_name(t: &PropertyDataType) -> (r: &'static str)
    ensures
        r@ == data_type_label(*t),
{
    match t {
        PropertyDataType::Boolean => "Boolean",
        PropertyDataType::Integer => "Integer",
        PropertyDataType::Float => "Float",
        PropertyDataType::String => "String",
        PropertyDataType::Binary => "Binary",
        PropertyDataType::Enum(_) => "Enum",
        PropertyDataType::Array(_) => "Array",
        PropertyDataType::Object => "Object",
        PropertyDataType::Custom(_) => "Custom",
    }
}

/// A text placed between an opening and a closing text.
fn surround(open: &str, middle: &str, close: &str) -> (r: String)
    ensures
        r@ == open@ + middle@ + close@,
{
    let a = join(open, middle);
    join(a.as_str(), close)
}

/// The text `Debug` writes for a list of bytes: "[", then each byte in
/// decimal, separated by ", ", then "]".
pub open spec fn bytes_debug_text(b: Seq<u8>) -> Seq<char> {
    "["@ + join_texts(b.map_values(|x: u8| decimal_of(x as nat)), ", "@) + "]"@
}

/// Renders a list of bytes as `Debug` writes it.
pub fn bytes_debug(b: &Vec<u8>) -> (r: String)
    ensures
        r@ == bytes_debug_text(b@),
{
    let mut parts: Vec<String> = Vec::new();
    let mut i: usize = 0;
    while i < b.len()
        invariant
            i <= b@.len(),
            parts@.len() == i,
            forall|j: int| 0 <= j < i ==> (#[trigger] parts@[j])@ == decimal_of(b@[j] as nat),
        decreases b@.len() - i,
    {
        parts.push(u64_to_decimal(b[i] as u64));
        i = i + 1;
    }
    let joined = join_all(&parts, ", ");
    proof {
        assert(parts@.map_values(|p: String| p@) =~= b@.map_values(|x: u8| decimal_of(x as nat)));
    }
    surround("[", joined.as_str(), "]")
}

/// The text `Debug` writes for a boolean.
pub open spec fn bool_text(b: bool) -> Seq<char> {
    if b {
        "true"@
    } else {
        "false"@
    }
}

/// The texts of the items of an array, each as `value_debug_text` writes it.
pub open spec fn item_debug_texts(a: Seq<ValueModel>) -> Seq<Seq<char>>
    decreases a,
{
    Seq::new(
        a.len(),
        |i: int|
            if 0 <= i < a.len() {
                value_debug_text(a[i])
            } else {
                Seq::empty()
            },
    )
}

/// How a value is written in messages: as its `Debug` text (the kind's
/// name, then the content in brackets), except that a float, an object or
/// a timestamp is written by its kind's name alone.
pub open spec fn value_debug_text(v: ValueModel) -> Seq<char>
    decreases v,
{
    match v {
        ValueModel::Null => "Null"@,
        ValueModel::Bool(b) => "Bool("@ + bool_text(b) + ")"@,
        ValueModel::Integer(i) => "Integer("@ + decimal_text(i) + ")"@,
        ValueModel::String(s) => "String("@ + str_debug_text(s) + ")"@,
        ValueModel::Binary(b) => "Binary("@ + bytes_debug_text(b) + ")"@,
        ValueModel::Array(a) => "Array(["@ + join_texts(item_debug_texts(a), ", "@) + "])"@,
        _ => value_kind_label(v),
    }
}

/// Renders a value for a message, as `value_debug_text` describes.
pub fn value_debug(v: &Value) -> (r: String)
    ensures
        r@ == value_debug_text(v@),
    decreases v,
{
    proof {
        crate::mechaflow_core::types::lemma_model_kinds(*v);
    }
    match v {
        Value::Null => owned("Null"),
        Value::Bool(b) => {
            let s = if *b {
                "true"
            } else {
                "false"
            };
            surround("Bool(", s, ")")
        },
        Value::Integer(i) => surround("Integer(", i64_to_decimal(*i).as_str(), ")"),
        Value::String(s) => surround("String(", str_debug(s.as_str()).as_str(), ")"),
        Value::Binary(b) => surround("Binary(", bytes_debug(b).as_str(), ")"),
        Value::Array(a) => {
            proof {
                crate::mechaflow_core::types::lemma_model_array(*a);
            }
            let ghost s = v@->Array_0;
            let mut parts: Vec<String> = Vec::new();
            let mut i: usize = 0;
            while i < a.len()
                invariant
                    *v == Value::Array(*a),
                    s == v@->Array_0,
                    s.len() == a@.len(),
                    forall|j: int| 0 <= j < a@.len() ==> #[trigger] s[j] == a@[j]@,
                    i <= a@.len(),
                    parts@.len() == i,
                    forall|j: int| 0 <= j < i ==> (#[trigger] parts@[j])@ == value_debug_text(s[j]),
                decreases a@.len() - i,
            {
                proof {
                    assert(decreases_to!(*v => (*v)->Array_0));
                    assert((*v)->Array_0 == *a);
                    assert(decreases_to!(*a => a@));
                    assert(decreases_to!(a@ => a@[i as int]));
                }
                let item = value_debug(&a[i]);
                parts.push(item);
                i = i + 1;
            }
            let joined = join_all(&parts, ", ");
            proof {
                assert(parts@.map_values(|p: String| p@) =~= item_debug_texts(s));
            }
            surround("Array([", joined.as_str(), "])")
        },
        _ => owned(value_kind_name(v)),
    }
}

/// The text `Debug` writes for a data type.
pub open spec fn data_type_debug_text(t: PropertyDataType) -> Seq<char>
    decreases t,
{
    match t {
        PropertyDataType::Enum(vs) => "Enum("@ + list_debug_text(vs@) + ")"@,
        PropertyDataType::Array(inner) => "Array("@ + data_type_debug_text(*inner) + ")"@,
        PropertyDataType::Custom(s) => "Custom("@ + str_debug_text(s@) + ")"@,
        _ => data_type_label(t),
    }
}

/// Renders a data type as `Debug` writes it.
pub fn data_type_debug(t: &PropertyDataType) -> (r: String)
    ensures
        r@ == data_type_debug_text(*t),
    decreases t,
{
    match t {
        PropertyDataType::Enum(vs) => surround("Enum(", list_debug(vs).as_str(), ")"),
        PropertyDataType::Array(inner) => surround("Array(", data_type_debug(inner).as_str(), ")"),
        PropertyDataType::Custom(s) => surround("Custom(", str_debug(s.as_str()).as_str(), ")"),
        _ => owned(data_type_name(t)),
    }
}

/// The error reported for a value whose type the property does not take:
/// the property's name, what it expects, and what was given.
pub open spec fn is_type_error(metadata: PropertyMetadata, v: ValueModel, e: DeviceError) -> bool {
    e matches DeviceError::InvalidValueType(n, x, g) && n@ == metadata.name@ && match (
        metadata.data_type,
        v,
    ) {
        (PropertyDataType::Enum(variants), ValueModel::String(t)) => x@ == "enum with variants "@
            + list_debug_text(variants@) && g@ == t,
        _ => x@ == data_type_debug_text(metadata.data_type) && g@ == value_debug_text(v),
    }
}

/// The outcome of checking a value against a property: the type error for
/// a value of the wrong type, else the range error for a value beyond a
/// bound of its own kind, else success.
pub open spec fn value_check(metadata: PropertyMetadata, v: ValueModel, r: Result<()>) -> bool {
    if !type_matches(metadata.data_type, v) {
        r matches Err(e) && is_type_error(metadata, v, e)
    } else {
        match bound_violation(v, opt_model(metadata.min_value), opt_model(metadata.max_value)) {
            None => r is Ok,
            Some(_) => r matches Err(DeviceError::ValueOutOfRange(n, m)) && n@ == metadata.name@
                && m@ == bound_message(v, opt_model(metadata.min_value), opt_model(metadata.max_value)),
        }
    }
}

/// Validation accepts a value exactly when the property takes its type and
/// the value lies within each bound of its own kind: an integer neither
/// below an integer minimum nor above an integer maximum, a float neither
/// below a float minimum nor above a float maximum (a bound of another kind
/// does not apply). A value of the right type beyond a bound is refused
/// with `ValueOutOfRange` under the property's name, and a value of the
/// wrong type with `InvalidValueType` under it.
pub proof fn lemma_validation_bounds(metadata: PropertyMetadata, v: ValueModel, r: Result<()>)
    requires
        value_check(metadata, v, r),
    ensures
        r is Ok <==> type_matches(metadata.data_type, v) && (v matches ValueModel::Integer(i) ==> (
        opt_model(metadata.min_value) matches Some(ValueModel::Integer(lo)) ==> lo <= i) && (
        opt_model(metadata.max_value) matches Some(ValueModel::Integer(hi)) ==> i <= hi)) && (
        v matches ValueModel::Float(f) ==> (opt_model(metadata.min_value) matches Some(
            ValueModel::Float(lo),
        ) ==> !float_lt(f, lo)) && (opt_model(metadata.max_value) matches Some(
            ValueModel::Float(hi),
        ) ==> !float_lt(hi, f))),
        type_matches(metadata.data_type, v) && r is Err ==> (r matches Err(
            DeviceError::ValueOutOfRange(n, _),
        ) && n@ == metadata.name@),
        !type_matches(metadata.data_type, v) ==> (r matches Err(
            DeviceError::InvalidValueType(n, _, _),
        ) && n@ == metadata.name@),
{
}

/// Check if value type matches property data type
#[verifier::loop_isolation(false)]
pub fn validate_value_type(metadata: &PropertyMetadata, value: &Value) -> (r: Result<()>)
    ensures
        r is Ok <==> type_matches(metadata.data_type, value@),
        r matches Err(e) ==> is_type_error(*metadata, value@, e),
{
    proof {
        crate::mechaflow_core::types::lemma_model_kinds(*value);
    }
    match (&metadata.data_type, value) {
        (PropertyDataType::Boolean, Value::Bool(_)) => Ok(()),
        (PropertyDataType::Integer, Value::Integer(_)) => Ok(()),
        (PropertyDataType::Float, Value::Float(_)) => Ok(()),
        (PropertyDataType::String, Value::String(_)) => Ok(()),
        (PropertyDataType::Binary, Value::Binary(_)) => Ok(()),
        (PropertyDataType::Array(_), Value::Array(_)) => Ok(()),
        (PropertyDataType::Object, Value::Object(_)) => Ok(()),
        (PropertyDataType::Enum(variants), Value::String(s)) => {
            let n = variants.len();
            let mut i: usize = 0;
            while i < n
                invariant
                    n == variants@.len(),
                    i <= n,
                    forall|j: int| 0 <= j < i ==> #[trigger] variants@[j]@ != s@,
                decreases n - i,
            {
                if variants[i] == *s {
                    assert(variants@[i as int]@ == s@);
                    return Ok(());
                }
                i = i + 1;
            }
            Err(
                DeviceError::InvalidValueType(
                    metadata.name.clone(),
                    join("enum with variants ", list_debug(variants).as_str()),
                    s.clone(),
                ),
            )
        },
        _ => Err(
            DeviceError::InvalidValueType(
                metadata.name.clone(),
                data_type_debug(&metadata.data_type),
                value_debug(value),
            ),
        ),
    }
}

/// The message of a bound violation: integers are written out, floats
/// are not.
pub open spec fn bound_message(v: ValueModel, min: Option<ValueModel>, max: Option<ValueModel>) -> Seq<char> {
    match (v, min, max) {
        (ValueModel::Integer(i), Some(ValueModel::Integer(lo)), _) if i < lo => "Value "@ + decimal_text(i)
            + " is less than minimum "@ + decimal_text(lo),
        (ValueModel::Integer(i), _, Some(ValueModel::Integer(hi))) if i > hi => "Value "@ + decimal_text(i)
            + " is greater than maximum "@ + decimal_text(hi),
        (ValueModel::Float(f), Some(ValueModel::Float(lo)), _) if float_lt(f, lo) => "Value is less than minimum"@,
        _ => "Value is greater than maximum"@,
    }
}

/// Validate value against property constraints
pub fn validate_value(metadata: &PropertyMetadata, value: &Value) -> (r: Result<()>)
    ensures
        value_check(*metadata, value@, r),
{
    match validate_value_type(metadata, value) {
        Ok(()) => {},
        Err(e) => {
            return Err(e);
        },
    }
    proof {
        crate::mechaflow_core::types::lemma_model_kinds(*value);
        if metadata.min_value is Some {
            crate::mechaflow_core::types::lemma_model_kinds(metadata.min_value->0);
        }
        if metadata.max_value is Some {
            crate::mechaflow_core::types::lemma_model_kinds(metadata.max_value->0);
        }
    }
    match (value, &metadata.min_value, &metadata.max_value) {
        (Value::Integer(i), Some(Value::Integer(min)), _) if *i < *min => {
            let msg = join(
                join(join("Value ", i64_to_decimal(*i).as_str()).as_str(), " is less than minimum ").as_str(),
                i64_to_decimal(*min).as_str(),
            );
            return Err(DeviceError::ValueOutOfRange(metadata.name.clone(), msg));
        },
        (Value::Integer(i), _, Some(Value::Integer(max))) if *i > *max => {
            let msg = join(
                join(join("Value ", i64_to_decimal(*i).as_str()).as_str(), " is greater than maximum ").as_str(),
                i64_to_decimal(*max).as_str(),
            );
            return Err(DeviceError::ValueOutOfRange(metadata.name.clone(), msg));
        },
        (Value::Float(f), Some(Value::Float(min)), _) if float_bits_lt(*f, *min) => {
            return Err(
                DeviceError::ValueOutOfRange(
                    metadata.name.clone(),
                    owned("Value is less than minimum"),
                ),
            );
        },
        (Value::Float(f), _, Some(Value::Float(max))) if float_bits_lt(*max, *f) => {
            return Err(
                DeviceError::ValueOutOfRange(
                    metadata.name.clone(),
                    owned("Value is greater than maximum"),
                ),
            );
        },
        _ => {},
    }
    Ok(())
}

/// The name of a state as its `Debug` rendering writes it.
pub fn state_name(s: DeviceState) -> (r: &'static str)
    ensures
        r@ == state_label(s),
{
    match s {
        DeviceState::Disconnected => "Disconnected",
        DeviceState::Connecting => "Connecting",
        DeviceState::Connected => "Connected",
        DeviceState::Initializing => "Initializing",
        DeviceState::Ready => "Ready",
        DeviceState::Error => "Error",
        DeviceState::Busy => "Busy",
        DeviceState::ShuttingDown => "ShuttingDown",
        DeviceState::Standby => "Standby",
        DeviceState::Active => "Active",
        DeviceState::Idle => "Idle",
        DeviceState::Disconnecting => "Disconnecting",
    }
}

/// A device in this state can be read and written.
pub open spec fn is_operational(s: DeviceState) -> bool {
    s == DeviceState::Ready || s == DeviceState::Connected
}

/// `e` announces that device `id` went from `old` to `new`.
pub open spec fn is_state_change(e: DeviceEvent, id: Seq<char>, old: DeviceState, new: DeviceState) -> bool {
    e matches DeviceEvent::StateChanged { device_id, old_state, new_state } && device_id@ == id
        && old_state == old && new_state == new
}

/// `e` announces that property `p` of device `id` changed from `old` to `new`.
pub open spec fn is_property_change(
    e: DeviceEvent,
    id: Seq<char>,
    p: Seq<char>,
    old: Option<ValueModel>,
    new: ValueModel,
) -> bool {
    e matches DeviceEvent::PropertyChanged { device_id, property, old_value, new_value }
        && device_id@ == id && property@ == p && opt_model(old_value) == old && new_value@ == new
}

/// The events that moving from `old` to `new` announces: one if the state changes.
pub open spec fn state_events_ok(
    events: Seq<DeviceEvent>,
    before: Seq<DeviceEvent>,
    id: Seq<char>,
    old: DeviceState,
    new: DeviceState,
) -> bool {
    if old == new {
        events == before
    } else {
        events.len() == before.len() + 1 && events.subrange(0, before.len() as int) == before
            && is_state_change(events.last(), id, old, new)
    }
}

/// Base implementation for devices: information, lifecycle state, property
/// values and metadata, and the events not yet published.
#[derive(Debug)]
pub struct BaseDevice {
    info: DeviceInfo,
    state: DeviceState,
    properties: StrMap<Value>,
    property_metadata: StrMap<PropertyMetadata>,
    metadata: StrMap<Value>,
    events: Vec<DeviceEvent>,
    last_connected: Option<Timestamp>,
    connection_timeout_ms: u64,
}

impl BaseDevice {
    /// The device's identifier.
    pub closed spec fn id_spec(self) -> Seq<char> {
        self.info.id@
    }

    /// The device's capabilities.
    pub closed spec fn capabilities_spec(self) -> Seq<DeviceCapability> {
        self.info.capabilities@
    }

    /// The lifecycle state.
    pub closed spec fn state_spec(self) -> DeviceState {
        self.state
    }

    /// The current property values.
    pub closed spec fn properties_spec(self) -> Map<Seq<char>, Value> {
        self.properties@
    }

    /// The metadata of each known property.
    pub closed spec fn property_metadata_spec(self) -> Map<Seq<char>, PropertyMetadata> {
        self.property_metadata@
    }

    /// The device metadata.
    pub closed spec fn metadata_spec(self) -> Map<Seq<char>, Value> {
        self.metadata@
    }

    /// When the device last connected, if it did.
    pub closed spec fn last_connected_spec(self) -> Option<Timestamp> {
        self.last_connected
    }

    /// The connection timeout in milliseconds.
    pub closed spec fn connection_timeout_spec(self) -> u64 {
        self.connection_timeout_ms
    }

    /// Events produced and not yet taken for publication.
    pub closed spec fn pending_events(self) -> Seq<DeviceEvent> {
        self.events@
    }

    /// Create a new base device
    pub fn new(info: DeviceInfo) -> (d: Self)
        ensures
            d.id_spec() == info.id@,
            d.capabilities_spec() == info.capabilities@,
            d.state_spec() == DeviceState::Disconnected,
            d.properties_spec() == Map::<Seq<char>, Value>::empty(),
            d.property_metadata_spec() == Map::<Seq<char>, PropertyMetadata>::empty(),
            d.metadata_spec() == Map::<Seq<char>, Value>::empty(),
            d.pending_events() == Seq::<DeviceEvent>::empty(),
            d.last_connected_spec() is None,
            d.connection_timeout_spec() == 30000,
    {
        BaseDevice {
            info,
            state: DeviceState::Disconnected,
            properties: StrMap::new(),
            property_metadata: StrMap::new(),
            metadata: StrMap::new(),
            events: Vec::new(),
            last_connected: None,
            connection_timeout_ms: 30000,
        }
    }

    /// Get the device information
    pub fn info(&self) -> (r: &DeviceInfo)
        ensures
            r.id@ == self.id_spec(),
            r.capabilities@ == self.capabilities_spec(),
    {
        &self.info
    }

    /// Get the device ID
    pub fn id(&self) -> (r: &Id)
        ensures
            r@ == self.id_spec(),
    {
        &self.info.id
    }

    /// Check if the device has a specific capability
    pub fn has_capability(&self, capability: &DeviceCapability) -> (r: bool)
        ensures
            r == has_capability_spec(self.capabilities_spec(), *capability),
    {
        self.info.has_capability(capability)
    }

    /// Get the device state
    pub fn state(&self) -> (r: DeviceState)
        ensures
            r == self.state_spec(),
    {
        self.state
    }

    /// The time of the last successful connection, if any.
    pub fn last_connected(&self) -> (r: Option<Timestamp>)
        ensures
            r == self.last_connected_spec(),
    {
        self.last_connected
    }

    /// The connection timeout in milliseconds.
    pub fn connection_timeout_ms(&self) -> (r: u64)
        ensures
            r == self.connection_timeout_spec(),
    {
        self.connection_timeout_ms
    }

    /// Set the device state; a change is announced by an event.
    pub fn set_state(&mut self, new_state: DeviceState)
        ensures
            final(self).state_spec() == new_state,
            state_events_ok(
                final(self).pending_events(),
                old(self).pending_events(),
                old(self).id_spec(),
                old(self).state_spec(),
                new_state,
            ),
            final(self).id_spec() == old(self).id_spec(),
            final(self).capabilities_spec() == old(self).capabilities_spec(),
            final(self).properties_spec() == old(self).properties_spec(),
            final(self).property_metadata_spec() == old(self).property_metadata_spec(),
            final(self).metadata_spec() == old(self).metadata_spec(),
            final(self).last_connected_spec() == old(self).last_connected_spec(),
    {
        let old_state = self.state;
        self.state = new_state;
        if old_state != new_state {
            let ev = DeviceEvent::StateChanged {
                device_id: self.info.id.clone(),
                old_state,
                new_state,
            };
            self.events.push(ev);
            assert(self.events@.subrange(0, old(self).events@.len() as int) =~= old(self).events@);
        }
    }

    /// Set a property value; the change is announced by an event.
    pub fn set_property(&mut self, property: &str, value: Value) -> (r: Result<()>)
        ensures
            r is Ok,
            final(self).properties_spec() == old(self).properties_spec().insert(property@, value),
            final(self).pending_events().len() == old(self).pending_events().len() + 1,
            final(self).pending_events().subrange(0, old(self).pending_events().len() as int)
                == old(self).pending_events(),
            is_property_change(
                final(self).pending_events().last(),
                old(self).id_spec(),
                property@,
                if old(self).properties_spec().contains_key(property@) {
                    Some(old(self).properties_spec()[property@]@)
                } else {
                    None
                },
                value@,
            ),
            final(self).state_spec() == old(self).state_spec(),
            final(self).id_spec() == old(self).id_spec(),
            final(self).capabilities_spec() == old(self).capabilities_spec(),
            final(self).property_metadata_spec() == old(self).property_metadata_spec(),
            final(self).metadata_spec() == old(self).metadata_spec(),
    {
        let old_value = match self.properties.get(property) {
            Some(v) => Some(v.duplicate()),
            None => None,
        };
        let new_copy = value.duplicate();
        self.properties.insert(owned(property), value);
        let ev = DeviceEvent::PropertyChanged {
            device_id: self.info.id.clone(),
            property: owned(property),
            old_value,
            new_value: new_copy,
        };
        self.events.push(ev);
        assert(self.events@.subrange(0, old(self).events@.len() as int) =~= old(self).events@);
        Ok(())
    }

    /// Get a property value
    pub fn get_property(&self, property: &str) -> (r: Result<Value>)
        ensures
            match r {
                Ok(v) => self.properties_spec().contains_key(property@) && v@
                    == self.properties_spec()[property@]@,
                Err(e) => !self.properties_spec().contains_key(property@) && (e matches DeviceError::PropertyNotSupported(p) && p@ == property@),
            },
    {
        match self.properties.get(property) {
            Some(v) => Ok(v.duplicate()),
            None => Err(DeviceError::PropertyNotSupported(owned(property))),
        }
    }

    /// Set the property metadata
    pub fn set_property_metadata(&mut self, metadata: PropertyMetadata) -> (r: Result<()>)
        ensures
            r is Ok,
            final(self).property_metadata_spec() == old(self).property_metadata_spec().insert(
                metadata.name@,
                metadata,
            ),
            final(self).state_spec() == old(self).state_spec(),
            final(self).id_spec() == old(self).id_spec(),
            final(self).capabilities_spec() == old(self).capabilities_spec(),
            final(self).properties_spec() == old(self).properties_spec(),
            final(self).metadata_spec() == old(self).metadata_spec(),
            final(self).pending_events() == old(self).pending_events(),
    {
        let name = metadata.name.clone();
        self.property_metadata.insert(name, metadata);
        Ok(())
    }

    /// Get the property metadata
    pub fn get_property_metadata(&self, property: &str) -> (r: Result<&PropertyMetadata>)
        ensures
            match r {
                Ok(m) => self.property_metadata_spec().contains_key(property@) && *m
                    == self.property_metadata_spec()[property@],
                Err(e) => !self.property_metadata_spec().contains_key(property@) && (e matches DeviceError::PropertyNotSupported(p) && p@ == property@),
            },
    {
        match self.property_metadata.get(property) {
            Some(m) => Ok(m),
            None => Err(DeviceError::PropertyNotSupported(owned(property))),
        }
    }

    /// Check if value type matches property data type
    pub fn validate_value_type(&self, metadata: &PropertyMetadata, value: &Value) -> (r: Result<()>)
        ensures
            r is Ok <==> type_matches(metadata.data_type, value@),
            r matches Err(e) ==> is_type_error(*metadata, value@, e),
    {
        validate_value_type(metadata, value)
    }

    /// Validate value against property constraints
    pub fn validate_value(&self, metadata: &PropertyMetadata, value: &Value) -> (r: Result<()>)
        ensures
            r is Ok <==> type_matches(metadata.data_type, value@) && bound_violation(
                value@,
                opt_model(metadata.min_value),
                opt_model(metadata.max_value),
            ) is None,
            value_check(*metadata, value@, r),
    {
        validate_value(metadata, value)
    }

    /// Publish a device error event
    pub fn publish_error(&mut self, message: String)
        ensures
            final(self).pending_events().len() == old(self).pending_events().len() + 1,
            final(self).pending_events().last() matches DeviceEvent::Error { device_id, message: m }
                && device_id@ == old(self).id_spec() && m == message,
            final(self).state_spec() == old(self).state_spec(),
            final(self).properties_spec() == old(self).properties_spec(),
    {
        self.events.push(DeviceEvent::Error { device_id: self.info.id.clone(), message });
    }

    /// Take the events produced since the last call, oldest first.
    pub fn take_events(&mut self) -> (r: Vec<DeviceEvent>)
        ensures
            r@ == old(self).pending_events(),
            final(self).pending_events() == Seq::<DeviceEvent>::empty(),
            final(self).state_spec() == old(self).state_spec(),
            final(self).id_spec() == old(self).id_spec(),
            final(self).capabilities_spec() == old(self).capabilities_spec(),
            final(self).properties_spec() == old(self).properties_spec(),
            final(self).property_metadata_spec() == old(self).property_metadata_spec(),
            final(self).metadata_spec() == old(self).metadata_spec(),
    {
        let mut out: Vec<DeviceEvent> = Vec::new();
        std::mem::swap(&mut out, &mut self.events);
        out
    }

    /// Connect to the device
    pub fn connect(&mut self) -> (r: Result<()>)
        ensures
            old(self).state_spec() == DeviceState::Connecting <==> r is Err,
            r matches Err(e) ==> e is InvalidState && final(self).state_spec()
                == old(self).state_spec() && final(self).pending_events()
                == old(self).pending_events(),
            r is Ok && is_operational(old(self).state_spec()) ==> final(self).state_spec()
                == old(self).state_spec() && final(self).pending_events()
                == old(self).pending_events(),
            r is Ok && !is_operational(old(self).state_spec()) ==> final(self).last_connected_spec() is Some,
            r is Ok && !is_operational(old(self).state_spec()) ==> final(self).state_spec()
                == DeviceState::Connected && final(self).pending_events().len()
                == old(self).pending_events().len() + 2 && is_state_change(
                final(self).pending_events()[old(self).pending_events().len() as int],
                old(self).id_spec(),
                old(self).state_spec(),
                DeviceState::Connecting,
            ) && is_state_change(
                final(self).pending_events().last(),
                old(self).id_spec(),
                DeviceState::Connecting,
                DeviceState::Connected,
            ),
            final(self).id_spec() == old(self).id_spec(),
            final(self).capabilities_spec() == old(self).capabilities_spec(),
            final(self).properties_spec() == old(self).properties_spec(),
            final(self).property_metadata_spec() == old(self).property_metadata_spec(),
            final(self).metadata_spec() == old(self).metadata_spec(),
    {
        match self.state {
            DeviceState::Connected | DeviceState::Ready => {
                return Ok(());
            },
            DeviceState::Connecting => {
                return Err(DeviceError::InvalidState(owned("Device is already connecting")));
            },
            _ => {},
        }
        self.set_state(DeviceState::Connecting);
        self.last_connected = Some(now());
        self.set_state(DeviceState::Connected);
        Ok(())
    }

    /// Disconnect from the device
    pub fn disconnect(&mut self) -> (r: Result<()>)
        ensures
            old(self).state_spec() == DeviceState::ShuttingDown <==> r is Err,
            r matches Err(e) ==> e is InvalidState && final(self).state_spec()
                == old(self).state_spec() && final(self).pending_events()
                == old(self).pending_events(),
            r is Ok ==> final(self).state_spec() == DeviceState::Disconnected,
            r is Ok && old(self).state_spec() == DeviceState::Disconnected ==> final(self).pending_events() == old(self).pending_events(),
            r is Ok && old(self).state_spec() != DeviceState::Disconnected ==> final(self).pending_events().len() == old(self).pending_events().len() + 2 && is_state_change(
                final(self).pending_events()[old(self).pending_events().len() as int],
                old(self).id_spec(),
                old(self).state_spec(),
                DeviceState::ShuttingDown,
            ) && is_state_change(
                final(self).pending_events().last(),
                old(self).id_spec(),
                DeviceState::ShuttingDown,
                DeviceState::Disconnected,
            ),
            final(self).id_spec() == old(self).id_spec(),
            final(self).capabilities_spec() == old(self).capabilities_spec(),
            final(self).properties_spec() == old(self).properties_spec(),
            final(self).property_metadata_spec() == old(self).property_metadata_spec(),
            final(self).metadata_spec() == old(self).metadata_spec(),
    {
        match self.state {
            DeviceState::Disconnected => {
                return Ok(());
            },
            DeviceState::ShuttingDown => {
                return Err(DeviceError::InvalidState(owned("Device is already shutting down")));
            },
            _ => {},
        }
        self.set_state(DeviceState::ShuttingDown);
        self.set_state(DeviceState::Disconnected);
        Ok(())
    }

    /// Initialize the device
    pub fn initialize(&mut self) -> (r: Result<()>)
        ensures
            old(self).state_spec() == DeviceState::Initializing ==> r matches Err(
                DeviceError::InvalidState(_),
            ),
            old(self).state_spec() == DeviceState::Disconnected ==> r matches Err(
                DeviceError::NotConnected,
            ),
            r is Err ==> final(self).state_spec() == old(self).state_spec() && final(self).pending_events() == old(self).pending_events(),
            old(self).state_spec() == DeviceState::Ready ==> r is Ok && final(self).pending_events()
                == old(self).pending_events(),
            old(self).state_spec() != DeviceState::Ready && old(self).state_spec()
                != DeviceState::Initializing && old(self).state_spec() != DeviceState::Disconnected
                ==> r is Ok && final(self).pending_events().len() == old(self).pending_events().len() + 2 && is_state_change(
                final(self).pending_events()[old(self).pending_events().len() as int],
                old(self).id_spec(),
                old(self).state_spec(),
                DeviceState::Initializing,
            ) && is_state_change(
                final(self).pending_events().last(),
                old(self).id_spec(),
                DeviceState::Initializing,
                DeviceState::Ready,
            ),
            r is Ok ==> final(self).state_spec() == DeviceState::Ready,
            final(self).id_spec() == old(self).id_spec(),
            final(self).capabilities_spec() == old(self).capabilities_spec(),
            final(self).properties_spec() == old(self).properties_spec(),
            final(self).property_metadata_spec() == old(self).property_metadata_spec(),
            final(self).metadata_spec() == old(self).metadata_spec(),
    {
        match self.state {
            DeviceState::Ready => {
                return Ok(());
            },
            DeviceState::Initializing => {
                return Err(DeviceError::InvalidState(owned("Device is already initializing")));
            },
            DeviceState::Disconnected => {
                return Err(DeviceError::NotConnected);
            },
            _ => {},
        }
        self.set_state(DeviceState::Initializing);
        self.set_state(DeviceState::Ready);
        Ok(())
    }

    /// Shutdown the device (the same as disconnecting)
    pub fn shutdown(&mut self) -> (r: Result<()>)
        ensures
            old(self).state_spec() == DeviceState::ShuttingDown <==> r is Err,
            r is Ok ==> final(self).state_spec() == DeviceState::Disconnected,
            r is Err ==> final(self).state_spec() == old(self).state_spec(),
            final(self).id_spec() == old(self).id_spec(),
            final(self).properties_spec() == old(self).properties_spec(),
            final(self).property_metadata_spec() == old(self).property_metadata_spec(),
    {
        self.disconnect()
    }

    /// Get available properties for the device: the names with metadata
    pub fn available_properties(&self) -> (r: Result<Vec<String>>)
        ensures
            r matches Ok(names) && names@.len() == self.property_metadata_spec().len() && (forall|
                i: int,
            |
                0 <= i < names@.len() ==> self.property_metadata_spec().contains_key(
                    #[trigger] names@[i]@,
                )) && (forall|k: Seq<char>| #[trigger]
                self.property_metadata_spec().contains_key(k) ==> exists|i: int|
                    0 <= i < names@.len() && names@[i]@ == k),
    {
        let names = self.property_metadata.keys();
        let n = self.property_metadata.len();
        proof {
            let es = self.property_metadata.entry_seq();
            assert forall|i: int| 0 <= i < names@.len() implies self.property_metadata@.contains_key(
                #[trigger] names@[i]@,
            ) by {
                crate::str_map::lemma_key_index_unique(es, i);
            }
            assert forall|k: Seq<char>| #[trigger]
                self.property_metadata@.contains_key(k) implies exists|i: int|
                0 <= i < names@.len() && names@[i]@ == k by {
                let j = crate::str_map::key_index(es, k);
                assert(names@[j]@ == k);
            }
        }
        Ok(names)
    }

    /// Check if a property is supported by the device
    pub fn supports_property(&self, property: &str) -> (r: Result<bool>)
        ensures
            r == Ok::<bool, DeviceError>(self.property_metadata_spec().contains_key(property@)),
    {
        Ok(self.property_metadata.contains_key(property))
    }

    /// Read a property value from the device
    pub fn read(&self, property: &str) -> (r: Result<Value>)
        ensures
            !is_operational(self.state_spec()) ==> r matches Err(DeviceError::InvalidState(_)),
            is_operational(self.state_spec()) && !self.property_metadata_spec().contains_key(
                property@,
            ) ==> (r matches Err(DeviceError::PropertyNotSupported(p)) && p@ == property@),
            is_operational(self.state_spec()) && self.property_metadata_spec().contains_key(
                property@,
            ) && self.property_metadata_spec()[property@].access == PropertyAccess::WriteOnly
                ==> r matches Err(DeviceError::PermissionDenied(_)),
            is_operational(self.state_spec()) && self.property_metadata_spec().contains_key(
                property@,
            ) && self.property_metadata_spec()[property@].access != PropertyAccess::WriteOnly
                ==> match r {
                Ok(v) => self.properties_spec().contains_key(property@) && v@
                    == self.properties_spec()[property@]@,
                Err(e) => !self.properties_spec().contains_key(property@) && (e matches DeviceError::PropertyNotSupported(p) && p@ == property@),
            },
    {
        match self.state {
            DeviceState::Ready => {},
            DeviceState::Connected => {},
            _ => {
                return Err(
                    DeviceError::InvalidState(
                        join("Device is not ready for reading: ", state_name(self.state)),
                    ),
                );
            },
        }
        let metadata = match self.property_metadata.get(property) {
            Some(m) => m,
            None => {
                return Err(DeviceError::PropertyNotSupported(owned(property)));
            },
        };
        match metadata.access {
            PropertyAccess::ReadOnly | PropertyAccess::ReadWrite => {},
            PropertyAccess::WriteOnly => {
                return Err(
                    DeviceError::PermissionDenied(
                        join(join("Property ", property).as_str(), " is write-only"),
                    ),
                );
            },
        }
        self.get_property(property)
    }

    /// Write a property value to the device
    pub fn write(&mut self, property: &str, value: Value) -> (r: Result<()>)
        ensures
            !is_operational(old(self).state_spec()) ==> r matches Err(
                DeviceError::InvalidState(_),
            ),
            is_operational(old(self).state_spec()) && !old(self).property_metadata_spec().contains_key(property@) ==> (r matches Err(DeviceError::PropertyNotSupported(p)) && p@ == property@),
            is_operational(old(self).state_spec()) && old(self).property_metadata_spec().contains_key(property@) && old(self).property_metadata_spec()[property@].access == PropertyAccess::ReadOnly ==> r matches Err(
                DeviceError::PermissionDenied(_),
            ),
            r is Ok <==> is_operational(old(self).state_spec()) && old(self).property_metadata_spec().contains_key(property@) && old(self).property_metadata_spec()[property@].access != PropertyAccess::ReadOnly && type_matches(
                old(self).property_metadata_spec()[property@].data_type,
                value@,
            ) && bound_violation(
                value@,
                opt_model(old(self).property_metadata_spec()[property@].min_value),
                opt_model(old(self).property_metadata_spec()[property@].max_value),
            ) is None,
            r is Ok ==> final(self).properties_spec() == old(self).properties_spec().insert(
                property@,
                value,
            ) && final(self).pending_events().len() == old(self).pending_events().len() + 1,
            r is Err ==> final(self).properties_spec() == old(self).properties_spec() && final(self).pending_events() == old(self).pending_events(),
            final(self).state_spec() == old(self).state_spec(),
            final(self).id_spec() == old(self).id_spec(),
            final(self).capabilities_spec() == old(self).capabilities_spec(),
            final(self).property_metadata_spec() == old(self).property_metadata_spec(),
            final(self).metadata_spec() == old(self).metadata_spec(),
    {
        match self.state {
            DeviceState::Ready => {},
            DeviceState::Connected => {},
            _ => {
                return Err(
                    DeviceError::InvalidState(
                        join("Device is not ready for writing: ", state_name(self.state)),
                    ),
                );
            },
        }
        let checked = match self.property_metadata.get(property) {
            Some(metadata) => {
                match metadata.access {
                    PropertyAccess::WriteOnly | PropertyAccess::ReadWrite => {},
                    PropertyAccess::ReadOnly => {
                        return Err(
                            DeviceError::PermissionDenied(
                                join(join("Property ", property).as_str(), " is read-only"),
                            ),
                        );
                    },
                }
                validate_value(metadata, &value)
            },
            None => {
                return Err(DeviceError::PropertyNotSupported(owned(property)));
            },
        };
        match checked {
            Ok(()) => self.set_property(property, value),
            Err(e) => Err(e),
        }
    }

    /// Execute a command on the device: the base device knows no commands
    pub fn execute_command(&self, command: &str, parameters: StrMap<Value>) -> (r: Result<Value>)
        ensures
            r matches Err(DeviceError::PropertyNotSupported(m)) && m@ == "Command "@ + command@
                + " not supported"@,
    {
        Err(
            DeviceError::PropertyNotSupported(
                join(join("Command ", command).as_str(), " not supported"),
            ),
        )
    }

    /// Get available commands for the device: none
    pub fn available_commands(&self) -> (r: Result<Vec<String>>)
        ensures
            r matches Ok(v) && v@.len() == 0,
    {
        Ok(Vec::new())
    }

    /// Get the device metadata
    pub fn get_metadata(&self) -> (r: Result<StrMap<Value>>)
        ensures
            r matches Ok(m) && m@.dom() == self.metadata_spec().dom() && forall|k: Seq<char>|
                #[trigger] m@.contains_key(k) ==> m@[k]@ == self.metadata_spec()[k]@,
    {
        Ok(copy_values(&self.metadata))
    }

    /// Set the device metadata
    pub fn set_metadata(&mut self, metadata: StrMap<Value>) -> (r: Result<()>)
        ensures
            r is Ok,
            final(self).metadata_spec() == metadata@,
            final(self).state_spec() == old(self).state_spec(),
            final(self).id_spec() == old(self).id_spec(),
            final(self).properties_spec() == old(self).properties_spec(),
            final(self).property_metadata_spec() == old(self).property_metadata_spec(),
            final(self).pending_events() == old(self).pending_events(),
    {
        self.metadata = metadata;
        Ok(())
    }

    /// Whether events may be subscribed to: only with the `Events` capability.
    pub fn check_events_supported(&self) -> (r: Result<()>)
        ensures
            r is Ok <==> has_capability_spec(self.capabilities_spec(), DeviceCapability::Events),
            r matches Err(e) ==> e matches DeviceError::PropertyNotSupported(m) && m@
                == "Events"@,
    {
        if self.info.has_capability(&DeviceCapability::Events) {
            Ok(())
        } else {
            Err(DeviceError::PropertyNotSupported(owned("Events")))
        }
    }
}

} // verus!
