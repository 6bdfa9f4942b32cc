//! The thermostat's modes and the decisions of its control: when the fan
//! runs and which state the device is in, how the simulated temperature and
//! humidity move, and how written properties and commands are understood.
use vstd::prelude::*;

use crate::mechaflow_core::error::{join, owned};
use crate::mechaflow_core::types::{Value, ValueModel};
use crate::mechaflow_devices::device::{value_debug, value_debug_text, DeviceError, DeviceState, Result};
use crate::str_map::{str_eq, StrMap};
use crate::text::{chars_of, decimal_of, u64_to_decimal};

verus! {

/// Thermostat operating modes
#[derive(Debug, Clone, Copy, PartialEq, Eq, Structural)]
pub enum ThermostatMode {
    /// Off mode
    Off,
    /// Heat mode
    Heat,
    /// Cool mode
    Cool,
    /// Auto mode (heating or cooling as needed)
    Auto,
    /// Fan only mode
    Fan,
}

/// The name of a mode.
pub open spec fn mode_name(m: ThermostatMode) -> Seq<char> {
    match m {
        ThermostatMode::Off => "off"@,
        ThermostatMode::Heat => "heat"@,
        ThermostatMode::Cool => "cool"@,
        ThermostatMode::Auto => "auto"@,
        ThermostatMode::Fan => "fan"@,
    }
}

/// A character with ASCII capitals made small.
pub open spec fn ascii_lower(c: char) -> char {
    if 'A' <= c <= 'Z' {
        ((c as u32) + 32) as char
    } else {
        c
    }
}

/// The mode a text names, ignoring the case of its letters.
pub open spec fn mode_named(s: Seq<char>) -> Option<ThermostatMode> {
    let l = s.map_values(|c: char| ascii_lower(c));
    if l == "off"@ {
        Some(ThermostatMode::Off)
    } else if l == "heat"@ {
        Some(ThermostatMode::Heat)
    } else if l == "cool"@ {
        Some(ThermostatMode::Cool)
    } else if l == "auto"@ {
        Some(ThermostatMode::Auto)
    } else if l == "fan"@ {
        Some(ThermostatMode::Fan)
    } else {
        None
    }
}

/// Whether `s`, with ASCII capitals made small, is `word`.
fn lower_equals(s: &Vec<char>, word: &str) -> (r: bool)
    ensures
        r == (s@.map_values(|c: char| ascii_lower(c)) == word@),
{
    let w = chars_of(word);
    if s.len() != w.len() {
        proof {
            assert(s@.map_values(|c: char| ascii_lower(c)).len() != word@.len());
        }
        return false;
    }
    let mut i: usize = 0;
    while i < s.len()
        invariant
            s@.len() == w@.len(),
            w@ == word@,
            i <= s@.len(),
            forall|j: int| 0 <= j < i ==> ascii_lower(s@[j]) == w@[j],
        decreases s@.len() - i,
    {
        let c = s[i];
        let l = if 'A' <= c && c <= 'Z' {
            char_add_32(c)
        } else {
            c
        };
        if l != w[i] {
            proof {
                assert(s@.map_values(|c: char| ascii_lower(c))[i as int] != word@[i as int]);
            }
            return false;
        }
        i = i + 1;
    }
    proof {
        assert(s@.map_values(|c: char| ascii_lower(c)) =~= word@);
    }
    true
}

/// The small letter of an ASCII capital.
fn char_add_32(c: char) -> (r: char)
    requires
        'A' <= c <= 'Z',
    ensures
        r == ascii_lower(c),
{
    if c == 'A' { 'a' } else if c == 'B' { 'b' } else if c == 'C' { 'c' } else if c == 'D' { 'd' }
    else if c == 'E' { 'e' } else if c == 'F' { 'f' } else if c == 'G' { 'g' } else if c == 'H' { 'h' }
    else if c == 'I' { 'i' } else if c == 'J' { 'j' } else if c == 'K' { 'k' } else if c == 'L' { 'l' }
    else if c == 'M' { 'm' } else if c == 'N' { 'n' } else if c == 'O' { 'o' } else if c == 'P' { 'p' }
    else if c == 'Q' { 'q' } else if c == 'R' { 'r' } else if c == 'S' { 's' } else if c == 'T' { 't' }
    else if c == 'U' { 'u' } else if c == 'V' { 'v' } else if c == 'W' { 'w' } else if c == 'X' { 'x' }
    else if c == 'Y' { 'y' } else { 'z' }
}

impl ThermostatMode {
    /// Convert to string
    pub fn as_str(&self) -> (r: &'static str)
        ensures
            r@ == mode_name(*self),
    {
        match self {
            ThermostatMode::Off => "off",
            ThermostatMode::Heat => "heat",
            ThermostatMode::Cool => "cool",
            ThermostatMode::Auto => "auto",
            ThermostatMode::Fan => "fan",
        }
    }

    /// Parse from string, ignoring the case of its letters
    pub fn from_str(s: &str) -> (r: Option<Self>)
        ensures
            r == mode_named(s@),
    {
        let cs = chars_of(s);
        if lower_equals(&cs, "off") {
            Some(ThermostatMode::Off)
        } else if lower_equals(&cs, "heat") {
            Some(ThermostatMode::Heat)
        } else if lower_equals(&cs, "cool") {
            Some(ThermostatMode::Cool)
        } else if lower_equals(&cs, "auto") {
            Some(ThermostatMode::Auto)
        } else if lower_equals(&cs, "fan") {
            Some(ThermostatMode::Fan)
        } else {
            None
        }
    }

    /// The mode a value names: a string naming a mode
    pub fn from_value(value: &Value) -> (r: Result<Self>)
        ensures
            match value@ {
                ValueModel::String(s) => match mode_named(s) {
                    Some(m) => r == Ok::<ThermostatMode, DeviceError>(m),
                    None => r matches Err(DeviceError::InvalidValue(msg)) && msg@
                        == "Invalid thermostat mode: "@ + s,
                },
                _ => r matches Err(DeviceError::InvalidValue(msg)) && msg@
                    == "Invalid thermostat mode: "@ + value_debug_text(value@),
            },
    {
        proof {
            crate::mechaflow_core::types::lemma_model_kinds(*value);
        }
        match value {
            Value::String(s) => match ThermostatMode::from_str(s.as_str()) {
                Some(m) => Ok(m),
                None => Err(DeviceError::InvalidValue(join("Invalid thermostat mode: ", s.as_str()))),
            },
            _ => Err(
                DeviceError::InvalidValue(join("Invalid thermostat mode: ", value_debug(value).as_str())),
            ),
        }
    }
}

impl From<ThermostatMode> for Value {
    fn from(mode: ThermostatMode) -> (v: Value)
        ensures
            v@ == ValueModel::String(mode_name(mode)),
    {
        let v = Value::String(owned(mode.as_str()));
        proof {
            crate::mechaflow_core::types::lemma_model_kinds(v);
        }
        v
    }
}

impl vstd::std_specs::convert::FromSpecImpl<ThermostatMode> for Value {
    /// The `ensures` of `from` states the conversion.
    open spec fn obeys_from_spec() -> bool {
        false
    }

    open spec fn from_spec(v: ThermostatMode) -> Value {
        arbitrary()
    }
}

/// How the current temperature compares with the target: below it, above
/// it, and further than half a degree below or above it.
#[derive(Debug, Clone, Copy, PartialEq, Eq, Structural)]
pub struct TemperatureComparison {
    /// current < target
    pub below: bool,
    /// current > target
    pub above: bool,
    /// current < target - 0.5
    pub below_band: bool,
    /// current > target + 0.5
    pub above_band: bool,
}

/// Whether the fan runs in a mode.
pub open spec fn fan_wanted(mode: ThermostatMode, c: TemperatureComparison) -> bool {
    match mode {
        ThermostatMode::Off => false,
        ThermostatMode::Fan => true,
        ThermostatMode::Heat => c.below,
        ThermostatMode::Cool => c.above,
        ThermostatMode::Auto => c.below_band || c.above_band,
    }
}

/// The device state in a mode: standby when off, active while the fan runs,
/// idle otherwise.
pub open spec fn control_state(mode: ThermostatMode, c: TemperatureComparison) -> DeviceState {
    match mode {
        ThermostatMode::Off => DeviceState::Standby,
        _ => if fan_wanted(mode, c) {
            DeviceState::Active
        } else {
            DeviceState::Idle
        },
    }
}

/// What the control does in each mode: switched off, the fan stays off and
/// the device stands by; in fan mode the fan always runs; heating runs it
/// exactly while the temperature is below the target, cooling exactly
/// while it is above, and auto exactly while it is outside the band around
/// the target. In every mode but off, the device is active while the fan
/// runs and idle while it does not.
pub proof fn lemma_control_by_mode(mode: ThermostatMode, c: TemperatureComparison)
    ensures
        mode is Off ==> !fan_wanted(mode, c) && control_state(mode, c) == DeviceState::Standby,
        mode is Fan ==> fan_wanted(mode, c),
        mode is Heat ==> (fan_wanted(mode, c) <==> c.below),
        mode is Cool ==> (fan_wanted(mode, c) <==> c.above),
        mode is Auto ==> (fan_wanted(mode, c) <==> (c.below_band || c.above_band)),
        !(mode is Off) ==> (fan_wanted(mode, c) ==> control_state(mode, c) == DeviceState::Active)
            && (!fan_wanted(mode, c) ==> control_state(mode, c) == DeviceState::Idle),
{
}

/// The fan setting and the device state that the control chooses.
pub fn control_decision(mode: ThermostatMode, c: TemperatureComparison) -> (r: (bool, DeviceState))
    ensures
        r.0 == fan_wanted(mode, c),
        r.1 == control_state(mode, c),
{
    let fan = match mode {
        ThermostatMode::Off => false,
        ThermostatMode::Fan => true,
        ThermostatMode::Heat => c.below,
        ThermostatMode::Cool => c.above,
        ThermostatMode::Auto => c.below_band || c.above_band,
    };
    let state = match mode {
        ThermostatMode::Off => DeviceState::Standby,
        _ => if fan {
            DeviceState::Active
        } else {
            DeviceState::Idle
        },
    };
    (fan, state)
}

/// A change of the simulated temperature.
#[derive(Debug, Clone, Copy, PartialEq, Eq, Structural)]
pub enum TemperatureStep {
    /// Stay
    Keep,
    /// Rise by a tenth of a degree
    UpSlow,
    /// Fall by a tenth of a degree
    DownSlow,
    /// Rise by three tenths of a degree
    UpFast,
    /// Fall by three tenths of a degree
    DownFast,
}

/// How the simulated temperature moves in one step: actively heated or
/// cooled while the fan runs, drifting otherwise (towards 20 degrees when
/// off, towards the target else). `below_ambient` and `above_ambient`
/// compare the current temperature with 20 degrees.
pub open spec fn temperature_step_spec(
    mode: ThermostatMode,
    fan_on: bool,
    c: TemperatureComparison,
    below_ambient: bool,
    above_ambient: bool,
) -> TemperatureStep {
    match mode {
        ThermostatMode::Off => if above_ambient {
            TemperatureStep::DownSlow
        } else if below_ambient {
            TemperatureStep::UpSlow
        } else {
            TemperatureStep::Keep
        },
        ThermostatMode::Fan => TemperatureStep::Keep,
        ThermostatMode::Heat => if fan_on && c.below {
            TemperatureStep::UpFast
        } else if c.above {
            TemperatureStep::DownSlow
        } else {
            TemperatureStep::Keep
        },
        ThermostatMode::Cool => if fan_on && c.above {
            TemperatureStep::DownFast
        } else if c.below {
            TemperatureStep::UpSlow
        } else {
            TemperatureStep::Keep
        },
        ThermostatMode::Auto => if fan_on {
            if c.below_band {
                TemperatureStep::UpFast
            } else if c.above_band {
                TemperatureStep::DownFast
            } else {
                TemperatureStep::Keep
            }
        } else if c.above {
            TemperatureStep::DownSlow
        } else if c.below {
            TemperatureStep::UpSlow
        } else {
            TemperatureStep::Keep
        },
    }
}

/// One step of the simulated temperature.
pub fn temperature_step(
    mode: ThermostatMode,
    fan_on: bool,
    c: TemperatureComparison,
    below_ambient: bool,
    above_ambient: bool,
) -> (r: TemperatureStep)
    ensures
        r == temperature_step_spec(mode, fan_on, c, below_ambient, above_ambient),
{
    match mode {
        ThermostatMode::Off => if above_ambient {
            TemperatureStep::DownSlow
        } else if below_ambient {
            TemperatureStep::UpSlow
        } else {
            TemperatureStep::Keep
        },
        ThermostatMode::Fan => TemperatureStep::Keep,
        ThermostatMode::Heat => if fan_on && c.below {
            TemperatureStep::UpFast
        } else if c.above {
            TemperatureStep::DownSlow
        } else {
            TemperatureStep::Keep
        },
        ThermostatMode::Cool => if fan_on && c.above {
            TemperatureStep::DownFast
        } else if c.below {
            TemperatureStep::UpSlow
        } else {
            TemperatureStep::Keep
        },
        ThermostatMode::Auto => if fan_on {
            if c.below_band {
                TemperatureStep::UpFast
            } else if c.above_band {
                TemperatureStep::DownFast
            } else {
                TemperatureStep::Keep
            }
        } else if c.above {
            TemperatureStep::DownSlow
        } else if c.below {
            TemperatureStep::UpSlow
        } else {
            TemperatureStep::Keep
        },
    }
}

/// Whether the simulation runs in a state: connected, active or idle.
pub fn simulation_runs(state: DeviceState) -> (r: bool)
    ensures
        r == (state == DeviceState::Connected || state == DeviceState::Active || state
            == DeviceState::Idle),
{
    match state {
        DeviceState::Connected | DeviceState::Active | DeviceState::Idle => true,
        _ => false,
    }
}

/// The humidity after a change, kept between 30 and 70.
pub fn next_humidity(current: u8, change: i8) -> (r: u8)
    ensures
        r == (if current + change < 30 {
            30
        } else if current + change > 70 {
            70
        } else {
            current + change
        }),
        30 <= r <= 70,
{
    let sum: i16 = current as i16 + change as i16;
    if sum < 30 {
        30
    } else if sum > 70 {
        70
    } else {
        sum as u8
    }
}

/// A humidity above 100 is refused.
pub fn check_humidity(humidity: u8) -> (r: Result<()>)
    ensures
        r is Ok <==> humidity <= 100,
        r matches Err(e) ==> (e matches DeviceError::InvalidValue(m) && m@
            == "Humidity out of range: "@ + decimal_of(humidity as nat)),
{
    if humidity > 100 {
        return Err(
            DeviceError::InvalidValue(
                join("Humidity out of range: ", u64_to_decimal(humidity as u64).as_str()),
            ),
        );
    }
    Ok(())
}

/// What writing a thermostat property does.
#[derive(Debug, PartialEq, Eq, Structural)]
pub enum ThermostatWrite {
    /// Set the target temperature to a float (its IEEE-754 bits)
    TargetFloat(u64),
    /// Set the target temperature to a whole number of degrees
    TargetInteger(i64),
    /// Set the mode
    Mode(ThermostatMode),
    /// Switch the fan
    Fan(bool),
    /// Pass the write on to the protocol
    Forward,
}

/// How a written property is understood.
pub fn plan_write(name: &str, value: &Value) -> (r: Result<ThermostatWrite>)
    ensures
        name@ == "targetTemperature"@ ==> match value@ {
            ValueModel::Float(f) => r == Ok::<ThermostatWrite, DeviceError>(ThermostatWrite::TargetFloat(f)),
            ValueModel::Integer(i) => r == Ok::<ThermostatWrite, DeviceError>(ThermostatWrite::TargetInteger(i)),
            _ => r matches Err(DeviceError::InvalidValue(m)) && m@ == "Invalid temperature value: "@
                + value_debug_text(value@),
        },
        name@ == "mode"@ ==> match value@ {
            ValueModel::String(s) => match mode_named(s) {
                Some(m) => r == Ok::<ThermostatWrite, DeviceError>(ThermostatWrite::Mode(m)),
                None => r matches Err(DeviceError::InvalidValue(m)) && m@ == "Invalid thermostat mode: "@
                    + s,
            },
            _ => r matches Err(DeviceError::InvalidValue(m)) && m@ == "Invalid thermostat mode: "@
                + value_debug_text(value@),
        },
        name@ == "fanOn"@ ==> match value@ {
            ValueModel::Bool(b) => r == Ok::<ThermostatWrite, DeviceError>(ThermostatWrite::Fan(b)),
            _ => r matches Err(DeviceError::InvalidValue(m)) && m@ == "Invalid fan state value: "@
                + value_debug_text(value@),
        },
        name@ != "targetTemperature"@ && name@ != "mode"@ && name@ != "fanOn"@ ==> r
            == Ok::<ThermostatWrite, DeviceError>(ThermostatWrite::Forward),
{
    proof {
        reveal_strlit("targetTemperature");
        reveal_strlit("mode");
        reveal_strlit("fanOn");
        crate::mechaflow_core::types::lemma_model_kinds(*value);
        assert("targetTemperature"@.len() == 17 && "mode"@.len() == 4 && "fanOn"@.len() == 5);
    }
    if str_eq(name, "targetTemperature") {
        match value {
            Value::Float(f) => Ok(ThermostatWrite::TargetFloat(*f)),
            Value::Integer(i) => Ok(ThermostatWrite::TargetInteger(*i)),
            _ => Err(
                DeviceError::InvalidValue(
                    join("Invalid temperature value: ", value_debug(value).as_str()),
                ),
            ),
        }
    } else if str_eq(name, "mode") {
        match ThermostatMode::from_value(value) {
            Ok(m) => Ok(ThermostatWrite::Mode(m)),
            Err(e) => Err(e),
        }
    } else if str_eq(name, "fanOn") {
        match value {
            Value::Bool(b) => Ok(ThermostatWrite::Fan(*b)),
            _ => Err(
                DeviceError::InvalidValue(join("Invalid fan state value: ", value_debug(value).as_str())),
            ),
        }
    } else {
        Ok(ThermostatWrite::Forward)
    }
}

/// What a thermostat command does.
#[derive(Debug, PartialEq, Eq, Structural)]
pub enum ThermostatCommand {
    /// Set the target temperature to a float (its IEEE-754 bits)
    SetTemperatureFloat(u64),
    /// Set the target temperature to a whole number of degrees
    SetTemperatureInteger(i64),
    /// Set the mode
    SetMode(ThermostatMode),
    /// Switch the fan
    SetFan(bool),
    /// Report the status
    GetStatus,
    /// Pass the command on to the protocol
    Forward,
}

/// The model of a parameter, if present.
pub open spec fn param(params: Map<Seq<char>, Value>, key: Seq<char>) -> Option<ValueModel> {
    if params.contains_key(key) {
        Some(params[key]@)
    } else {
        None
    }
}

/// How a command and its parameters are understood.
pub fn plan_command(command: &str, parameters: &StrMap<Value>) -> (r: Result<ThermostatCommand>)
    ensures
        command@ == "setTemperature"@ ==> match param(parameters@, "temperature"@) {
            Some(ValueModel::Float(f)) => r == Ok::<ThermostatCommand, DeviceError>(ThermostatCommand::SetTemperatureFloat(f)),
            Some(ValueModel::Integer(i)) => r == Ok::<ThermostatCommand, DeviceError>(ThermostatCommand::SetTemperatureInteger(i)),
            _ => r matches Err(DeviceError::MissingParameter(p)) && p@ == "temperature"@,
        },
        command@ == "setMode"@ ==> match param(parameters@, "mode"@) {
            Some(ValueModel::String(s)) => match mode_named(s) {
                Some(m) => r == Ok::<ThermostatCommand, DeviceError>(ThermostatCommand::SetMode(m)),
                None => r matches Err(e) && e is InvalidValue,
            },
            Some(_) => r matches Err(e) && e is InvalidValue,
            None => r matches Err(DeviceError::MissingParameter(p)) && p@ == "mode"@,
        },
        command@ == "setFan"@ ==> match param(parameters@, "on"@) {
            Some(ValueModel::Bool(b)) => r == Ok::<ThermostatCommand, DeviceError>(ThermostatCommand::SetFan(b)),
            _ => r matches Err(DeviceError::MissingParameter(p)) && p@ == "on"@,
        },
        command@ == "getStatus"@ ==> r == Ok::<ThermostatCommand, DeviceError>(ThermostatCommand::GetStatus),
        command@ != "setTemperature"@ && command@ != "setMode"@ && command@ != "setFan"@
            && command@ != "getStatus"@ ==> r == Ok::<ThermostatCommand, DeviceError>(ThermostatCommand::Forward),
{
    proof {
        reveal_strlit("setTemperature");
        reveal_strlit("setMode");
        reveal_strlit("setFan");
        reveal_strlit("getStatus");
        reveal_strlit("temperature");
        reveal_strlit("mode");
        reveal_strlit("on");
        assert("setTemperature"@.len() == 14 && "setMode"@.len() == 7 && "setFan"@.len() == 6
            && "getStatus"@.len() == 9);
    }
    if str_eq(command, "setTemperature") {
        match parameters.get("temperature") {
            Some(v) => {
                proof {
                    crate::mechaflow_core::types::lemma_model_kinds(*v);
                }
                match v {
                    Value::Float(f) => Ok(ThermostatCommand::SetTemperatureFloat(*f)),
                    Value::Integer(i) => Ok(ThermostatCommand::SetTemperatureInteger(*i)),
                    _ => Err(DeviceError::MissingParameter(owned("temperature"))),
                }
            },
            None => Err(DeviceError::MissingParameter(owned("temperature"))),
        }
    } else if str_eq(command, "setMode") {
        match parameters.get("mode") {
            Some(v) => match ThermostatMode::from_value(v) {
                Ok(m) => Ok(ThermostatCommand::SetMode(m)),
                Err(e) => Err(e),
            },
            None => Err(DeviceError::MissingParameter(owned("mode"))),
        }
    } else if str_eq(command, "setFan") {
        match parameters.get("on") {
            Some(v) => {
                proof {
                    crate::mechaflow_core::types::lemma_model_kinds(*v);
                }
                match v {
                    Value::Bool(b) => Ok(ThermostatCommand::SetFan(*b)),
                    _ => Err(DeviceError::MissingParameter(owned("on"))),
                }
            },
            None => Err(DeviceError::MissingParameter(owned("on"))),
        }
    } else if str_eq(command, "getStatus") {
        Ok(ThermostatCommand::GetStatus)
    } else {
        Ok(ThermostatCommand::Forward)
    }
}

} // verus!
