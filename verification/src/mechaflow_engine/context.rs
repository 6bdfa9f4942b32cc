//! Workflow execution contexts: the variables a workflow reads and writes,
//! a context that remembers a previous state, and a sandbox that simulates
//! devices and logs every operation.
use vstd::prelude::*;

use crate::mechaflow_core::error::owned;
use crate::mechaflow_core::types::{lemma_model_kinds, Id, Value, ValueModel};
use crate::mechaflow_devices::device::copy_values;
use crate::mechaflow_engine::error::{Error, Result};
use crate::str_map::StrMap;

verus! {

/// The model of a variable or property as read: the stored value, or null
/// where there is none.
pub open spec fn lookup_or_null(m: Map<Seq<char>, Value>, k: Seq<char>) -> ValueModel {
    if m.contains_key(k) {
        m[k]@
    } else {
        ValueModel::Null
    }
}

/// Copy of a map of values (each value copied deeply).
fn copy_map(m: &StrMap<Value>) -> (r: StrMap<Value>)
    ensures
        r@.dom() == m@.dom(),
        forall|k: Seq<char>| #[trigger] r@.contains_key(k) ==> r@[k]@ == m@[k]@,
{
    copy_values(m)
}

/// A basic workflow context: workflow variables next to a handle `R` on the
/// device registry through which the caller reaches devices.
#[derive(Debug)]
pub struct BasicWorkflowContext<R> {
    device_registry: R,
    variables: StrMap<Value>,
}

impl<R> BasicWorkflowContext<R> {
    /// The workflow variables.
    pub closed spec fn variables_spec(self) -> Map<Seq<char>, Value> {
        self.variables@
    }

    /// The registry handle.
    pub closed spec fn registry_spec(self) -> R {
        self.device_registry
    }

    /// Create a new basic workflow context
    pub fn new(device_registry: R) -> (c: Self)
        ensures
            c.variables_spec() == Map::<Seq<char>, Value>::empty(),
            c.registry_spec() == device_registry,
    {
        BasicWorkflowContext { device_registry, variables: StrMap::new() }
    }

    /// Create a new basic workflow context with initial variables
    pub fn with_variables(device_registry: R, variables: StrMap<Value>) -> (c: Self)
        ensures
            c.variables_spec() == variables@,
            c.registry_spec() == device_registry,
    {
        BasicWorkflowContext { device_registry, variables }
    }

    /// The device registry handle
    pub fn device_registry(&self) -> (r: &R)
        ensures
            *r == self.registry_spec(),
    {
        &self.device_registry
    }

    /// Replace the variables
    pub fn init_variables(&mut self, variables: StrMap<Value>)
        ensures
            final(self).variables_spec() == variables@,
            final(self).registry_spec() == old(self).registry_spec(),
    {
        self.variables = variables;
    }

    /// Clear all variables
    pub fn clear_variables(&mut self)
        ensures
            final(self).variables_spec() == Map::<Seq<char>, Value>::empty(),
            final(self).registry_spec() == old(self).registry_spec(),
    {
        self.variables = StrMap::new();
    }

    /// Get a variable; a missing variable reads as null
    pub fn get_variable(&self, name: &str) -> (r: Result<Value>)
        ensures
            r matches Ok(v) && v@ == lookup_or_null(self.variables_spec(), name@),
    {
        match self.variables.get(name) {
            Some(v) => Ok(v.duplicate()),
            None => {
                proof {
                    lemma_model_kinds(Value::Null);
                }
                Ok(Value::Null)
            },
        }
    }

    /// Set a variable
    pub fn set_variable(&mut self, name: &str, value: Value) -> (r: Result<()>)
        ensures
            r is Ok,
            final(self).variables_spec() == old(self).variables_spec().insert(name@, value),
            final(self).registry_spec() == old(self).registry_spec(),
    {
        self.variables.insert(owned(name), value);
        Ok(())
    }

    /// Get all variables
    pub fn get_variables(&self) -> (r: Result<StrMap<Value>>)
        ensures
            r matches Ok(m) && m@.dom() == self.variables_spec().dom() && forall|k: Seq<char>|
                #[trigger] m@.contains_key(k) ==> m@[k]@ == self.variables_spec()[k]@,
    {
        Ok(copy_map(&self.variables))
    }
}

/// A workflow context with access to the workflow's previous state; `C` is
/// the handle of the context it wraps.
#[derive(Debug)]
pub struct StatefulWorkflowContext<C> {
    inner: C,
    previous_state: StrMap<Value>,
}

impl<C> StatefulWorkflowContext<C> {
    /// The wrapped context.
    pub closed spec fn inner_spec(self) -> C {
        self.inner
    }

    /// The previous state.
    pub closed spec fn previous_spec(self) -> Map<Seq<char>, Value> {
        self.previous_state@
    }

    /// Create a new stateful workflow context
    pub fn new(inner: C, previous_state: StrMap<Value>) -> (c: Self)
        ensures
            c.inner_spec() == inner,
            c.previous_spec() == previous_state@,
    {
        StatefulWorkflowContext { inner, previous_state }
    }

    /// The wrapped context
    pub fn inner(&self) -> (r: &C)
        ensures
            *r == self.inner_spec(),
    {
        &self.inner
    }

    /// Get the previous state
    pub fn previous_state(&self) -> (r: &StrMap<Value>)
        ensures
            r@ == self.previous_spec(),
    {
        &self.previous_state
    }

    /// Get a value from the previous state
    pub fn get_previous_state(&self, name: &str) -> (r: Option<&Value>)
        ensures
            match r {
                Some(v) => self.previous_spec().contains_key(name@) && *v
                    == self.previous_spec()[name@],
                None => !self.previous_spec().contains_key(name@),
            },
    {
        self.previous_state.get(name)
    }
}

/// An operation performed in the sandbox
#[derive(Debug)]
pub enum SandboxOperation {
    /// Read property
    ReadProperty {
        /// Device ID
        device_id: Id,
        /// Property name
        property: String,
        /// Value read
        value: Value,
    },
    /// Write property
    WriteProperty {
        /// Device ID
        device_id: Id,
        /// Property name
        property: String,
        /// Value written
        value: Value,
    },
    /// Execute command
    ExecuteCommand {
        /// Device ID
        device_id: Id,
        /// Command name
        command: String,
        /// Command parameters
        parameters: StrMap<Value>,
        /// Command result
        result: Value,
    },
    /// Get variable
    GetVariable {
        /// Variable name
        name: String,
        /// Variable value
        value: Value,
    },
    /// Set variable
    SetVariable {
        /// Variable name
        name: String,
        /// Variable value
        value: Value,
    },
}

/// The property `p` of device `d` as the sandbox reads it.
pub open spec fn sandbox_lookup(
    props: Map<Seq<char>, Map<Seq<char>, Value>>,
    d: Seq<char>,
    p: Seq<char>,
) -> ValueModel {
    if props.contains_key(d) {
        lookup_or_null(props[d], p)
    } else {
        ValueModel::Null
    }
}

/// The device properties after writing `v` to property `p` of device `d`.
pub open spec fn sandbox_write(
    props: Map<Seq<char>, Map<Seq<char>, Value>>,
    d: Seq<char>,
    p: Seq<char>,
    v: Value,
) -> Map<Seq<char>, Map<Seq<char>, Value>> {
    let device = if props.contains_key(d) {
        props[d]
    } else {
        Map::empty()
    };
    props.insert(d, device.insert(p, v))
}

/// A sandbox workflow context that simulates operations
#[derive(Debug)]
pub struct SandboxWorkflowContext {
    device_properties: StrMap<StrMap<Value>>,
    variables: StrMap<Value>,
    operations_log: Vec<SandboxOperation>,
}

impl SandboxWorkflowContext {
    /// The simulated device properties, by device.
    pub closed spec fn properties_spec(self) -> Map<Seq<char>, Map<Seq<char>, Value>> {
        self.device_properties@.map_values(|m: StrMap<Value>| m@)
    }

    /// The variables.
    pub closed spec fn variables_spec(self) -> Map<Seq<char>, Value> {
        self.variables@
    }

    /// The operations performed, oldest first.
    pub closed spec fn log_spec(self) -> Seq<SandboxOperation> {
        self.operations_log@
    }

    /// Create a new sandbox workflow context
    pub fn new() -> (c: Self)
        ensures
            c.properties_spec() == Map::<Seq<char>, Map<Seq<char>, Value>>::empty(),
            c.variables_spec() == Map::<Seq<char>, Value>::empty(),
            c.log_spec().len() == 0,
    {
        let c = SandboxWorkflowContext {
            device_properties: StrMap::new(),
            variables: StrMap::new(),
            operations_log: Vec::new(),
        };
        assert(c.properties_spec() =~= Map::<Seq<char>, Map<Seq<char>, Value>>::empty());
        c
    }

    /// Set the properties of a simulated device
    pub fn set_device_properties(&mut self, device_id: Id, properties: StrMap<Value>)
        ensures
            final(self).properties_spec() == old(self).properties_spec().insert(
                device_id@,
                properties@,
            ),
            final(self).variables_spec() == old(self).variables_spec(),
            final(self).log_spec() == old(self).log_spec(),
    {
        self.device_properties.insert(owned(device_id.as_str()), properties);
        proof {
            assert(self.properties_spec() =~= old(self).properties_spec().insert(
                device_id@,
                properties@,
            ));
        }
    }

    /// Replace the variables
    pub fn set_variables(&mut self, variables: StrMap<Value>)
        ensures
            final(self).variables_spec() == variables@,
            final(self).properties_spec() == old(self).properties_spec(),
            final(self).log_spec() == old(self).log_spec(),
    {
        self.variables = variables;
    }

    /// Get the operations log
    pub fn get_operations_log(&self) -> (r: &[SandboxOperation])
        ensures
            r@ == self.log_spec(),
    {
        self.operations_log.as_slice()
    }

    /// Clear the operations log
    pub fn clear_operations_log(&mut self)
        ensures
            final(self).log_spec().len() == 0,
            final(self).properties_spec() == old(self).properties_spec(),
            final(self).variables_spec() == old(self).variables_spec(),
    {
        self.operations_log = Vec::new();
    }

    /// Read a simulated property (null where there is none) and log it
    pub fn read_property(&mut self, device_id: &Id, property: &str) -> (r: Result<Value>)
        ensures
            r matches Ok(v) && v@ == sandbox_lookup(old(self).properties_spec(), device_id@, property@),
            final(self).properties_spec() == old(self).properties_spec(),
            final(self).variables_spec() == old(self).variables_spec(),
            final(self).log_spec().len() == old(self).log_spec().len() + 1,
            final(self).log_spec().drop_last() == old(self).log_spec(),
            final(self).log_spec().last() matches SandboxOperation::ReadProperty {
                device_id: d,
                property: p,
                value: v,
            } && d@ == device_id@ && p@ == property@ && v@ == sandbox_lookup(
                old(self).properties_spec(),
                device_id@,
                property@,
            ),
    {
        proof {
            lemma_model_kinds(Value::Null);
        }
        let value = match self.device_properties.get(device_id.as_str()) {
            Some(props) => match props.get(property) {
                Some(v) => v.duplicate(),
                None => Value::Null,
            },
            None => Value::Null,
        };
        let logged = value.duplicate();
        self.operations_log.push(
            SandboxOperation::ReadProperty {
                device_id: device_id.clone(),
                property: owned(property),
                value: logged,
            },
        );
        Ok(value)
    }

    /// Write a simulated property and log it
    pub fn write_property(&mut self, device_id: &Id, property: &str, value: Value) -> (r: Result<()>)
        ensures
            r is Ok,
            final(self).properties_spec().dom() == sandbox_write(
                old(self).properties_spec(),
                device_id@,
                property@,
                value,
            ).dom(),
            forall|d: Seq<char>, p: Seq<char>|
                #[trigger] sandbox_lookup(final(self).properties_spec(), d, p) == sandbox_lookup(
                    sandbox_write(old(self).properties_spec(), device_id@, property@, value),
                    d,
                    p,
                ),
            final(self).variables_spec() == old(self).variables_spec(),
            final(self).log_spec().len() == old(self).log_spec().len() + 1,
            final(self).log_spec().drop_last() == old(self).log_spec(),
            final(self).log_spec().last() matches SandboxOperation::WriteProperty {
                device_id: d,
                property: p,
                value: v,
            } && d@ == device_id@ && p@ == property@ && v@ == value@,
    {
        let logged = value.duplicate();
        let key = owned(device_id.as_str());
        let mut device: StrMap<Value> = match self.device_properties.remove(device_id.as_str()) {
            Some(m) => m,
            None => StrMap::new(),
        };
        device.insert(owned(property), value);
        self.device_properties.insert(key, device);
        proof {
            let want = sandbox_write(old(self).properties_spec(), device_id@, property@, value);
            assert(self.properties_spec() =~= want);
        }
        self.operations_log.push(
            SandboxOperation::WriteProperty {
                device_id: device_id.clone(),
                property: owned(property),
                value: logged,
            },
        );
        Ok(())
    }

    /// Simulate a command: its result is an object holding the parameters
    pub fn execute_command(&mut self, device_id: &Id, command: &str, parameters: StrMap<Value>) -> (r:
        Result<Value>)
        ensures
            r matches Ok(v) && v is Object && v->Object_0@.dom() == parameters@.dom()
                && forall|k: Seq<char>| #[trigger]
                v->Object_0@.contains_key(k) ==> v->Object_0@[k]@ == parameters@[k]@,
            final(self).properties_spec() == old(self).properties_spec(),
            final(self).variables_spec() == old(self).variables_spec(),
            final(self).log_spec().len() == old(self).log_spec().len() + 1,
            final(self).log_spec().drop_last() == old(self).log_spec(),
            final(self).log_spec().last() matches SandboxOperation::ExecuteCommand {
                device_id: d,
                command: c,
                ..
            } && d@ == device_id@ && c@ == command@,
    {
        let result = Value::Object(copy_map(&parameters));
        let logged = result.duplicate();
        self.operations_log.push(
            SandboxOperation::ExecuteCommand {
                device_id: device_id.clone(),
                command: owned(command),
                parameters,
                result: logged,
            },
        );
        Ok(result)
    }

    /// There are no real devices in the sandbox
    pub fn get_device(&self, device_id: &Id) -> (r: Result<()>)
        ensures
            r matches Err(e) && e matches Error::NotFound(m) && m@
                == "Device not available in sandbox mode"@,
    {
        proof {
            reveal_strlit("Device not available in sandbox mode");
        }
        Err(Error::not_found("Device not available in sandbox mode"))
    }

    /// Get a variable (null where there is none) and log it
    pub fn get_variable(&mut self, name: &str) -> (r: Result<Value>)
        ensures
            r matches Ok(v) && v@ == lookup_or_null(old(self).variables_spec(), name@),
            final(self).properties_spec() == old(self).properties_spec(),
            final(self).variables_spec() == old(self).variables_spec(),
            final(self).log_spec().len() == old(self).log_spec().len() + 1,
            final(self).log_spec().drop_last() == old(self).log_spec(),
            final(self).log_spec().last() matches SandboxOperation::GetVariable { name: n, value: v }
                && n@ == name@ && v@ == lookup_or_null(old(self).variables_spec(), name@),
    {
        proof {
            lemma_model_kinds(Value::Null);
        }
        let value = match self.variables.get(name) {
            Some(v) => v.duplicate(),
            None => Value::Null,
        };
        let logged = value.duplicate();
        self.operations_log.push(SandboxOperation::GetVariable { name: owned(name), value: logged });
        Ok(value)
    }

    /// Set a variable and log it
    pub fn set_variable(&mut self, name: &str, value: Value) -> (r: Result<()>)
        ensures
            r is Ok,
            final(self).variables_spec() == old(self).variables_spec().insert(name@, value),
            final(self).properties_spec() == old(self).properties_spec(),
            final(self).log_spec().len() == old(self).log_spec().len() + 1,
            final(self).log_spec().drop_last() == old(self).log_spec(),
            final(self).log_spec().last() matches SandboxOperation::SetVariable { name: n, value: v }
                && n@ == name@ && v@ == value@,
    {
        let logged = value.duplicate();
        self.variables.insert(owned(name), value);
        self.operations_log.push(SandboxOperation::SetVariable { name: owned(name), value: logged });
        Ok(())
    }

    /// Get all variables
    pub fn get_variables(&self) -> (r: Result<StrMap<Value>>)
        ensures
            r matches Ok(m) && m@.dom() == self.variables_spec().dom() && forall|k: Seq<char>|
                #[trigger] m@.contains_key(k) ==> m@[k]@ == self.variables_spec()[k]@,
    {
        Ok(copy_map(&self.variables))
    }
}

/// Reading a property of the sandbox gives back what was last written to
/// it, and writing one property leaves every other property as it was.
pub proof fn lemma_sandbox_read_after_write(
    props: Map<Seq<char>, Map<Seq<char>, Value>>,
    d: Seq<char>,
    p: Seq<char>,
    v: Value,
    d2: Seq<char>,
    p2: Seq<char>,
)
    ensures
        sandbox_lookup(sandbox_write(props, d, p, v), d, p) == v@,
        (d2, p2) != (d, p) ==> sandbox_lookup(sandbox_write(props, d, p, v), d2, p2)
            == sandbox_lookup(props, d2, p2),
{
}

/// Reading a variable gives back what was last set.
pub proof fn lemma_variable_read_after_write(
    vars: Map<Seq<char>, Value>,
    name: Seq<char>,
    v: Value,
    other: Seq<char>,
)
    ensures
        lookup_or_null(vars.insert(name, v), name) == v@,
        other != name ==> lookup_or_null(vars.insert(name, v), other) == lookup_or_null(vars, other),
{
}

} // verus!
