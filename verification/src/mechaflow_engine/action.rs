//! Actions that workflows run: their results, the device and variable
//! operations they stand for, and how a composite action combines the
//! outcomes of its members.
use vstd::prelude::*;

use crate::mechaflow_core::error::{join, owned};
use crate::mechaflow_core::types::{Id, Value, ValueModel};
use crate::mechaflow_devices::device::{value_debug, value_debug_text};
use crate::mechaflow_engine::error::{engine_error_text, Error, Result};
use crate::str_map::StrMap;
use crate::text::{join_all, join_texts};

verus! {

/// Result of executing an action
#[derive(Debug)]
pub enum ActionResult {
    /// Action executed successfully with a value
    Success(Value),
    /// Action executed successfully with no value
    Completed,
    /// Action execution failed
    Failure(String),
    /// Action execution timed out
    Timeout,
}

impl ActionResult {
    /// Check if the action executed successfully
    pub fn is_success(&self) -> (r: bool)
        ensures
            r == (*self is Success || *self is Completed),
    {
        match self {
            ActionResult::Success(_) | ActionResult::Completed => true,
            _ => false,
        }
    }

    /// Check if the action failed
    pub fn is_failure(&self) -> (r: bool)
        ensures
            r == (*self is Failure || *self is Timeout),
    {
        match self {
            ActionResult::Failure(_) | ActionResult::Timeout => true,
            _ => false,
        }
    }

    /// Get the value if successful
    pub fn value(&self) -> (r: Option<&Value>)
        ensures
            match *self {
                ActionResult::Success(v) => r == Some(&v),
                _ => r is None,
            },
    {
        match self {
            ActionResult::Success(v) => Some(v),
            _ => None,
        }
    }

    /// Copy of the result.
    pub fn duplicate(&self) -> (r: ActionResult)
        ensures
            match *self {
                ActionResult::Success(v) => r matches ActionResult::Success(w) && w@ == v@,
                ActionResult::Completed => r is Completed,
                ActionResult::Failure(m) => r matches ActionResult::Failure(n) && n@ == m@,
                ActionResult::Timeout => r is Timeout,
            },
            same_result(r, *self),
    {
        match self {
            ActionResult::Success(v) => ActionResult::Success(v.duplicate()),
            ActionResult::Completed => ActionResult::Completed,
            ActionResult::Failure(m) => ActionResult::Failure(m.clone()),
            ActionResult::Timeout => ActionResult::Timeout,
        }
    }

    /// Get the error message if failed
    pub fn error(&self) -> (r: Option<&str>)
        ensures
            match *self {
                ActionResult::Failure(m) => r matches Some(s) && s@ == m@,
                ActionResult::Timeout => r matches Some(s) && s@ == "Action execution timed out"@,
                _ => r is None,
            },
    {
        match self {
            ActionResult::Failure(m) => Some(m.as_str()),
            ActionResult::Timeout => Some("Action execution timed out"),
            _ => None,
        }
    }
}

/// Two results of the same kind with the same contents.
pub open spec fn same_result(a: ActionResult, b: ActionResult) -> bool {
    match (a, b) {
        (ActionResult::Success(v), ActionResult::Success(w)) => v@ == w@,
        (ActionResult::Completed, ActionResult::Completed) => true,
        (ActionResult::Failure(m), ActionResult::Failure(n)) => m@ == n@,
        (ActionResult::Timeout, ActionResult::Timeout) => true,
        _ => false,
    }
}

/// The text of an optional string.
pub open spec fn opt_text(s: Option<String>) -> Option<Seq<char>> {
    match s {
        Some(t) => Some(t@),
        None => None,
    }
}

/// What a device action asks of the device.
#[derive(Debug)]
pub enum DeviceOperation {
    /// Write a property
    WriteProperty {
        /// The device
        device_id: Id,
        /// The property
        property: String,
        /// The value written
        value: Value,
    },
    /// Execute a command
    ExecuteCommand {
        /// The device
        device_id: Id,
        /// The command
        command: String,
        /// The command parameters
        parameters: StrMap<Value>,
    },
}

/// A device action that controls a device
#[derive(Debug)]
pub struct DeviceAction {
    id: String,
    description: Option<String>,
    device_id: Id,
    action_type: String,
    target: String,
    value: Value,
    timeout_ms: Option<u64>,
}

impl DeviceAction {
    /// The action's identifier.
    pub closed spec fn id_spec(self) -> Seq<char> {
        self.id@
    }

    /// The device controlled.
    pub closed spec fn device_spec(self) -> Seq<char> {
        self.device_id@
    }

    /// The kind of control: "property" or "command".
    pub closed spec fn kind_spec(self) -> Seq<char> {
        self.action_type@
    }

    /// The property written or the command executed.
    pub closed spec fn target_spec(self) -> Seq<char> {
        self.target@
    }

    /// The value written or the command parameters.
    pub closed spec fn value_spec(self) -> ValueModel {
        self.value@
    }

    /// The timeout in milliseconds, if any.
    pub closed spec fn timeout_spec(self) -> Option<u64> {
        self.timeout_ms
    }

    /// Create a new device action
    pub fn new(id: &str, device_id: Id) -> (a: Self)
        ensures
            a.id_spec() == id@,
            a.device_spec() == device_id@,
            a.kind_spec() == "property"@,
            a.target_spec().len() == 0,
            a.value_spec() == ValueModel::Null,
            a.timeout_spec() is None,
    {
        proof {
            reveal_strlit("property");
            reveal_strlit("");
            crate::mechaflow_core::types::lemma_model_kinds(Value::Null);
        }
        DeviceAction {
            id: owned(id),
            description: None,
            device_id,
            action_type: owned("property"),
            target: owned(""),
            value: Value::Null,
            timeout_ms: None,
        }
    }

    /// Set the action description
    pub fn with_description(self, description: &str) -> (a: Self)
        ensures
            a.description_spec() == Some(description@),
            a.id_spec() == self.id_spec(),
            a.device_spec() == self.device_spec(),
            a.kind_spec() == self.kind_spec(),
            a.target_spec() == self.target_spec(),
            a.value_spec() == self.value_spec(),
            a.timeout_spec() == self.timeout_spec(),
    {
        let mut a = self;
        a.description = Some(owned(description));
        a
    }

    /// Set a property to write
    pub fn set_property(self, property: &str, value: Value) -> (a: Self)
        ensures
            a.kind_spec() == "property"@,
            a.target_spec() == property@,
            a.value_spec() == value@,
            a.id_spec() == self.id_spec(),
            a.device_spec() == self.device_spec(),
            a.timeout_spec() == self.timeout_spec(),
    {
        proof {
            reveal_strlit("property");
        }
        let mut a = self;
        a.action_type = owned("property");
        a.target = owned(property);
        a.value = value;
        a
    }

    /// Set a command to execute
    pub fn execute_command(self, command: &str, params: Value) -> (a: Self)
        ensures
            a.kind_spec() == "command"@,
            a.target_spec() == command@,
            a.value_spec() == params@,
            a.id_spec() == self.id_spec(),
            a.device_spec() == self.device_spec(),
            a.timeout_spec() == self.timeout_spec(),
    {
        proof {
            reveal_strlit("command");
        }
        let mut a = self;
        a.action_type = owned("command");
        a.target = owned(command);
        a.value = params;
        a
    }

    /// Set the timeout in milliseconds
    pub fn with_timeout(self, timeout_ms: u64) -> (a: Self)
        ensures
            a.timeout_spec() == Some(timeout_ms),
            a.id_spec() == self.id_spec(),
            a.device_spec() == self.device_spec(),
            a.kind_spec() == self.kind_spec(),
            a.target_spec() == self.target_spec(),
            a.value_spec() == self.value_spec(),
    {
        let mut a = self;
        a.timeout_ms = Some(timeout_ms);
        a
    }

    /// The action type
    pub fn action_type(&self) -> (r: &'static str)
        ensures
            r@ == "device"@,
    {
        "device"
    }

    /// The device operation this action performs: a property write, or a
    /// command whose parameters must be an object.
    pub fn operation(&self) -> (r: Result<DeviceOperation>)
        ensures
            self.kind_spec() == "property"@ ==> (r matches Ok(
                DeviceOperation::WriteProperty { device_id, property, value },
            ) && device_id@ == self.device_spec() && property@ == self.target_spec() && value@
                == self.value_spec()),
            self.kind_spec() == "command"@ && self.value_spec() is Object ==> (r matches Ok(
                DeviceOperation::ExecuteCommand { device_id, command, parameters },
            ) && device_id@ == self.device_spec() && command@ == self.target_spec()
                && ValueModel::Object(parameters@.map_values(|v: Value| v@)) == self.value_spec()),
            self.kind_spec() == "command"@ && !(self.value_spec() is Object) ==> (r matches Err(e)
                && e matches Error::Action(m) && m@ == "Command parameters must be an object, got "@
                + value_debug_text(self.value_spec())),
            self.kind_spec() != "property"@ && self.kind_spec() != "command"@ ==> (r matches Err(e)
                && e matches Error::Action(m) && m@ == "Unknown device action type: "@
                + self.kind_spec()),
    {
        proof {
            reveal_strlit("property");
            reveal_strlit("command");
            reveal_strlit("Unknown device action type: ");
            crate::mechaflow_core::types::lemma_model_kinds(self.value);
            assert("property"@.len() == 8 && "command"@.len() == 7);
            assert("property"@ != "command"@);
        }
        if crate::str_map::str_eq(self.action_type.as_str(), "property") {
            Ok(
                DeviceOperation::WriteProperty {
                    device_id: self.device_id.clone(),
                    property: self.target.clone(),
                    value: self.value.duplicate(),
                },
            )
        } else if crate::str_map::str_eq(self.action_type.as_str(), "command") {
            match &self.value {
                Value::Object(map) => {
                    let params = crate::mechaflow_devices::device::copy_values(map);
                    proof {
                        crate::mechaflow_core::types::lemma_model_object(*map);
                        crate::mechaflow_core::types::lemma_model_object(params);
                    }
                    let r = DeviceOperation::ExecuteCommand {
                        device_id: self.device_id.clone(),
                        command: self.target.clone(),
                        parameters: params,
                    };
                    proof {
                        assert(self.value == Value::Object(*map));
                        let x = self.value_spec()->Object_0;
                        assert(x.dom() == map@.dom());
                        assert(params@.map_values(|v: Value| v@) =~= x);
                        assert(self.kind_spec() == "command"@);
                    }
                    Ok(r)
                },
                _ => Err(
                    Error::Action(
                        join(
                            "Command parameters must be an object, got ",
                            value_debug(&self.value).as_str(),
                        ),
                    ),
                ),
            }
        } else {
            Err(Error::Action(join("Unknown device action type: ", self.action_type.as_str())))
        }
    }

    /// Get the action ID
    pub fn id(&self) -> (r: &str)
        ensures
            r@ == self.id_spec(),
    {
        self.id.as_str()
    }

    /// The description, if one was given.
    pub closed spec fn description_spec(self) -> Option<Seq<char>> {
        match self.description {
            Some(d) => Some(d@),
            None => None,
        }
    }

    /// Get the action description
    pub fn description(&self) -> (r: Option<&str>)
        ensures
            match r {
                Some(d) => self.description_spec() == Some(d@),
                None => self.description_spec() is None,
            },
    {
        match &self.description {
            Some(d) => Some(d.as_str()),
            None => None,
        }
    }
}


/// A variable action that sets a variable
#[derive(Debug)]
pub struct VariableAction {
    id: String,
    description: Option<String>,
    variable: String,
    value: Value,
}

impl VariableAction {
    /// The action's identifier.
    pub closed spec fn id_spec(self) -> Seq<char> {
        self.id@
    }

    /// The variable set.
    pub closed spec fn variable_spec(self) -> Seq<char> {
        self.variable@
    }

    /// The value the variable is set to.
    pub closed spec fn value_spec(self) -> ValueModel {
        self.value@
    }

    /// Create a new variable action
    pub fn new(id: &str, variable: &str, value: Value) -> (a: Self)
        ensures
            a.id_spec() == id@,
            a.variable_spec() == variable@,
            a.value_spec() == value@,
    {
        VariableAction { id: owned(id), description: None, variable: owned(variable), value }
    }

    /// Set the action description
    pub fn with_description(self, description: &str) -> (a: Self)
        ensures
            a.description_spec() == Some(description@),
            a.id_spec() == self.id_spec(),
            a.variable_spec() == self.variable_spec(),
            a.value_spec() == self.value_spec(),
    {
        let mut a = self;
        a.description = Some(owned(description));
        a
    }

    /// The action type
    pub fn action_type(&self) -> (r: &'static str)
        ensures
            r@ == "variable"@,
    {
        "variable"
    }

    /// The variable set
    pub fn variable(&self) -> (r: &str)
        ensures
            r@ == self.variable_spec(),
    {
        self.variable.as_str()
    }

    /// The value to set
    pub fn value(&self) -> (r: &Value)
        ensures
            r@ == self.value_spec(),
    {
        &self.value
    }

    /// Get the action ID
    pub fn id(&self) -> (r: &str)
        ensures
            r@ == self.id_spec(),
    {
        self.id.as_str()
    }

    /// The description, if one was given.
    pub closed spec fn description_spec(self) -> Option<Seq<char>> {
        match self.description {
            Some(d) => Some(d@),
            None => None,
        }
    }

    /// Get the action description
    pub fn description(&self) -> (r: Option<&str>)
        ensures
            match r {
                Some(d) => self.description_spec() == Some(d@),
                None => self.description_spec() is None,
            },
    {
        match &self.description {
            Some(d) => Some(d.as_str()),
            None => None,
        }
    }
}

/// A delay action that waits for a specified duration
#[derive(Debug)]
pub struct DelayAction {
    id: String,
    description: Option<String>,
    duration: std::time::Duration,
}

impl DelayAction {
    /// The action's identifier.
    pub closed spec fn id_spec(self) -> Seq<char> {
        self.id@
    }

    /// The time waited.
    pub closed spec fn duration_spec(self) -> std::time::Duration {
        self.duration
    }

    /// The action's description.
    pub closed spec fn description_spec(self) -> Option<Seq<char>> {
        opt_text(self.description)
    }

    /// Create a new delay action
    pub fn new(id: &str, duration: std::time::Duration) -> (a: Self)
        ensures
            a.id_spec() == id@,
            a.duration_spec() == duration,
            a.description_spec() is None,
    {
        DelayAction { id: owned(id), description: None, duration }
    }

    /// Set the action description
    pub fn with_description(self, description: &str) -> (a: Self)
        ensures
            a.description_spec() == Some(description@),
            a.id_spec() == self.id_spec(),
            a.duration_spec() == self.duration_spec(),
            a.description_spec() == Some(description@),
    {
        let mut a = self;
        a.description = Some(owned(description));
        a
    }

    /// The action type
    pub fn action_type(&self) -> (r: &'static str)
        ensures
            r@ == "delay"@,
    {
        "delay"
    }

    /// The time to wait
    pub fn duration(&self) -> (r: std::time::Duration)
        ensures
            r == self.duration_spec(),
    {
        self.duration
    }

    /// Get the action ID
    pub fn id(&self) -> (r: &str)
        ensures
            r@ == self.id_spec(),
    {
        self.id.as_str()
    }

    /// Get the action description
    pub fn description(&self) -> (r: Option<&str>)
        ensures
            match r {
                Some(d) => self.description_spec() == Some(d@),
                None => self.description_spec() is None,
            },
    {
        match &self.description {
            Some(d) => Some(d.as_str()),
            None => None,
        }
    }
}

/// Log levels
#[derive(Debug, Clone, Copy, PartialEq, Eq, Structural)]
pub enum LogLevel {
    /// Debug level
    Debug,
    /// Info level
    Info,
    /// Warning level
    Warn,
    /// Error level
    Error,
}

/// A log action that logs a message
#[derive(Debug)]
pub struct LogAction {
    id: String,
    description: Option<String>,
    level: LogLevel,
    message: String,
    values: StrMap<Value>,
}

impl LogAction {
    /// The action's identifier.
    pub closed spec fn id_spec(self) -> Seq<char> {
        self.id@
    }

    /// The level logged at.
    pub closed spec fn level_spec(self) -> LogLevel {
        self.level
    }

    /// The message logged.
    pub closed spec fn message_spec(self) -> Seq<char> {
        self.message@
    }

    /// The values logged with the message.
    pub closed spec fn values_spec(self) -> Map<Seq<char>, Value> {
        self.values@
    }

    /// Create a new log action
    pub fn new(id: &str, level: LogLevel, message: &str) -> (a: Self)
        ensures
            a.id_spec() == id@,
            a.level_spec() == level,
            a.message_spec() == message@,
            a.values_spec() == Map::<Seq<char>, Value>::empty(),
    {
        LogAction {
            id: owned(id),
            description: None,
            level,
            message: owned(message),
            values: StrMap::new(),
        }
    }

    /// Set the action description
    pub fn with_description(self, description: &str) -> (a: Self)
        ensures
            a.description_spec() == Some(description@),
            a.id_spec() == self.id_spec(),
            a.level_spec() == self.level_spec(),
            a.message_spec() == self.message_spec(),
            a.values_spec() == self.values_spec(),
    {
        let mut a = self;
        a.description = Some(owned(description));
        a
    }

    /// Add a value to include in the log
    pub fn add_value(self, key: &str, value: Value) -> (a: Self)
        ensures
            a.values_spec() == self.values_spec().insert(key@, value),
            a.id_spec() == self.id_spec(),
            a.level_spec() == self.level_spec(),
            a.message_spec() == self.message_spec(),
    {
        let mut a = self;
        a.values.insert(owned(key), value);
        a
    }

    /// The action type
    pub fn action_type(&self) -> (r: &'static str)
        ensures
            r@ == "log"@,
    {
        "log"
    }

    /// The level to log at
    pub fn level(&self) -> (r: LogLevel)
        ensures
            r == self.level_spec(),
    {
        self.level
    }

    /// The values to include
    pub fn values(&self) -> (r: &StrMap<Value>)
        ensures
            r@ == self.values_spec(),
    {
        &self.values
    }

    /// The line logged for a workflow: "[Workflow: NAME] MESSAGE".
    pub fn format_message(&self, workflow_name: &str) -> (r: String)
        ensures
            r@ == "[Workflow: "@ + workflow_name@ + "] "@ + self.message_spec(),
    {
        let a = join("[Workflow: ", workflow_name);
        let b = join(a.as_str(), "] ");
        join(b.as_str(), self.message.as_str())
    }

    /// Get the action ID
    pub fn id(&self) -> (r: &str)
        ensures
            r@ == self.id_spec(),
    {
        self.id.as_str()
    }

    /// The description, if one was given.
    pub closed spec fn description_spec(self) -> Option<Seq<char>> {
        match self.description {
            Some(d) => Some(d@),
            None => None,
        }
    }

    /// Get the action description
    pub fn description(&self) -> (r: Option<&str>)
        ensures
            match r {
                Some(d) => self.description_spec() == Some(d@),
                None => self.description_spec() is None,
            },
    {
        match &self.description {
            Some(d) => Some(d.as_str()),
            None => None,
        }
    }
}

/// Notification levels
#[derive(Debug, Clone, Copy, PartialEq, Eq, Structural)]
pub enum NotificationLevel {
    /// Info level
    Info,
    /// Warning level
    Warning,
    /// Error level
    Error,
    /// Critical level
    Critical,
}

/// A notification action that sends a notification
#[derive(Debug)]
pub struct NotificationAction {
    id: String,
    description: Option<String>,
    title: String,
    message: String,
    level: NotificationLevel,
    recipients: Vec<String>,
    data: StrMap<Value>,
}

impl NotificationAction {
    /// The action's identifier.
    pub closed spec fn id_spec(self) -> Seq<char> {
        self.id@
    }

    /// The notification title.
    pub closed spec fn title_spec(self) -> Seq<char> {
        self.title@
    }

    /// The notification message.
    pub closed spec fn message_spec(self) -> Seq<char> {
        self.message@
    }

    /// The notification level.
    pub closed spec fn level_spec(self) -> NotificationLevel {
        self.level
    }

    /// The recipients in the order they were added.
    pub closed spec fn recipients_spec(self) -> Seq<Seq<char>> {
        self.recipients@.map_values(|r: String| r@)
    }

    /// The additional data.
    pub closed spec fn data_spec(self) -> Map<Seq<char>, Value> {
        self.data@
    }

    /// Create a new notification action
    pub fn new(id: &str, title: &str, message: &str, level: NotificationLevel) -> (a: Self)
        ensures
            a.id_spec() == id@,
            a.title_spec() == title@,
            a.message_spec() == message@,
            a.level_spec() == level,
            a.recipients_spec().len() == 0,
            a.data_spec() == Map::<Seq<char>, Value>::empty(),
    {
        let a = NotificationAction {
            id: owned(id),
            description: None,
            title: owned(title),
            message: owned(message),
            level,
            recipients: Vec::new(),
            data: StrMap::new(),
        };
        assert(a.recipients_spec() =~= Seq::empty());
        a
    }

    /// Set the action description
    pub fn with_description(self, description: &str) -> (a: Self)
        ensures
            a.description_spec() == Some(description@),
            a.id_spec() == self.id_spec(),
            a.title_spec() == self.title_spec(),
            a.message_spec() == self.message_spec(),
            a.level_spec() == self.level_spec(),
            a.recipients_spec() == self.recipients_spec(),
            a.data_spec() == self.data_spec(),
    {
        let mut a = self;
        a.description = Some(owned(description));
        a
    }

    /// Add a recipient
    pub fn add_recipient(self, recipient: &str) -> (a: Self)
        ensures
            a.recipients_spec() == self.recipients_spec().push(recipient@),
            a.id_spec() == self.id_spec(),
            a.title_spec() == self.title_spec(),
            a.message_spec() == self.message_spec(),
            a.level_spec() == self.level_spec(),
            a.data_spec() == self.data_spec(),
    {
        let mut a = self;
        a.recipients.push(owned(recipient));
        assert(a.recipients_spec() =~= self.recipients_spec().push(recipient@));
        a
    }

    /// Add additional data
    pub fn add_data(self, key: &str, value: Value) -> (a: Self)
        ensures
            a.data_spec() == self.data_spec().insert(key@, value),
            a.id_spec() == self.id_spec(),
            a.title_spec() == self.title_spec(),
            a.message_spec() == self.message_spec(),
            a.level_spec() == self.level_spec(),
            a.recipients_spec() == self.recipients_spec(),
    {
        let mut a = self;
        a.data.insert(owned(key), value);
        a
    }

    /// The action type
    pub fn action_type(&self) -> (r: &'static str)
        ensures
            r@ == "notification"@,
    {
        "notification"
    }

    /// The notification title
    pub fn title(&self) -> (r: &str)
        ensures
            r@ == self.title_spec(),
    {
        self.title.as_str()
    }

    /// The notification message
    pub fn message(&self) -> (r: &str)
        ensures
            r@ == self.message_spec(),
    {
        self.message.as_str()
    }

    /// The notification level
    pub fn level(&self) -> (r: NotificationLevel)
        ensures
            r == self.level_spec(),
    {
        self.level
    }

    /// The recipients
    pub fn recipients(&self) -> (r: &[String])
        ensures
            r@.map_values(|x: String| x@) == self.recipients_spec(),
    {
        self.recipients.as_slice()
    }

    /// The additional data
    pub fn data(&self) -> (r: &StrMap<Value>)
        ensures
            r@ == self.data_spec(),
    {
        &self.data
    }

    /// Get the action ID
    pub fn id(&self) -> (r: &str)
        ensures
            r@ == self.id_spec(),
    {
        self.id.as_str()
    }

    /// The description, if one was given.
    pub closed spec fn description_spec(self) -> Option<Seq<char>> {
        match self.description {
            Some(d) => Some(d@),
            None => None,
        }
    }

    /// Get the action description
    pub fn description(&self) -> (r: Option<&str>)
        ensures
            match r {
                Some(d) => self.description_spec() == Some(d@),
                None => self.description_spec() is None,
            },
    {
        match &self.description {
            Some(d) => Some(d.as_str()),
            None => None,
        }
    }
}


/// Whether an action outcome counts as a failure.
pub open spec fn outcome_failed(o: Result<ActionResult>) -> bool {
    match o {
        Ok(r) => r is Failure || r is Timeout,
        Err(_) => true,
    }
}

/// The message an outcome contributes to a composite failure: that of a
/// failure result or of an error; a timeout contributes none.
pub open spec fn failure_message(o: Result<ActionResult>) -> Seq<Seq<char>> {
    match o {
        Ok(ActionResult::Failure(m)) => seq![m@],
        Err(e) => seq![engine_error_text(e)],
        _ => Seq::empty(),
    }
}

/// Progress of running the members of a composite action.
#[derive(Debug)]
pub struct CompositeRun {
    messages: Vec<String>,
    success: bool,
}

impl CompositeRun {
    /// The failure messages collected so far.
    pub closed spec fn messages_spec(self) -> Seq<Seq<char>> {
        self.messages@.map_values(|m: String| m@)
    }

    /// Whether every outcome so far succeeded.
    pub closed spec fn success_spec(self) -> bool {
        self.success
    }
}

/// A composite action that executes its members in order; `A` is the
/// handle of a member action.
#[derive(Debug)]
pub struct CompositeAction<A> {
    id: String,
    description: Option<String>,
    actions: Vec<A>,
    continue_on_failure: bool,
}

impl<A> CompositeAction<A> {
    /// The action's identifier.
    pub closed spec fn id_spec(self) -> Seq<char> {
        self.id@
    }

    /// The members in order.
    pub closed spec fn actions_spec(self) -> Seq<A> {
        self.actions@
    }

    /// Whether the remaining members run after a failure.
    pub closed spec fn continue_spec(self) -> bool {
        self.continue_on_failure
    }

    /// Create a new composite action
    pub fn new(id: &str) -> (a: Self)
        ensures
            a.id_spec() == id@,
            a.actions_spec().len() == 0,
            !a.continue_spec(),
    {
        CompositeAction {
            id: owned(id),
            description: None,
            actions: Vec::new(),
            continue_on_failure: false,
        }
    }

    /// Set the action description
    pub fn with_description(self, description: &str) -> (a: Self)
        ensures
            a.description_spec() == Some(description@),
            a.id_spec() == self.id_spec(),
            a.actions_spec() == self.actions_spec(),
            a.continue_spec() == self.continue_spec(),
    {
        let mut a = self;
        a.description = Some(owned(description));
        a
    }

    /// Add an action
    pub fn add_action(self, action: A) -> (a: Self)
        ensures
            a.actions_spec() == self.actions_spec().push(action),
            a.id_spec() == self.id_spec(),
            a.continue_spec() == self.continue_spec(),
    {
        let mut a = self;
        a.actions.push(action);
        a
    }

    /// Set whether to continue on failure
    pub fn continue_on_failure(self, continue_on_failure: bool) -> (a: Self)
        ensures
            a.continue_spec() == continue_on_failure,
            a.id_spec() == self.id_spec(),
            a.actions_spec() == self.actions_spec(),
    {
        let mut a = self;
        a.continue_on_failure = continue_on_failure;
        a
    }

    /// The members in order
    pub fn actions(&self) -> (r: &[A])
        ensures
            r@ == self.actions_spec(),
    {
        self.actions.as_slice()
    }

    /// The action type
    pub fn action_type(&self) -> (r: &'static str)
        ensures
            r@ == "composite"@,
    {
        "composite"
    }

    /// Begin running the members.
    pub fn start(&self) -> (run: CompositeRun)
        ensures
            run.success_spec(),
            run.messages_spec().len() == 0,
    {
        let run = CompositeRun { messages: Vec::new(), success: true };
        assert(run.messages_spec() =~= Seq::empty());
        run
    }

    /// Take in the outcome of the next member. Without `continue_on_failure`
    /// a failed outcome ends the run and is returned as the composite's
    /// outcome; otherwise the run goes on.
    pub fn record(&self, run: &mut CompositeRun, outcome: Result<ActionResult>) -> (stop: Option<
        Result<ActionResult>,
    >)
        ensures
            !self.continue_spec() && outcome_failed(outcome) ==> stop == Some(outcome),
            self.continue_spec() || !outcome_failed(outcome) ==> stop is None
                && final(run).success_spec() == (old(run).success_spec() && !outcome_failed(
                outcome,
            )) && final(run).messages_spec() == old(run).messages_spec() + failure_message(
                outcome,
            ),
    {
        let failed = match &outcome {
            Ok(r) => r.is_failure(),
            Err(_) => true,
        };
        if failed && !self.continue_on_failure {
            return Some(outcome);
        }
        let ghost before = run.messages_spec();
        match &outcome {
            Ok(ActionResult::Failure(m)) => {
                run.messages.push(m.clone());
            },
            Err(e) => {
                run.messages.push(e.to_string());
            },
            _ => {},
        }
        if failed {
            run.success = false;
        }
        proof {
            assert(run.messages_spec() =~= before + failure_message(outcome));
        }
        None
    }

    /// The composite's outcome once every member ran: completed if all
    /// succeeded, otherwise a failure listing the collected messages.
    pub fn finish(&self, run: CompositeRun) -> (r: ActionResult)
        ensures
            run.success_spec() ==> r is Completed,
            !run.success_spec() ==> (r matches ActionResult::Failure(m) && m@
                == "One or more actions failed: "@ + join_texts(run.messages_spec(), ", "@)),
    {
        if run.success {
            ActionResult::Completed
        } else {
            let joined = join_all(&run.messages, ", ");
            ActionResult::Failure(join("One or more actions failed: ", joined.as_str()))
        }
    }

    /// Get the action ID
    pub fn id(&self) -> (r: &str)
        ensures
            r@ == self.id_spec(),
    {
        self.id.as_str()
    }

    /// The description, if one was given.
    pub closed spec fn description_spec(self) -> Option<Seq<char>> {
        match self.description {
            Some(d) => Some(d@),
            None => None,
        }
    }

    /// Get the action description
    pub fn description(&self) -> (r: Option<&str>)
        ensures
            match r {
                Some(d) => self.description_spec() == Some(d@),
                None => self.description_spec() is None,
            },
    {
        match &self.description {
            Some(d) => Some(d.as_str()),
            None => None,
        }
    }
}

} // verus!
