//! Workflows: triggers, conditions and actions with their settings and
//! execution statistics, and the decisions taken while processing an event
//! and executing the actions.
use vstd::prelude::*;

use crate::mechaflow_core::error::{join, owned};
use crate::mechaflow_core::types::{Id, Timestamp, Value};
use crate::mechaflow_engine::action::ActionResult;
use crate::mechaflow_engine::condition::{and_step, JunctionStep};
use crate::mechaflow_engine::error::{engine_error_text, Error, Result};
use crate::str_map::StrMap;

verus! {

/// Workflow identifier
#[derive(Debug, Hash)]
pub struct WorkflowId(Id);

impl View for WorkflowId {
    type V = Seq<char>;

    closed spec fn view(&self) -> Seq<char> {
        self.0@
    }
}

impl WorkflowId {
    /// Create a new random workflow ID
    pub fn new() -> (r: Self)
        ensures
            r@.len() == 36,
    {
        WorkflowId(Id::new())
    }

    /// Create a workflow ID from a string
    pub fn from_string(s: &str) -> (r: Self)
        ensures
            r@ == s@,
    {
        WorkflowId(Id::from_string(s))
    }

    /// Get the inner ID
    pub fn inner(&self) -> (r: &Id)
        ensures
            r@ == self@,
    {
        &self.0
    }

    /// The identifier as text.
    pub fn to_string(&self) -> (r: String)
        ensures
            r@ == self@,
    {
        owned(self.0.as_str())
    }
}

impl Clone for WorkflowId {
    fn clone(&self) -> (r: Self)
        ensures
            r@ == self@,
    {
        WorkflowId(self.0.clone())
    }
}

impl PartialEq for WorkflowId {
    fn eq(&self, other: &Self) -> (r: bool) {
        self.0.same(&other.0)
    }
}

impl vstd::std_specs::cmp::PartialEqSpecImpl for WorkflowId {
    open spec fn obeys_eq_spec() -> bool {
        true
    }

    open spec fn eq_spec(&self, other: &WorkflowId) -> bool {
        self@ == other@
    }
}

impl Eq for WorkflowId {
}

impl Default for WorkflowId {
    fn default() -> (r: Self)
        ensures
            r@.len() == 36,
    {
        WorkflowId::new()
    }
}

/// Workflow execution statistics
#[derive(Debug, Clone, Copy, PartialEq, Eq, Structural)]
pub struct WorkflowStats {
    /// Number of times the workflow has been triggered
    pub triggered_count: u64,
    /// Number of times the conditions were met
    pub conditions_met_count: u64,
    /// Number of times the workflow was executed
    pub executed_count: u64,
    /// Number of successful executions
    pub success_count: u64,
    /// Number of failed executions
    pub failure_count: u64,
    /// Total execution time in milliseconds
    pub total_execution_time_ms: u64,
    /// Last execution time
    pub last_execution_time: Option<Timestamp>,
    /// Last successful execution time
    pub last_success_time: Option<Timestamp>,
    /// Last failure time
    pub last_failure_time: Option<Timestamp>,
}

impl WorkflowStats {
    /// Statistics of a workflow that never ran.
    pub open spec fn zero() -> WorkflowStats {
        WorkflowStats {
            triggered_count: 0,
            conditions_met_count: 0,
            executed_count: 0,
            success_count: 0,
            failure_count: 0,
            total_execution_time_ms: 0,
            last_execution_time: None,
            last_success_time: None,
            last_failure_time: None,
        }
    }

    /// Statistics of a workflow that never ran
    pub fn new() -> (s: Self)
        ensures
            s == WorkflowStats::zero(),
    {
        WorkflowStats {
            triggered_count: 0,
            conditions_met_count: 0,
            executed_count: 0,
            success_count: 0,
            failure_count: 0,
            total_execution_time_ms: 0,
            last_execution_time: None,
            last_success_time: None,
            last_failure_time: None,
        }
    }
}

impl Default for WorkflowStats {
    fn default() -> (s: Self)
        ensures
            s == WorkflowStats::zero(),
    {
        WorkflowStats::new()
    }
}

/// The next step of finding whether any of `n` members holds, given the
/// outcomes so far: the first true outcome decides; all false, or no
/// members, is false.
pub open spec fn any_step(n: nat, outcomes: Seq<bool>) -> JunctionStep {
    if outcomes.len() > 0 && outcomes.last() {
        JunctionStep::Done(true)
    } else if outcomes.len() >= n {
        JunctionStep::Done(false)
    } else {
        JunctionStep::Evaluate(outcomes.len() as usize)
    }
}

/// One more, stopping at the largest count.
pub open spec fn bump(n: u64) -> u64 {
    if n < u64::MAX {
        (n + 1) as u64
    } else {
        n
    }
}

/// The text of an optional string.
pub open spec fn opt_text(s: Option<String>) -> Option<Seq<char>> {
    match s {
        Some(t) => Some(t@),
        None => None,
    }
}

/// What a scheduler needs to know of a workflow.
#[derive(Debug)]
pub struct WorkflowInfo {
    /// The workflow's identifier
    pub id: WorkflowId,
    /// The workflow's name
    pub name: String,
    /// Whether the workflow is enabled
    pub enabled: bool,
    /// The execution timeout, if any
    pub timeout: Option<std::time::Duration>,
    /// The limit on concurrent executions, if any
    pub max_concurrent: Option<usize>,
}

/// A workflow is a collection of triggers, conditions, and actions; `T`,
/// `C` and `A` are the handles of a trigger, a condition and an action.
#[derive(Debug)]
pub struct Workflow<T, C, A> {
    id: WorkflowId,
    name: String,
    description: Option<String>,
    triggers: Vec<T>,
    conditions: Vec<C>,
    actions: Vec<A>,
    metadata: StrMap<Value>,
    enabled: bool,
    timeout: Option<std::time::Duration>,
    max_concurrent: Option<usize>,
    stats: WorkflowStats,
}

impl<T, C, A> Workflow<T, C, A> {
    /// The workflow's identifier.
    pub closed spec fn id_spec(self) -> Seq<char> {
        self.id@
    }

    /// The workflow's name.
    pub closed spec fn name_spec(self) -> Seq<char> {
        self.name@
    }

    /// The triggers in order.
    pub closed spec fn triggers_spec(self) -> Seq<T> {
        self.triggers@
    }

    /// The conditions in order.
    pub closed spec fn conditions_spec(self) -> Seq<C> {
        self.conditions@
    }

    /// The actions in order.
    pub closed spec fn actions_spec(self) -> Seq<A> {
        self.actions@
    }

    /// The metadata.
    pub closed spec fn metadata_spec(self) -> Map<Seq<char>, Value> {
        self.metadata@
    }

    /// Whether the workflow is enabled.
    pub closed spec fn enabled_spec(self) -> bool {
        self.enabled
    }

    /// The execution timeout, if any.
    pub closed spec fn timeout_spec(self) -> Option<std::time::Duration> {
        self.timeout
    }

    /// The limit on concurrent executions, if any.
    pub closed spec fn max_concurrent_spec(self) -> Option<usize> {
        self.max_concurrent
    }

    /// The execution statistics.
    pub closed spec fn stats_spec(self) -> WorkflowStats {
        self.stats
    }

    /// The settings other than the statistics are those of `other`.
    pub open spec fn same_definition(self, other: Self) -> bool {
        &&& self.id_spec() == other.id_spec()
        &&& self.name_spec() == other.name_spec()
        &&& self.triggers_spec() == other.triggers_spec()
        &&& self.conditions_spec() == other.conditions_spec()
        &&& self.actions_spec() == other.actions_spec()
        &&& self.metadata_spec() == other.metadata_spec()
        &&& self.enabled_spec() == other.enabled_spec()
        &&& self.timeout_spec() == other.timeout_spec()
        &&& self.max_concurrent_spec() == other.max_concurrent_spec()
    }

    /// Create a new, enabled workflow with a random ID and the given name
    pub fn new(name: &str) -> (w: Self)
        ensures
            w.id_spec().len() == 36,
            w.name_spec() == name@,
            w.triggers_spec().len() == 0,
            w.conditions_spec().len() == 0,
            w.actions_spec().len() == 0,
            w.metadata_spec() == Map::<Seq<char>, Value>::empty(),
            w.enabled_spec(),
            w.timeout_spec() is None,
            w.max_concurrent_spec() is None,
            w.stats_spec() == WorkflowStats::zero(),
    {
        Workflow {
            id: WorkflowId::new(),
            name: owned(name),
            description: None,
            triggers: Vec::new(),
            conditions: Vec::new(),
            actions: Vec::new(),
            metadata: StrMap::new(),
            enabled: true,
            timeout: None,
            max_concurrent: None,
            stats: WorkflowStats::new(),
        }
    }

    /// Get the workflow ID
    pub fn id(&self) -> (r: &WorkflowId)
        ensures
            r@ == self.id_spec(),
    {
        &self.id
    }

    /// Get the workflow name
    pub fn name(&self) -> (r: &str)
        ensures
            r@ == self.name_spec(),
    {
        self.name.as_str()
    }

    /// The description, if one was given.
    pub closed spec fn description_spec(self) -> Option<Seq<char>> {
        match self.description {
            Some(d) => Some(d@),
            None => None,
        }
    }

    /// Get the workflow description
    pub fn description(&self) -> (r: Option<&str>)
        ensures
            match r {
                Some(d) => self.description_spec() == Some(d@),
                None => self.description_spec() is None,
            },
    {
        match &self.description {
            Some(d) => Some(d.as_str()),
            None => None,
        }
    }

    /// Set the workflow description
    pub fn set_description(&mut self, description: &str)
        ensures
            final(self).description_spec() == Some(description@),
            final(self).same_definition(*old(self)),
            final(self).stats_spec() == old(self).stats_spec(),
    {
        self.description = Some(owned(description));
    }

    /// Add a trigger to the workflow
    pub fn add_trigger(&mut self, trigger: T)
        ensures
            final(self).triggers_spec() == old(self).triggers_spec().push(trigger),
            final(self).conditions_spec() == old(self).conditions_spec(),
            final(self).actions_spec() == old(self).actions_spec(),
            final(self).enabled_spec() == old(self).enabled_spec(),
            final(self).id_spec() == old(self).id_spec(),
            final(self).name_spec() == old(self).name_spec(),
    {
        self.triggers.push(trigger);
    }

    /// Get all triggers
    pub fn triggers(&self) -> (r: &[T])
        ensures
            r@ == self.triggers_spec(),
    {
        self.triggers.as_slice()
    }

    /// Add a condition to the workflow
    pub fn add_condition(&mut self, condition: C)
        ensures
            final(self).conditions_spec() == old(self).conditions_spec().push(condition),
            final(self).triggers_spec() == old(self).triggers_spec(),
            final(self).actions_spec() == old(self).actions_spec(),
            final(self).enabled_spec() == old(self).enabled_spec(),
            final(self).id_spec() == old(self).id_spec(),
            final(self).name_spec() == old(self).name_spec(),
    {
        self.conditions.push(condition);
    }

    /// Get all conditions
    pub fn conditions(&self) -> (r: &[C])
        ensures
            r@ == self.conditions_spec(),
    {
        self.conditions.as_slice()
    }

    /// Add an action to the workflow
    pub fn add_action(&mut self, action: A)
        ensures
            final(self).actions_spec() == old(self).actions_spec().push(action),
            final(self).triggers_spec() == old(self).triggers_spec(),
            final(self).conditions_spec() == old(self).conditions_spec(),
            final(self).enabled_spec() == old(self).enabled_spec(),
            final(self).id_spec() == old(self).id_spec(),
            final(self).name_spec() == old(self).name_spec(),
    {
        self.actions.push(action);
    }

    /// Get all actions
    pub fn actions(&self) -> (r: &[A])
        ensures
            r@ == self.actions_spec(),
    {
        self.actions.as_slice()
    }

    /// Get workflow metadata
    pub fn metadata(&self) -> (r: &StrMap<Value>)
        ensures
            r@ == self.metadata_spec(),
    {
        &self.metadata
    }

    /// Set a metadata value
    pub fn set_metadata(&mut self, key: &str, value: Value)
        ensures
            final(self).metadata_spec() == old(self).metadata_spec().insert(key@, value),
            final(self).enabled_spec() == old(self).enabled_spec(),
            final(self).id_spec() == old(self).id_spec(),
            final(self).name_spec() == old(self).name_spec(),
    {
        self.metadata.insert(owned(key), value);
    }

    /// Check if the workflow is enabled
    pub fn is_enabled(&self) -> (r: bool)
        ensures
            r == self.enabled_spec(),
    {
        self.enabled
    }

    /// Enable the workflow
    pub fn enable(&mut self)
        ensures
            final(self).enabled_spec(),
            final(self).id_spec() == old(self).id_spec(),
            final(self).name_spec() == old(self).name_spec(),
            final(self).stats_spec() == old(self).stats_spec(),
    {
        self.enabled = true;
    }

    /// Disable the workflow
    pub fn disable(&mut self)
        ensures
            !final(self).enabled_spec(),
            final(self).id_spec() == old(self).id_spec(),
            final(self).name_spec() == old(self).name_spec(),
            final(self).stats_spec() == old(self).stats_spec(),
    {
        self.enabled = false;
    }

    /// Get the execution timeout
    pub fn timeout(&self) -> (r: Option<std::time::Duration>)
        ensures
            r == self.timeout_spec(),
    {
        self.timeout
    }

    /// Set the execution timeout
    pub fn set_timeout(&mut self, timeout: std::time::Duration)
        ensures
            final(self).timeout_spec() == Some(timeout),
            final(self).enabled_spec() == old(self).enabled_spec(),
            final(self).id_spec() == old(self).id_spec(),
    {
        self.timeout = Some(timeout);
    }

    /// Clear the execution timeout
    pub fn clear_timeout(&mut self)
        ensures
            final(self).timeout_spec() is None,
            final(self).enabled_spec() == old(self).enabled_spec(),
            final(self).id_spec() == old(self).id_spec(),
    {
        self.timeout = None;
    }

    /// Get the maximum number of concurrent executions
    pub fn max_concurrent(&self) -> (r: Option<usize>)
        ensures
            r == self.max_concurrent_spec(),
    {
        self.max_concurrent
    }

    /// Set the maximum number of concurrent executions
    pub fn set_max_concurrent(&mut self, max: usize)
        ensures
            final(self).max_concurrent_spec() == Some(max),
            final(self).enabled_spec() == old(self).enabled_spec(),
            final(self).id_spec() == old(self).id_spec(),
    {
        self.max_concurrent = Some(max);
    }

    /// Clear the maximum number of concurrent executions
    pub fn clear_max_concurrent(&mut self)
        ensures
            final(self).max_concurrent_spec() is None,
            final(self).enabled_spec() == old(self).enabled_spec(),
            final(self).id_spec() == old(self).id_spec(),
    {
        self.max_concurrent = None;
    }

    /// The settings a scheduler works with.
    pub fn info(&self) -> (r: WorkflowInfo)
        ensures
            r.id@ == self.id_spec(),
            r.name@ == self.name_spec(),
            r.enabled == self.enabled_spec(),
            r.timeout == self.timeout_spec(),
            r.max_concurrent == self.max_concurrent_spec(),
    {
        WorkflowInfo {
            id: self.id.clone(),
            name: self.name.clone(),
            enabled: self.enabled,
            timeout: self.timeout,
            max_concurrent: self.max_concurrent,
        }
    }

    /// Get a snapshot of the workflow statistics
    pub fn stats(&self) -> (r: WorkflowStats)
        ensures
            r == self.stats_spec(),
    {
        self.stats
    }

    /// The next step of matching an event against the triggers, given the
    /// outcomes of those asked so far: the first match decides, and no
    /// match (or no trigger at all) means the event is ignored.
    pub fn trigger_match_step(&self, outcomes: &[bool]) -> (r: JunctionStep)
        ensures
            r == any_step(self.triggers_spec().len(), outcomes@),
    {
        let k = outcomes.len();
        if k > 0 && outcomes[k - 1] {
            JunctionStep::Done(true)
        } else if k >= self.triggers.len() {
            JunctionStep::Done(false)
        } else {
            JunctionStep::Evaluate(k)
        }
    }

    /// The next step of checking the conditions, given the outcomes of
    /// those checked so far: the first failing one decides, and all holding
    /// (or none at all) means they are met.
    pub fn condition_check_step(&self, outcomes: &[bool]) -> (r: JunctionStep)
        ensures
            r == and_step(self.conditions_spec().len(), outcomes@),
    {
        let k = outcomes.len();
        if k > 0 && !outcomes[k - 1] {
            JunctionStep::Done(false)
        } else if k >= self.conditions.len() {
            JunctionStep::Done(true)
        } else {
            JunctionStep::Evaluate(k)
        }
    }

    /// Count that a trigger matched an event.
    pub fn record_triggered(&mut self)
        ensures
            final(self).same_definition(*old(self)),
            final(self).stats_spec() == (WorkflowStats {
                triggered_count: bump(old(self).stats_spec().triggered_count),
                ..old(self).stats_spec()
            }),
    {
        self.stats.triggered_count = self.stats.triggered_count.saturating_add(1);
    }

    /// Count that all conditions held.
    pub fn record_conditions_met(&mut self)
        ensures
            final(self).same_definition(*old(self)),
            final(self).stats_spec() == (WorkflowStats {
                conditions_met_count: bump(old(self).stats_spec().conditions_met_count),
                ..old(self).stats_spec()
            }),
    {
        self.stats.conditions_met_count = self.stats.conditions_met_count.saturating_add(1);
    }

    /// Start executing at time `at`: refused when the workflow is disabled,
    /// otherwise counted.
    pub fn begin_execution(&mut self, at: Timestamp) -> (r: Result<()>)
        ensures
            final(self).same_definition(*old(self)),
            r is Ok <==> old(self).enabled_spec(),
            r matches Err(e) ==> (e matches Error::Workflow(m) && m@ == "Workflow "@
                + old(self).name_spec() + " is disabled"@),
            r is Err ==> final(self).stats_spec() == old(self).stats_spec(),
            r is Ok ==> final(self).stats_spec() == (WorkflowStats {
                executed_count: bump(old(self).stats_spec().executed_count),
                last_execution_time: Some(at),
                ..old(self).stats_spec()
            }),
    {
        if !self.enabled {
            let msg = join(join("Workflow ", self.name.as_str()).as_str(), " is disabled");
            return Err(Error::Workflow(msg));
        }
        self.stats.executed_count = self.stats.executed_count.saturating_add(1);
        self.stats.last_execution_time = Some(at);
        Ok(())
    }

    /// Record the end of an execution that took `elapsed_ms` and finished
    /// at `at`, successfully or not.
    pub fn finish_execution(&mut self, elapsed_ms: u64, success: bool, at: Timestamp)
        ensures
            final(self).same_definition(*old(self)),
            final(self).stats_spec().total_execution_time_ms == old(
                self,
            ).stats_spec().total_execution_time_ms.saturating_add(elapsed_ms),
            success ==> final(self).stats_spec().success_count == bump(
                old(self).stats_spec().success_count,
            ) && final(self).stats_spec().last_success_time == Some(at)
                && final(self).stats_spec().failure_count == old(self).stats_spec().failure_count
                && final(self).stats_spec().last_failure_time == old(
                self,
            ).stats_spec().last_failure_time,
            !success ==> final(self).stats_spec().failure_count == bump(
                old(self).stats_spec().failure_count,
            ) && final(self).stats_spec().last_failure_time == Some(at)
                && final(self).stats_spec().success_count == old(self).stats_spec().success_count
                && final(self).stats_spec().last_success_time == old(
                self,
            ).stats_spec().last_success_time,
            final(self).stats_spec().triggered_count == old(self).stats_spec().triggered_count,
            final(self).stats_spec().conditions_met_count == old(
                self,
            ).stats_spec().conditions_met_count,
            final(self).stats_spec().executed_count == old(self).stats_spec().executed_count,
            final(self).stats_spec().last_execution_time == old(
                self,
            ).stats_spec().last_execution_time,
    {
        self.stats.total_execution_time_ms = self.stats.total_execution_time_ms.saturating_add(
            elapsed_ms,
        );
        if success {
            self.stats.success_count = self.stats.success_count.saturating_add(1);
            self.stats.last_success_time = Some(at);
        } else {
            self.stats.failure_count = self.stats.failure_count.saturating_add(1);
            self.stats.last_failure_time = Some(at);
        }
    }
}

/// The result recorded for an action's outcome during an execution, and
/// whether it counts as a success: an error becomes a failure carrying its
/// message.
pub fn action_outcome(outcome: Result<ActionResult>) -> (r: (ActionResult, bool))
    ensures
        match outcome {
            Ok(res) => r.0 == res && r.1,
            Err(e) => r.0 matches ActionResult::Failure(m) && m@ == engine_error_text(e) && !r.1,
        },
{
    match outcome {
        Ok(res) => (res, true),
        Err(e) => (ActionResult::Failure(e.to_string()), false),
    }
}

/// Builder for creating workflows
#[derive(Debug)]
pub struct WorkflowBuilder<T, C, A> {
    id: Option<WorkflowId>,
    name: Option<String>,
    description: Option<String>,
    triggers: Vec<T>,
    conditions: Vec<C>,
    actions: Vec<A>,
    metadata: StrMap<Value>,
    enabled: bool,
    timeout: Option<std::time::Duration>,
    max_concurrent: Option<usize>,
}

impl<T, C, A> WorkflowBuilder<T, C, A> {
    /// The description given, if any.
    pub closed spec fn description_spec(self) -> Option<Seq<char>> {
        match self.description {
            Some(d) => Some(d@),
            None => None,
        }
    }

    /// The identifier given, if any.
    pub closed spec fn id_spec(self) -> Option<Seq<char>> {
        match self.id {
            Some(i) => Some(i@),
            None => None,
        }
    }

    /// The name given, if any.
    pub closed spec fn name_spec(self) -> Option<Seq<char>> {
        opt_text(self.name)
    }

    /// The triggers given, in order.
    pub closed spec fn triggers_spec(self) -> Seq<T> {
        self.triggers@
    }

    /// The conditions given, in order.
    pub closed spec fn conditions_spec(self) -> Seq<C> {
        self.conditions@
    }

    /// The actions given, in order.
    pub closed spec fn actions_spec(self) -> Seq<A> {
        self.actions@
    }

    /// The metadata given.
    pub closed spec fn metadata_spec(self) -> Map<Seq<char>, Value> {
        self.metadata@
    }

    /// Whether the workflow will be enabled.
    pub closed spec fn enabled_spec(self) -> bool {
        self.enabled
    }

    /// The timeout given, if any.
    pub closed spec fn timeout_spec(self) -> Option<std::time::Duration> {
        self.timeout
    }

    /// The concurrency limit given, if any.
    pub closed spec fn max_concurrent_spec(self) -> Option<usize> {
        self.max_concurrent
    }

    /// Create a new workflow builder; the workflow is enabled by default
    pub fn new() -> (b: Self)
        ensures
            b.id_spec() is None,
            b.name_spec() is None,
            b.triggers_spec().len() == 0,
            b.conditions_spec().len() == 0,
            b.actions_spec().len() == 0,
            b.metadata_spec() == Map::<Seq<char>, Value>::empty(),
            b.enabled_spec(),
            b.timeout_spec() is None,
            b.max_concurrent_spec() is None,
    {
        WorkflowBuilder {
            id: None,
            name: None,
            description: None,
            triggers: Vec::new(),
            conditions: Vec::new(),
            actions: Vec::new(),
            metadata: StrMap::new(),
            enabled: true,
            timeout: None,
            max_concurrent: None,
        }
    }

    /// Set the workflow ID
    pub fn with_id(self, id: WorkflowId) -> (b: Self)
        ensures
            b.id_spec() == Some(id@),
            b.name_spec() == self.name_spec(),
            b.enabled_spec() == self.enabled_spec(),
    {
        let mut b = self;
        b.id = Some(id);
        b
    }

    /// Set the workflow name
    pub fn with_name(self, name: &str) -> (b: Self)
        ensures
            b.name_spec() == Some(name@),
            b.id_spec() == self.id_spec(),
            b.enabled_spec() == self.enabled_spec(),
    {
        let mut b = self;
        b.name = Some(owned(name));
        b
    }

    /// Set the workflow description
    pub fn with_description(self, description: &str) -> (b: Self)
        ensures
            b.description_spec() == Some(description@),
            b.id_spec() == self.id_spec(),
            b.name_spec() == self.name_spec(),
            b.enabled_spec() == self.enabled_spec(),
    {
        let mut b = self;
        b.description = Some(owned(description));
        b
    }

    /// Add a trigger
    pub fn with_trigger(self, trigger: T) -> (b: Self)
        ensures
            b.triggers_spec() == self.triggers_spec().push(trigger),
            b.id_spec() == self.id_spec(),
            b.name_spec() == self.name_spec(),
    {
        let mut b = self;
        b.triggers.push(trigger);
        b
    }

    /// Add a condition
    pub fn with_condition(self, condition: C) -> (b: Self)
        ensures
            b.conditions_spec() == self.conditions_spec().push(condition),
            b.id_spec() == self.id_spec(),
            b.name_spec() == self.name_spec(),
    {
        let mut b = self;
        b.conditions.push(condition);
        b
    }

    /// Add an action
    pub fn with_action(self, action: A) -> (b: Self)
        ensures
            b.actions_spec() == self.actions_spec().push(action),
            b.id_spec() == self.id_spec(),
            b.name_spec() == self.name_spec(),
    {
        let mut b = self;
        b.actions.push(action);
        b
    }

    /// Set a metadata value
    pub fn with_metadata(self, key: &str, value: Value) -> (b: Self)
        ensures
            b.metadata_spec() == self.metadata_spec().insert(key@, value),
            b.id_spec() == self.id_spec(),
            b.name_spec() == self.name_spec(),
    {
        let mut b = self;
        b.metadata.insert(owned(key), value);
        b
    }

    /// Set whether the workflow is enabled
    pub fn enabled(self, enabled: bool) -> (b: Self)
        ensures
            b.enabled_spec() == enabled,
            b.id_spec() == self.id_spec(),
            b.name_spec() == self.name_spec(),
    {
        let mut b = self;
        b.enabled = enabled;
        b
    }

    /// Set the execution timeout
    pub fn with_timeout(self, timeout: std::time::Duration) -> (b: Self)
        ensures
            b.timeout_spec() == Some(timeout),
            b.id_spec() == self.id_spec(),
            b.name_spec() == self.name_spec(),
    {
        let mut b = self;
        b.timeout = Some(timeout);
        b
    }

    /// Set the maximum number of concurrent executions
    pub fn with_max_concurrent(self, max: usize) -> (b: Self)
        ensures
            b.max_concurrent_spec() == Some(max),
            b.id_spec() == self.id_spec(),
            b.name_spec() == self.name_spec(),
    {
        let mut b = self;
        b.max_concurrent = Some(max);
        b
    }

    /// Build the workflow; a name is required, and without an ID a random
    /// one is made.
    pub fn build(self) -> (r: Result<Workflow<T, C, A>>)
        ensures
            r is Ok <==> self.name_spec() is Some,
            r matches Err(e) ==> (e matches Error::Validation(m) && m@
                == "Workflow name is required"@),
            r matches Ok(w) ==> {
                &&& Some(w.name_spec()) == self.name_spec()
                &&& w.description_spec() == self.description_spec()
                &&& (self.id_spec() matches Some(i) ==> w.id_spec() == i)
                &&& (self.id_spec() is None ==> w.id_spec().len() == 36)
                &&& w.triggers_spec() == self.triggers_spec()
                &&& w.conditions_spec() == self.conditions_spec()
                &&& w.actions_spec() == self.actions_spec()
                &&& w.metadata_spec() == self.metadata_spec()
                &&& w.enabled_spec() == self.enabled_spec()
                &&& w.timeout_spec() == self.timeout_spec()
                &&& w.max_concurrent_spec() == self.max_concurrent_spec()
                &&& w.stats_spec() == WorkflowStats::zero()
            },
    {
        let b = self;
        let name = match b.name {
            Some(n) => n,
            None => {
                proof {
                    reveal_strlit("Workflow name is required");
                }
                return Err(Error::validation("Workflow name is required"));
            },
        };
        let id = match b.id {
            Some(i) => i,
            None => WorkflowId::new(),
        };
        Ok(
            Workflow {
                id,
                name,
                description: b.description,
                triggers: b.triggers,
                conditions: b.conditions,
                actions: b.actions,
                metadata: b.metadata,
                enabled: b.enabled,
                timeout: b.timeout,
                max_concurrent: b.max_concurrent,
                stats: WorkflowStats::new(),
            },
        )
    }
}

} // verus!
