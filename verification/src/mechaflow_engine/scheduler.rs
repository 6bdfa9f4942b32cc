//! Workflow scheduling: the registered workflows, the executions with their
//! status, admission of new executions under the concurrency limits, and
//! the events the scheduler announces. Running an execution, timing it out
//! and delivering events are left to the caller.
use vstd::prelude::*;

use crate::mechaflow_core::error::{join, owned};
use crate::mechaflow_core::types::{now, random_uuid_string, Timestamp, Value};
use crate::mechaflow_core::utils::{duration_as_secs, duration_whole_secs, millis_to_duration};
use crate::mechaflow_engine::error::{engine_error_text, Error, Result};
use crate::mechaflow_engine::trigger::{ManualTriggerEvent, TriggerEvent};
use crate::mechaflow_engine::workflow::{WorkflowId, WorkflowInfo};
use crate::str_map::{entries_map, keys_unique, StrMap};
use crate::text::{decimal_of, u64_to_decimal};

verus! {

/// Workflow execution status
#[derive(Debug)]
pub enum WorkflowExecutionStatus {
    /// Workflow is queued for execution
    Queued,
    /// Workflow is running
    Running,
    /// Workflow completed successfully
    Completed,
    /// Workflow failed
    Failed(String),
    /// Workflow execution timed out
    TimedOut,
    /// Workflow was cancelled
    Cancelled,
}

/// Workflow execution instance
#[derive(Debug)]
pub struct WorkflowExecution {
    id: String,
    workflow_id: WorkflowId,
    trigger_event: Option<TriggerEvent>,
    status: WorkflowExecutionStatus,
    start_time: Option<Timestamp>,
    end_time: Option<Timestamp>,
    variables: StrMap<Value>,
}

/// Whether an execution is still queued or running.
pub open spec fn exec_active(e: WorkflowExecution) -> bool {
    e.status_spec() is Queued || e.status_spec() is Running
}

impl WorkflowExecution {
    /// The execution's identifier.
    pub closed spec fn id_spec(self) -> Seq<char> {
        self.id@
    }

    /// The workflow executed.
    pub closed spec fn workflow_spec(self) -> Seq<char> {
        self.workflow_id@
    }

    /// The execution's status.
    pub closed spec fn status_spec(self) -> WorkflowExecutionStatus {
        self.status
    }

    /// When the execution started, if it did.
    pub closed spec fn start_spec(self) -> Option<Timestamp> {
        self.start_time
    }

    /// When the execution ended, if it did.
    pub closed spec fn end_spec(self) -> Option<Timestamp> {
        self.end_time
    }

    /// The event that triggered the execution, if any.
    pub closed spec fn trigger_spec(self) -> Option<TriggerEvent> {
        self.trigger_event
    }

    /// The execution's context variables.
    pub closed spec fn variables_spec(self) -> Map<Seq<char>, Value> {
        self.variables@
    }

    fn new(workflow_id: WorkflowId, trigger_event: Option<TriggerEvent>) -> (e: Self)
        ensures
            e.id_spec().len() == 36,
            e.workflow_spec() == workflow_id@,
            e.status_spec() is Queued,
            e.start_spec() is None,
            e.end_spec() is None,
            e.trigger_spec() == trigger_event,
            e.variables_spec() == Map::<Seq<char>, Value>::empty(),
    {
        WorkflowExecution {
            id: random_uuid_string(),
            workflow_id,
            trigger_event,
            status: WorkflowExecutionStatus::Queued,
            start_time: None,
            end_time: None,
            variables: StrMap::new(),
        }
    }

    /// Get the execution ID
    pub fn id(&self) -> (r: &str)
        ensures
            r@ == self.id_spec(),
    {
        self.id.as_str()
    }

    /// Get the workflow ID
    pub fn workflow_id(&self) -> (r: &WorkflowId)
        ensures
            r@ == self.workflow_spec(),
    {
        &self.workflow_id
    }

    /// Get the trigger event
    pub fn trigger_event(&self) -> (r: Option<&TriggerEvent>)
        ensures
            match r {
                Some(t) => self.trigger_spec() == Some(*t),
                None => self.trigger_spec() is None,
            },
    {
        match &self.trigger_event {
            Some(t) => Some(t),
            None => None,
        }
    }

    /// Get the execution status
    pub fn status(&self) -> (r: &WorkflowExecutionStatus)
        ensures
            *r == self.status_spec(),
    {
        &self.status
    }

    /// Get the start time
    pub fn start_time(&self) -> (r: Option<Timestamp>)
        ensures
            r == self.start_spec(),
    {
        self.start_time
    }

    /// Get the end time
    pub fn end_time(&self) -> (r: Option<Timestamp>)
        ensures
            r == self.end_spec(),
    {
        self.end_time
    }

    /// Get the context variables
    pub fn variables(&self) -> (r: &StrMap<Value>)
        ensures
            r@ == self.variables_spec(),
    {
        &self.variables
    }

    /// Check if the execution is active
    pub fn is_active(&self) -> (r: bool)
        ensures
            r == exec_active(*self),
    {
        match self.status {
            WorkflowExecutionStatus::Queued | WorkflowExecutionStatus::Running => true,
            _ => false,
        }
    }

    /// Cancel the execution if it is active; the caller stops its task
    pub fn cancel(&mut self)
        ensures
            final(self).id_spec() == old(self).id_spec(),
            final(self).workflow_spec() == old(self).workflow_spec(),
            final(self).start_spec() == old(self).start_spec(),
            exec_active(*old(self)) ==> final(self).status_spec() is Cancelled
                && final(self).end_spec() is Some,
            !exec_active(*old(self)) ==> final(self).status_spec() == old(self).status_spec()
                && final(self).end_spec() == old(self).end_spec(),
    {
        if self.is_active() {
            self.status = WorkflowExecutionStatus::Cancelled;
            self.end_time = Some(now());
        }
    }
}

/// Scheduler events
#[derive(Debug)]
pub enum SchedulerEvent {
    /// Workflow execution started
    WorkflowStarted {
        /// Execution ID
        execution_id: String,
        /// Workflow ID
        workflow_id: WorkflowId,
        /// Workflow name
        workflow_name: String,
    },
    /// Workflow execution completed
    WorkflowCompleted {
        /// Execution ID
        execution_id: String,
        /// Workflow ID
        workflow_id: WorkflowId,
        /// Workflow name
        workflow_name: String,
    },
    /// Workflow execution failed
    WorkflowFailed {
        /// Execution ID
        execution_id: String,
        /// Workflow ID
        workflow_id: WorkflowId,
        /// Workflow name
        workflow_name: String,
        /// Error message
        error: String,
    },
    /// Workflow execution timed out
    WorkflowTimedOut {
        /// Execution ID
        execution_id: String,
        /// Workflow ID
        workflow_id: WorkflowId,
        /// Workflow name
        workflow_name: String,
    },
    /// Workflow execution cancelled
    WorkflowCancelled {
        /// Execution ID
        execution_id: String,
        /// Workflow ID
        workflow_id: WorkflowId,
        /// Workflow name
        workflow_name: String,
    },
    /// Workflow registered
    WorkflowRegistered {
        /// Workflow ID
        workflow_id: WorkflowId,
        /// Workflow name
        workflow_name: String,
    },
    /// Workflow unregistered
    WorkflowUnregistered {
        /// Workflow ID
        workflow_id: WorkflowId,
        /// Workflow name
        workflow_name: String,
    },
    /// Scheduler started
    SchedulerStarted,
    /// Scheduler stopped
    SchedulerStopped,
}

/// How a workflow execution ended.
#[derive(Debug)]
pub enum ExecutionOutcome {
    /// The workflow ran to its end
    Succeeded,
    /// The workflow returned an error
    Failed(Error),
    /// The time limit passed first
    TimedOut,
}

/// The event announcing how an execution ended, and the result of its task:
/// success, a workflow error carrying the failure's message, or a timeout
/// error naming the limit.
pub fn execution_report(
    execution_id: &str,
    workflow_id: &WorkflowId,
    workflow_name: &str,
    timeout_secs: u64,
    outcome: ExecutionOutcome,
) -> (r: (SchedulerEvent, Result<()>))
    ensures
        match outcome {
            ExecutionOutcome::Succeeded => r.1 is Ok && (r.0 matches SchedulerEvent::WorkflowCompleted {
                execution_id: x,
                workflow_id: w,
                workflow_name: n,
            } && x@ == execution_id@ && w@ == workflow_id@ && n@ == workflow_name@),
            ExecutionOutcome::Failed(e) => (r.1 matches Err(Error::Workflow(m)) && m@
                == engine_error_text(e)) && (r.0 matches SchedulerEvent::WorkflowFailed {
                execution_id: x,
                workflow_id: w,
                workflow_name: n,
                error: msg,
            } && x@ == execution_id@ && w@ == workflow_id@ && n@ == workflow_name@ && msg@
                == engine_error_text(e)),
            ExecutionOutcome::TimedOut => (r.1 matches Err(Error::Timeout(m)) && m@
                == "Workflow execution timed out after "@ + decimal_of(timeout_secs as nat)
                + " seconds"@) && (r.0 matches SchedulerEvent::WorkflowTimedOut {
                execution_id: x,
                workflow_id: w,
                workflow_name: n,
            } && x@ == execution_id@ && w@ == workflow_id@ && n@ == workflow_name@),
        },
{
    match outcome {
        ExecutionOutcome::Succeeded => (
            SchedulerEvent::WorkflowCompleted {
                execution_id: owned(execution_id),
                workflow_id: workflow_id.clone(),
                workflow_name: owned(workflow_name),
            },
            Ok(()),
        ),
        ExecutionOutcome::Failed(e) => {
            let msg = e.to_string();
            let copy = msg.clone();
            (
                SchedulerEvent::WorkflowFailed {
                    execution_id: owned(execution_id),
                    workflow_id: workflow_id.clone(),
                    workflow_name: owned(workflow_name),
                    error: msg,
                },
                Err(Error::Workflow(copy)),
            )
        },
        ExecutionOutcome::TimedOut => {
            let secs = u64_to_decimal(timeout_secs);
            let a = join("Workflow execution timed out after ", secs.as_str());
            let m = join(a.as_str(), " seconds");
            (
                SchedulerEvent::WorkflowTimedOut {
                    execution_id: owned(execution_id),
                    workflow_id: workflow_id.clone(),
                    workflow_name: owned(workflow_name),
                },
                Err(Error::Timeout(m)),
            )
        },
    }
}

/// The number of active executions among the entries.
pub open spec fn count_active(s: Seq<(String, WorkflowExecution)>) -> nat
    decreases s.len(),
{
    if s.len() == 0 {
        0
    } else {
        count_active(s.drop_last()) + if exec_active(s.last().1) {
            1nat
        } else {
            0nat
        }
    }
}

/// The number of active executions of workflow `w` among the entries.
pub open spec fn count_active_for(s: Seq<(String, WorkflowExecution)>, w: Seq<char>) -> nat
    decreases s.len(),
{
    if s.len() == 0 {
        0
    } else {
        count_active_for(s.drop_last(), w) + if exec_active(s.last().1) && s.last().1.workflow_spec()
            == w {
            1nat
        } else {
            0nat
        }
    }
}

/// Replacing one entry changes the counts by what the old and new entries
/// contribute.
proof fn lemma_count_update(
    s: Seq<(String, WorkflowExecution)>,
    i: int,
    x: (String, WorkflowExecution),
    w: Seq<char>,
)
    requires
        0 <= i < s.len(),
    ensures
        count_active(s.update(i, x)) + (if exec_active(s[i].1) {
            1nat
        } else {
            0nat
        }) == count_active(s) + (if exec_active(x.1) {
            1nat
        } else {
            0nat
        }),
        count_active_for(s.update(i, x), w) + (if exec_active(s[i].1) && s[i].1.workflow_spec()
            == w {
            1nat
        } else {
            0nat
        }) == count_active_for(s, w) + (if exec_active(x.1) && x.1.workflow_spec() == w {
            1nat
        } else {
            0nat
        }),
    decreases s.len(),
{
    let u = s.update(i, x);
    if i == s.len() - 1 {
        assert(u.drop_last() =~= s.drop_last());
    } else {
        assert(u.drop_last() =~= s.drop_last().update(i, x));
        lemma_count_update(s.drop_last(), i, x, w);
    }
}

/// The number of seconds an execution may run: the workflow's timeout,
/// else the scheduler's default, else a minute.
pub open spec fn timeout_secs(
    workflow_timeout: Option<std::time::Duration>,
    default_timeout: Option<std::time::Duration>,
) -> u64 {
    match workflow_timeout {
        Some(d) => duration_whole_secs(d),
        None => match default_timeout {
            Some(d) => duration_whole_secs(d),
            None => 60,
        },
    }
}

/// A registered workflow: what the scheduler knows of it and the caller's
/// handle `W` on it.
#[derive(Debug)]
pub struct RegisteredWorkflow<W> {
    /// The workflow's settings
    pub info: WorkflowInfo,
    /// The caller's handle on the workflow
    pub handle: W,
}

/// Workflow scheduler
#[derive(Debug)]
pub struct WorkflowScheduler<W> {
    workflows: StrMap<RegisteredWorkflow<W>>,
    executions: StrMap<WorkflowExecution>,
    events: Vec<SchedulerEvent>,
    running: bool,
    max_concurrent: usize,
    default_timeout: Option<std::time::Duration>,
}

impl<W> WorkflowScheduler<W> {
    /// The registered workflows with their identifiers, in registration
    /// order.
    pub closed spec fn workflow_entries(self) -> Seq<(String, RegisteredWorkflow<W>)> {
        self.workflows.entry_seq()
    }

    /// The registered workflows by identifier.
    pub closed spec fn workflows_spec(self) -> Map<Seq<char>, RegisteredWorkflow<W>> {
        self.workflows@
    }

    /// The executions by identifier.
    pub closed spec fn executions_spec(self) -> Map<Seq<char>, WorkflowExecution> {
        self.executions@
    }

    /// The executions in the order they were first recorded.
    pub closed spec fn execution_entries(self) -> Seq<(String, WorkflowExecution)> {
        self.executions.entry_seq()
    }

    /// Events not yet taken for delivery, oldest first.
    pub closed spec fn pending_events(self) -> Seq<SchedulerEvent> {
        self.events@
    }

    /// Whether the scheduler is running.
    pub closed spec fn running_spec(self) -> bool {
        self.running
    }

    /// The limit on active executions.
    pub closed spec fn max_concurrent_spec(self) -> usize {
        self.max_concurrent
    }

    /// The default execution timeout.
    pub closed spec fn default_timeout_spec(self) -> Option<std::time::Duration> {
        self.default_timeout
    }

    /// The number of active executions.
    pub open spec fn active_count(self) -> nat {
        count_active(self.execution_entries())
    }

    /// Create a new scheduler: at most ten concurrent executions and a
    /// default timeout of a minute
    pub fn new() -> (s: Self)
        ensures
            s.workflows_spec() == Map::<Seq<char>, RegisteredWorkflow<W>>::empty(),
            s.executions_spec() == Map::<Seq<char>, WorkflowExecution>::empty(),
            s.execution_entries().len() == 0,
            s.pending_events().len() == 0,
            !s.running_spec(),
            s.max_concurrent_spec() == 10,
            s.default_timeout_spec() matches Some(d) && crate::mechaflow_core::utils::duration_ms(d)
                == 60000,
    {
        WorkflowScheduler {
            workflows: StrMap::new(),
            executions: StrMap::new(),
            events: Vec::new(),
            running: false,
            max_concurrent: 10,
            default_timeout: Some(millis_to_duration(60000)),
        }
    }

    /// Set the maximum number of concurrent executions
    pub fn set_max_concurrent(&mut self, max_concurrent: usize)
        ensures
            final(self).max_concurrent_spec() == max_concurrent,
            final(self).workflows_spec() == old(self).workflows_spec(),
            final(self).execution_entries() == old(self).execution_entries(),
            final(self).executions_spec() == old(self).executions_spec(),
            final(self).running_spec() == old(self).running_spec(),
            final(self).default_timeout_spec() == old(self).default_timeout_spec(),
            final(self).pending_events() == old(self).pending_events(),
    {
        self.max_concurrent = max_concurrent;
    }

    /// Set the default execution timeout
    pub fn set_default_timeout(&mut self, timeout: Option<std::time::Duration>)
        ensures
            final(self).default_timeout_spec() == timeout,
            final(self).workflows_spec() == old(self).workflows_spec(),
            final(self).execution_entries() == old(self).execution_entries(),
            final(self).executions_spec() == old(self).executions_spec(),
            final(self).running_spec() == old(self).running_spec(),
            final(self).max_concurrent_spec() == old(self).max_concurrent_spec(),
            final(self).pending_events() == old(self).pending_events(),
    {
        self.default_timeout = timeout;
    }

    /// Whether the scheduler is running
    pub fn is_running(&self) -> (r: bool)
        ensures
            r == self.running_spec(),
    {
        self.running
    }

    /// Take the events produced since the last call, oldest first.
    pub fn take_events(&mut self) -> (r: Vec<SchedulerEvent>)
        ensures
            r@ == old(self).pending_events(),
            final(self).pending_events().len() == 0,
            final(self).workflows_spec() == old(self).workflows_spec(),
            final(self).execution_entries() == old(self).execution_entries(),
            final(self).executions_spec() == old(self).executions_spec(),
            final(self).running_spec() == old(self).running_spec(),
            final(self).max_concurrent_spec() == old(self).max_concurrent_spec(),
            final(self).default_timeout_spec() == old(self).default_timeout_spec(),
    {
        let mut out: Vec<SchedulerEvent> = Vec::new();
        std::mem::swap(&mut out, &mut self.events);
        out
    }

    /// Start the scheduler; starting a running scheduler does nothing. The
    /// caller starts the event handling tasks.
    pub fn start(&mut self) -> (r: Result<()>)
        ensures
            r is Ok,
            final(self).running_spec(),
            old(self).running_spec() ==> final(self).pending_events() == old(self).pending_events(),
            !old(self).running_spec() ==> final(self).pending_events() == old(
                self,
            ).pending_events().push(SchedulerEvent::SchedulerStarted),
            final(self).workflows_spec() == old(self).workflows_spec(),
            final(self).execution_entries() == old(self).execution_entries(),
            final(self).executions_spec() == old(self).executions_spec(),
            final(self).max_concurrent_spec() == old(self).max_concurrent_spec(),
            final(self).default_timeout_spec() == old(self).default_timeout_spec(),
    {
        if self.running {
            return Ok(());
        }
        self.running = true;
        self.events.push(SchedulerEvent::SchedulerStarted);
        Ok(())
    }

    /// Cancel the active executions that belong to `workflow` (any, if
    /// `None`) and carry identifier `execution` (any, if `None`).
    fn cancel_matching(&mut self, workflow: Option<&WorkflowId>, execution: Option<&str>)
        ensures
            final(self).execution_entries().len() == old(self).execution_entries().len(),
            forall|i: int|
                0 <= i < old(self).execution_entries().len() ==> {
                    let o = #[trigger] old(self).execution_entries()[i];
                    let n = final(self).execution_entries()[i];
                    let hit = (workflow matches Some(w) ==> o.1.workflow_spec() == w@) && (
                    execution matches Some(x) ==> o.0@ == x@);
                    &&& n.0 == o.0
                    &&& n.1.id_spec() == o.1.id_spec()
                    &&& n.1.workflow_spec() == o.1.workflow_spec()
                    &&& (hit && exec_active(o.1) ==> n.1.status_spec() is Cancelled)
                    &&& (!(hit && exec_active(o.1)) ==> n.1.status_spec() == o.1.status_spec())
                },
            final(self).executions_spec().dom() == old(self).executions_spec().dom(),
            final(self).workflows_spec() == old(self).workflows_spec(),
            final(self).running_spec() == old(self).running_spec(),
            final(self).max_concurrent_spec() == old(self).max_concurrent_spec(),
            final(self).default_timeout_spec() == old(self).default_timeout_spec(),
            final(self).pending_events() == old(self).pending_events(),
    {
        let mut taken: StrMap<WorkflowExecution> = StrMap::new();
        std::mem::swap(&mut taken, &mut self.executions);
        let ghost old_entries = taken.entry_seq();
        let mut rest = taken.into_entries();
        let mut out: Vec<(String, WorkflowExecution)> = Vec::new();
        let ghost mut k: int = 0;
        while rest.len() > 0
            invariant
                0 <= k <= old_entries.len(),
                rest@ == old_entries.skip(k),
                out@.len() == k,
                crate::str_map::keys_unique(old_entries),
                forall|i: int|
                    0 <= i < k ==> {
                        let o = #[trigger] old_entries[i];
                        let n = out@[i];
                        let hit = (workflow matches Some(w) ==> o.1.workflow_spec() == w@) && (
                        execution matches Some(x) ==> o.0@ == x@);
                        &&& n.0 == o.0
                        &&& n.1.id_spec() == o.1.id_spec()
                        &&& n.1.workflow_spec() == o.1.workflow_spec()
                        &&& (hit && exec_active(o.1) ==> n.1.status_spec() is Cancelled)
                        &&& (!(hit && exec_active(o.1)) ==> n.1.status_spec() == o.1.status_spec())
                    },
            decreases rest@.len(),
        {
            let (key, mut e) = rest.remove(0);
            proof {
                assert(old_entries[k] == (key, e));
            }
            let wf_hit = match workflow {
                Some(w) => e.workflow_id.inner().same(w.inner()),
                None => true,
            };
            let id_hit = match execution {
                Some(x) => crate::str_map::str_eq(key.as_str(), x),
                None => true,
            };
            if wf_hit && id_hit {
                e.cancel();
            }
            out.push((key, e));
            proof {
                assert(rest@ =~= old_entries.skip(k + 1));
                k = k + 1;
            }
        }
        proof {
            assert(k == old_entries.len());
            assert forall|a: int, b: int|
                0 <= a < out@.len() && 0 <= b < out@.len() && a != b implies #[trigger] out@[a].0@
                != #[trigger] out@[b].0@ by {
                assert(out@[a].0 == old_entries[a].0 && out@[b].0 == old_entries[b].0);
            }
        }
        let rebuilt = StrMap::from_entries(out);
        self.executions = rebuilt;
        proof {
            let ne = self.execution_entries();
            self.executions.lemma_entry_seq();
            old(self).executions.lemma_entry_seq();
            assert(self.executions@.dom() =~= old(self).executions@.dom()) by {
                assert forall|x: Seq<char>| #[trigger] self.executions@.dom().contains(x)
                    <==> old(self).executions@.dom().contains(x) by {
                    if crate::str_map::has_key(ne, x) {
                        let j = crate::str_map::key_index(ne, x);
                        assert(old_entries[j].0@ == x);
                    }
                    if crate::str_map::has_key(old_entries, x) {
                        let j = crate::str_map::key_index(old_entries, x);
                        assert(ne[j].0@ == x);
                    }
                }
            }
        }
    }

    /// Stop the scheduler, cancelling every active execution; stopping a
    /// stopped scheduler does nothing. The caller stops the tasks.
    pub fn stop(&mut self) -> (r: Result<()>)
        ensures
            r is Ok,
            !final(self).running_spec(),
            old(self).running_spec() ==> final(self).pending_events() == old(
                self,
            ).pending_events().push(SchedulerEvent::SchedulerStopped),
            old(self).running_spec() ==> final(self).active_count() == 0,
            !old(self).running_spec() ==> final(self).execution_entries() == old(
                self,
            ).execution_entries() && final(self).pending_events() == old(self).pending_events(),
            final(self).workflows_spec() == old(self).workflows_spec(),
            final(self).executions_spec().dom() == old(self).executions_spec().dom(),
            final(self).max_concurrent_spec() == old(self).max_concurrent_spec(),
            final(self).default_timeout_spec() == old(self).default_timeout_spec(),
    {
        if !self.running {
            return Ok(());
        }
        self.running = false;
        let ghost old_entries = self.execution_entries();
        self.cancel_matching(None, None);
        proof {
            let ne = self.execution_entries();
            assert forall|i: int| 0 <= i < ne.len() implies !exec_active(#[trigger] ne[i].1) by {
                let _o = old_entries[i];
            }
            lemma_none_active(ne);
        }
        self.events.push(SchedulerEvent::SchedulerStopped);
        Ok(())
    }

    /// Register a workflow under its identifier; an identifier already
    /// taken is refused.
    pub fn register_workflow(&mut self, info: WorkflowInfo, handle: W) -> (r: Result<()>)
        ensures
            r is Err <==> old(self).workflows_spec().contains_key(info.id@),
            r matches Err(e) ==> (e matches Error::AlreadyExists(m) && m@ == "Workflow with ID "@
                + info.id@ + " already exists: "@ + old(self).workflows_spec()[info.id@].info.name@),
            r is Err ==> final(self).workflows_spec() == old(self).workflows_spec()
                && final(self).pending_events() == old(self).pending_events(),
            r is Ok ==> final(self).workflows_spec().dom() == old(self).workflows_spec().dom().insert(
                info.id@,
            ) && final(self).workflows_spec()[info.id@].info == info
                && final(self).workflows_spec()[info.id@].handle == handle && forall|k: Seq<char>|
                k != info.id@ && #[trigger] old(self).workflows_spec().contains_key(k)
                    ==> final(self).workflows_spec()[k] == old(self).workflows_spec()[k],
            r is Ok ==> final(self).pending_events().len() == old(self).pending_events().len() + 1
                && final(self).pending_events().drop_last() == old(self).pending_events() && (
            final(self).pending_events().last() matches SchedulerEvent::WorkflowRegistered {
                workflow_id: w,
                workflow_name: n,
            } && w@ == info.id@ && n@ == info.name@),
            final(self).execution_entries() == old(self).execution_entries(),
            final(self).executions_spec() == old(self).executions_spec(),
            final(self).running_spec() == old(self).running_spec(),
            final(self).max_concurrent_spec() == old(self).max_concurrent_spec(),
            final(self).default_timeout_spec() == old(self).default_timeout_spec(),
    {
        match self.workflows.get(info.id.inner().as_str()) {
            Some(existing) => {
                let a = join("Workflow with ID ", info.id.inner().as_str());
                let b = join(a.as_str(), " already exists: ");
                let m = join(b.as_str(), existing.info.name.as_str());
                return Err(Error::AlreadyExists(m));
            },
            None => {},
        }
        let event = SchedulerEvent::WorkflowRegistered {
            workflow_id: info.id.clone(),
            workflow_name: info.name.clone(),
        };
        let key = owned(info.id.inner().as_str());
        self.workflows.insert(key, RegisteredWorkflow { info, handle });
        let ghost before = self.events@;
        self.events.push(event);
        proof {
            assert(self.events@.drop_last() =~= before);
        }
        Ok(())
    }

    /// Unregister a workflow, cancelling its active executions
    pub fn unregister_workflow(&mut self, workflow_id: &WorkflowId) -> (r: Result<()>)
        ensures
            r is Ok <==> old(self).workflows_spec().contains_key(workflow_id@),
            r matches Err(e) ==> (e matches Error::NotFound(m) && m@ == "Workflow with ID "@
                + workflow_id@ + " not found"@),
            r is Err ==> final(self).workflows_spec() == old(self).workflows_spec()
                && final(self).pending_events() == old(self).pending_events()
                && final(self).execution_entries() == old(self).execution_entries(),
            r is Ok ==> final(self).workflows_spec() == old(self).workflows_spec().remove(
                workflow_id@,
            ) && count_active_for(final(self).execution_entries(), workflow_id@) == 0
                && final(self).pending_events().len() == old(self).pending_events().len() + 1
                && final(self).pending_events().drop_last() == old(self).pending_events() && (
            final(self).pending_events().last() matches SchedulerEvent::WorkflowUnregistered {
                workflow_id: w,
                workflow_name: n,
            } && w@ == workflow_id@ && n@ == old(self).workflows_spec()[workflow_id@].info.name@),
            final(self).executions_spec().dom() == old(self).executions_spec().dom(),
            final(self).running_spec() == old(self).running_spec(),
            final(self).max_concurrent_spec() == old(self).max_concurrent_spec(),
            final(self).default_timeout_spec() == old(self).default_timeout_spec(),
    {
        match self.workflows.remove(workflow_id.inner().as_str()) {
            Some(wf) => {
                let ghost old_entries = self.execution_entries();
                self.cancel_matching(Some(workflow_id), None);
                proof {
                    let ne = self.execution_entries();
                    assert forall|i: int|
                        0 <= i < ne.len() && (#[trigger] ne[i]).1.workflow_spec()
                            == workflow_id@ implies !exec_active(ne[i].1) by {
                        let _o = old_entries[i];
                    }
                    lemma_none_active_for(ne, workflow_id@);
                }
                let ghost before = self.events@;
                self.events.push(
                    SchedulerEvent::WorkflowUnregistered {
                        workflow_id: workflow_id.clone(),
                        workflow_name: wf.info.name,
                    },
                );
                proof {
                    assert(self.events@.drop_last() =~= before);
                }
                Ok(())
            },
            None => {
                let a = join("Workflow with ID ", workflow_id.inner().as_str());
                Err(Error::NotFound(join(a.as_str(), " not found")))
            },
        }
    }

    /// Get a workflow by ID
    pub fn get_workflow(&self, workflow_id: &WorkflowId) -> (r: Result<&W>)
        ensures
            match r {
                Ok(h) => self.workflows_spec().contains_key(workflow_id@) && *h
                    == self.workflows_spec()[workflow_id@].handle,
                Err(e) => !self.workflows_spec().contains_key(workflow_id@) && (e matches Error::NotFound(
                    m,
                ) && m@ == "Workflow with ID "@ + workflow_id@ + " not found"@),
            },
    {
        match self.workflows.get(workflow_id.inner().as_str()) {
            Some(w) => Ok(&w.handle),
            None => {
                let a = join("Workflow with ID ", workflow_id.inner().as_str());
                Err(Error::NotFound(join(a.as_str(), " not found")))
            },
        }
    }

    /// Get all registered workflows, each once, in registration order
    pub fn get_workflows(&self) -> (r: Result<Vec<&W>>)
        ensures
            r matches Ok(v) && v@.len() == self.workflow_entries().len() && forall|i: int|
                0 <= i < v@.len() ==> *#[trigger] v@[i] == self.workflow_entries()[i].1.handle,
            self.workflows_spec() == entries_map(self.workflow_entries()),
            keys_unique(self.workflow_entries()),
    {
        let n = self.workflows.len();
        let mut out: Vec<&W> = Vec::new();
        let mut i: usize = 0;
        while i < n
            invariant
                n == self.workflows.entry_seq().len(),
                i <= n,
                out@.len() == i,
                forall|j: int| 0 <= j < i ==> *#[trigger] out@[j] == self.workflows.entry_seq()[j].1.handle,
            decreases n - i,
        {
            let (_k, w) = self.workflows.entry_at(i);
            out.push(&w.handle);
            i = i + 1;
        }
        Ok(out)
    }

    /// Get a workflow execution by ID
    pub fn get_execution(&self, execution_id: &str) -> (r: Result<&WorkflowExecution>)
        ensures
            match r {
                Ok(e) => self.executions_spec().contains_key(execution_id@) && *e
                    == self.executions_spec()[execution_id@],
                Err(e) => !self.executions_spec().contains_key(execution_id@) && (e matches Error::NotFound(
                    m,
                ) && m@ == "Execution with ID "@ + execution_id@ + " not found"@),
            },
    {
        match self.executions.get(execution_id) {
            Some(e) => Ok(e),
            None => {
                let a = join("Execution with ID ", execution_id);
                Err(Error::NotFound(join(a.as_str(), " not found")))
            },
        }
    }

    /// Get all executions that are still active, in the order recorded
    pub fn get_active_executions(&self) -> (r: Result<Vec<&WorkflowExecution>>)
        ensures
            r matches Ok(v) && v@.len() == self.active_count() && forall|i: int|
                0 <= i < v@.len() ==> exec_active(*#[trigger] v@[i]),
    {
        let n = self.executions.len();
        let mut out: Vec<&WorkflowExecution> = Vec::new();
        let mut i: usize = 0;
        while i < n
            invariant
                n == self.executions.entry_seq().len(),
                i <= n,
                out@.len() == count_active(self.executions.entry_seq().take(i as int)),
                forall|j: int| 0 <= j < out@.len() ==> exec_active(*#[trigger] out@[j]),
            decreases n - i,
        {
            let (_k, e) = self.executions.entry_at(i);
            proof {
                let s = self.executions.entry_seq();
                assert(s.take(i + 1).drop_last() =~= s.take(i as int));
            }
            if e.is_active() {
                out.push(e);
            }
            i = i + 1;
        }
        proof {
            assert(self.executions.entry_seq().take(n as int) =~= self.executions.entry_seq());
        }
        Ok(out)
    }

    /// Get all workflow executions, in the order recorded
    pub fn get_executions(&self) -> (r: Result<Vec<&WorkflowExecution>>)
        ensures
            r matches Ok(v) && v@.len() == self.execution_entries().len() && forall|i: int|
                0 <= i < v@.len() ==> *#[trigger] v@[i] == self.execution_entries()[i].1,
    {
        let n = self.executions.len();
        let mut out: Vec<&WorkflowExecution> = Vec::new();
        let mut i: usize = 0;
        while i < n
            invariant
                n == self.executions.entry_seq().len(),
                i <= n,
                out@.len() == i,
                forall|j: int| 0 <= j < i ==> *#[trigger] out@[j] == self.executions.entry_seq()[j].1,
            decreases n - i,
        {
            let (_k, e) = self.executions.entry_at(i);
            out.push(e);
            i = i + 1;
        }
        Ok(out)
    }

    /// Cancel a workflow execution; the caller stops its task
    pub fn cancel_execution(&mut self, execution_id: &str) -> (r: Result<()>)
        ensures
            r is Ok <==> old(self).executions_spec().contains_key(execution_id@),
            r matches Err(e) ==> (e matches Error::NotFound(m) && m@ == "Execution with ID "@
                + execution_id@ + " not found"@),
            r is Ok ==> final(self).executions_spec()[execution_id@].status_spec() is Cancelled
                || (!exec_active(old(self).executions_spec()[execution_id@])
                && final(self).executions_spec()[execution_id@].status_spec() == old(
                self,
            ).executions_spec()[execution_id@].status_spec()),
            final(self).executions_spec().dom() == old(self).executions_spec().dom(),
            final(self).workflows_spec() == old(self).workflows_spec(),
            final(self).running_spec() == old(self).running_spec(),
            final(self).pending_events() == old(self).pending_events(),
            final(self).max_concurrent_spec() == old(self).max_concurrent_spec(),
            final(self).default_timeout_spec() == old(self).default_timeout_spec(),
    {
        match self.executions.find(execution_id) {
            Some(i) => {
                let ghost old_entries = self.execution_entries();
                self.cancel_matching(None, Some(execution_id));
                let _count = self.executions.len();
                proof {
                    let ne = self.execution_entries();
                    crate::str_map::lemma_key_index_unique(old_entries, i as int);
                    self.executions.lemma_entry_seq();
                    old(self).executions.lemma_entry_seq();
                    assert(ne[i as int].0 == old_entries[i as int].0);
                    crate::str_map::lemma_key_index_unique(ne, i as int);
                }
                Ok(())
            },
            None => {
                let a = join("Execution with ID ", execution_id);
                Err(Error::NotFound(join(a.as_str(), " not found")))
            },
        }
    }

    /// Count the active executions, overall and of one workflow.
    fn count_active_of(&self, workflow_id: &WorkflowId) -> (r: (usize, usize))
        ensures
            r.0 == count_active(self.execution_entries()),
            r.1 == count_active_for(self.execution_entries(), workflow_id@),
    {
        let n = self.executions.len();
        let mut all: usize = 0;
        let mut mine: usize = 0;
        let mut i: usize = 0;
        while i < n
            invariant
                n == self.executions.entry_seq().len(),
                i <= n,
                all == count_active(self.executions.entry_seq().take(i as int)),
                mine == count_active_for(self.executions.entry_seq().take(i as int), workflow_id@),
                all <= i,
                mine <= i,
            decreases n - i,
        {
            let (_k, e) = self.executions.entry_at(i);
            proof {
                let s = self.executions.entry_seq();
                assert(s.take(i + 1).drop_last() =~= s.take(i as int));
            }
            if e.is_active() {
                all = all + 1;
                if e.workflow_id.inner().same(workflow_id.inner()) {
                    mine = mine + 1;
                }
            }
            i = i + 1;
        }
        proof {
            assert(self.executions.entry_seq().take(n as int) =~= self.executions.entry_seq());
        }
        (all, mine)
    }

    /// Admit an execution of a registered, enabled workflow when the overall
    /// limit and the workflow's own limit leave room; the execution is
    /// recorded as running. Returns its identifier and the seconds it may
    /// run; the caller runs it.
    pub fn queue_workflow_execution(
        &mut self,
        workflow_id: WorkflowId,
        trigger_event: Option<TriggerEvent>,
    ) -> (r: Result<(String, u64)>)
        ensures
            ({
                let wid = workflow_id@;
                let reg = old(self).workflows_spec();
                let before = old(self).active_count();
                let mine = count_active_for(old(self).execution_entries(), wid);
                &&& !reg.contains_key(wid) ==> (r matches Err(e) && e matches Error::NotFound(m)
                    && m@ == "Workflow with ID "@ + wid + " not found"@)
                &&& reg.contains_key(wid) && !reg[wid].info.enabled ==> (r matches Err(e)
                    && e matches Error::Workflow(m) && m@ == "Workflow "@ + reg[wid].info.name@
                    + " is disabled"@)
                &&& reg.contains_key(wid) && reg[wid].info.enabled && before
                    >= old(self).max_concurrent_spec() ==> (r matches Err(e)
                    && e matches Error::Workflow(m) && m@
                    == "Too many concurrent workflow executions (max: "@ + decimal_of(
                    old(self).max_concurrent_spec() as nat,
                ) + ")"@)
                &&& reg.contains_key(wid) && reg[wid].info.enabled && before < old(
                    self,
                ).max_concurrent_spec() && (reg[wid].info.max_concurrent matches Some(m)
                    && mine >= m) ==> (r matches Err(e) && e matches Error::Workflow(msg) && msg@
                    == "Too many concurrent executions of workflow "@ + reg[wid].info.name@
                    + " (max: "@ + decimal_of(reg[wid].info.max_concurrent->0 as nat) + ")"@)
                &&& r is Ok <==> reg.contains_key(wid) && reg[wid].info.enabled && before < old(
                    self,
                ).max_concurrent_spec() && !(reg[wid].info.max_concurrent matches Some(m) && mine
                    >= m)
                &&& r matches Ok(p) ==> {
                    &&& final(self).executions_spec().contains_key(p.0@)
                    &&& final(self).executions_spec()[p.0@].workflow_spec() == wid
                    &&& final(self).executions_spec()[p.0@].status_spec() is Running
                    &&& final(self).executions_spec()[p.0@].start_spec() is Some
                    &&& final(self).executions_spec()[p.0@].trigger_spec() == trigger_event
                    &&& final(self).executions_spec() == old(self).executions_spec().insert(
                        p.0@,
                        final(self).executions_spec()[p.0@],
                    )
                    &&& p.1 == timeout_secs(reg[wid].info.timeout, old(self).default_timeout_spec())
                    &&& final(self).active_count() <= before + 1
                    &&& final(self).active_count() <= old(self).max_concurrent_spec()
                }
                &&& r is Err ==> final(self).execution_entries() == old(self).execution_entries()
                    && final(self).executions_spec() == old(self).executions_spec()
            }),
            final(self).workflows_spec() == old(self).workflows_spec(),
            final(self).running_spec() == old(self).running_spec(),
            final(self).pending_events() == old(self).pending_events(),
            final(self).max_concurrent_spec() == old(self).max_concurrent_spec(),
            final(self).default_timeout_spec() == old(self).default_timeout_spec(),
    {
        let (info_enabled, info_max, info_timeout, info_name) = match self.workflows.get(
            workflow_id.inner().as_str(),
        ) {
            Some(w) => (w.info.enabled, w.info.max_concurrent, w.info.timeout, w.info.name.clone()),
            None => {
                let a = join("Workflow with ID ", workflow_id.inner().as_str());
                return Err(Error::NotFound(join(a.as_str(), " not found")));
            },
        };
        if !info_enabled {
            let a = join("Workflow ", info_name.as_str());
            return Err(Error::Workflow(join(a.as_str(), " is disabled")));
        }
        let (all, mine) = self.count_active_of(&workflow_id);
        if all >= self.max_concurrent {
            let n = u64_to_decimal(self.max_concurrent as u64);
            let a = join("Too many concurrent workflow executions (max: ", n.as_str());
            return Err(Error::Workflow(join(a.as_str(), ")")));
        }
        match info_max {
            Some(m) => {
                if mine >= m {
                    let n = u64_to_decimal(m as u64);
                    let a = join("Too many concurrent executions of workflow ", info_name.as_str());
                    let b = join(a.as_str(), " (max: ");
                    let c = join(b.as_str(), n.as_str());
                    return Err(Error::Workflow(join(c.as_str(), ")")));
                }
            },
            None => {},
        }
        let timeout = match info_timeout {
            Some(d) => duration_as_secs(d),
            None => match self.default_timeout {
                Some(d) => duration_as_secs(d),
                None => 60,
            },
        };
        let mut execution = WorkflowExecution::new(workflow_id, trigger_event);
        execution.start_time = Some(now());
        execution.status = WorkflowExecutionStatus::Running;
        let execution_id = execution.id.clone();
        let ghost old_entries = self.executions.entry_seq();
        let ghost stored = execution;
        let had = self.executions.contains_key(execution_id.as_str());
        self.executions.insert(execution_id.clone(), execution);
        proof {
            let ne = self.executions.entry_seq();
            if had {
                let i = choose|i: int|
                    0 <= i < old_entries.len() && (#[trigger] old_entries[i]).0@ == execution_id@
                        && ne == old_entries.update(i, (execution_id, stored));
                lemma_count_update(old_entries, i, (execution_id, stored), workflow_id@);
            } else {
                assert(ne.drop_last() =~= old_entries);
            }
        }
        Ok((execution_id, timeout))
    }

    /// Trigger a workflow by hand, with optional variables as the event's
    /// data; the execution is admitted as by `queue_workflow_execution`.
    pub fn trigger_workflow(&mut self, workflow_id: &WorkflowId, variables: Option<StrMap<Value>>) -> (r:
        Result<String>)
        ensures
            r is Ok <==> {
                let wid = workflow_id@;
                let reg = old(self).workflows_spec();
                &&& reg.contains_key(wid)
                &&& reg[wid].info.enabled
                &&& old(self).active_count() < old(self).max_concurrent_spec()
                &&& !(reg[wid].info.max_concurrent matches Some(m) && count_active_for(
                    old(self).execution_entries(),
                    wid,
                ) >= m)
            },
            r matches Ok(id) ==> final(self).executions_spec().contains_key(id@)
                && final(self).executions_spec()[id@].workflow_spec() == workflow_id@
                && final(self).active_count() <= old(self).max_concurrent_spec(),
            r matches Ok(id) ==> (final(self).executions_spec()[id@].trigger_spec() matches Some(
                TriggerEvent::Manual(m),
            ) && m.user_id is None && m.data@ == match variables {
                Some(v) => v@,
                None => Map::<Seq<char>, Value>::empty(),
            }),
            ({
                let wid = workflow_id@;
                let reg = old(self).workflows_spec();
                &&& !reg.contains_key(wid) ==> (r matches Err(e) && e matches Error::NotFound(m)
                    && m@ == "Workflow with ID "@ + wid + " not found"@)
                &&& reg.contains_key(wid) && !reg[wid].info.enabled ==> (r matches Err(e)
                    && e matches Error::Workflow(m) && m@ == "Workflow "@ + reg[wid].info.name@
                    + " is disabled"@)
                &&& reg.contains_key(wid) && reg[wid].info.enabled && old(self).active_count()
                    >= old(self).max_concurrent_spec() ==> (r matches Err(e)
                    && e matches Error::Workflow(m) && m@
                    == "Too many concurrent workflow executions (max: "@ + decimal_of(
                    old(self).max_concurrent_spec() as nat,
                ) + ")"@)
                &&& reg.contains_key(wid) && reg[wid].info.enabled && old(self).active_count() < old(
                    self,
                ).max_concurrent_spec() && (reg[wid].info.max_concurrent matches Some(m)
                    && count_active_for(old(self).execution_entries(), wid) >= m) ==> (r matches Err(
                    e,
                ) && e matches Error::Workflow(msg) && msg@
                    == "Too many concurrent executions of workflow "@ + reg[wid].info.name@
                    + " (max: "@ + decimal_of(reg[wid].info.max_concurrent->0 as nat) + ")"@)
            }),
            r is Err ==> final(self).executions_spec() == old(self).executions_spec(),
            final(self).workflows_spec() == old(self).workflows_spec(),
    {
        let data = match variables {
            Some(v) => v,
            None => StrMap::new(),
        };
        let event = TriggerEvent::Manual(
            ManualTriggerEvent { timestamp: now(), user_id: None, data },
        );
        match self.queue_workflow_execution(workflow_id.clone(), Some(event)) {
            Ok((id, _secs)) => Ok(id),
            Err(e) => Err(e),
        }
    }
}

/// When no entry is active, the active counts are zero.
proof fn lemma_none_active(s: Seq<(String, WorkflowExecution)>)
    requires
        forall|i: int| 0 <= i < s.len() ==> !exec_active(#[trigger] s[i].1),
    ensures
        count_active(s) == 0,
    decreases s.len(),
{
    if s.len() > 0 {
        assert forall|i: int| 0 <= i < s.drop_last().len() implies !exec_active(
            #[trigger] s.drop_last()[i].1,
        ) by {
            assert(s.drop_last()[i] == s[i]);
        }
        lemma_none_active(s.drop_last());
        assert(!exec_active(s[s.len() - 1].1));
    }
}

/// When no entry of workflow `w` is active, its active count is zero.
proof fn lemma_none_active_for(s: Seq<(String, WorkflowExecution)>, w: Seq<char>)
    requires
        forall|i: int|
            0 <= i < s.len() && (#[trigger] s[i]).1.workflow_spec() == w ==> !exec_active(s[i].1),
    ensures
        count_active_for(s, w) == 0,
    decreases s.len(),
{
    if s.len() > 0 {
        assert forall|i: int|
            0 <= i < s.drop_last().len() && (#[trigger] s.drop_last()[i]).1.workflow_spec()
                == w implies !exec_active(s.drop_last()[i].1) by {
            assert(s.drop_last()[i] == s[i]);
        }
        lemma_none_active_for(s.drop_last(), w);
        assert(s[s.len() - 1] == s.last());
    }
}

} // verus!
