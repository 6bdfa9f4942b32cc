//! A simple rules engine: rules with an optional condition and a list of
//! actions, the engine that holds them by identifier, and the results and
//! events of evaluating a rule.
use vstd::prelude::*;

use crate::mechaflow_core::error::{join, owned};
use crate::mechaflow_core::types::Value;
use crate::mechaflow_engine::action::{same_result, ActionResult};
use crate::mechaflow_engine::error::{engine_error_text, Error, Result};
use crate::str_map::{str_eq, StrMap};

verus! {

/// Rule identifier
#[derive(Debug, Hash)]
pub struct RuleId(String);

impl View for RuleId {
    type V = Seq<char>;

    closed spec fn view(&self) -> Seq<char> {
        self.0@
    }
}

impl RuleId {
    /// Create a new rule ID
    pub fn new(id: &str) -> (r: Self)
        ensures
            r@ == id@,
    {
        RuleId(owned(id))
    }

    /// Get the inner string
    pub fn inner(&self) -> (r: &str)
        ensures
            r@ == self@,
    {
        self.0.as_str()
    }

    /// The identifier as text.
    pub fn to_string(&self) -> (r: String)
        ensures
            r@ == self@,
    {
        self.0.clone()
    }
}

impl Clone for RuleId {
    fn clone(&self) -> (r: Self)
        ensures
            r@ == self@,
    {
        RuleId(self.0.clone())
    }
}

impl PartialEq for RuleId {
    fn eq(&self, other: &Self) -> (r: bool) {
        str_eq(self.0.as_str(), other.0.as_str())
    }
}

impl vstd::std_specs::cmp::PartialEqSpecImpl for RuleId {
    open spec fn obeys_eq_spec() -> bool {
        true
    }

    open spec fn eq_spec(&self, other: &RuleId) -> bool {
        self@ == other@
    }
}

impl Eq for RuleId {
}

impl From<&str> for RuleId {
    fn from(s: &str) -> (r: Self)
        ensures
            r@ == s@,
    {
        RuleId::new(s)
    }
}

impl vstd::std_specs::convert::FromSpecImpl<&str> for RuleId {
    /// The `ensures` of `from` states the conversion.
    open spec fn obeys_from_spec() -> bool {
        false
    }

    open spec fn from_spec(v: &str) -> RuleId {
        arbitrary()
    }
}

impl From<String> for RuleId {
    fn from(s: String) -> (r: Self)
        ensures
            r@ == s@,
    {
        RuleId(s)
    }
}

impl vstd::std_specs::convert::FromSpecImpl<String> for RuleId {
    /// The `ensures` of `from` states the conversion.
    open spec fn obeys_from_spec() -> bool {
        false
    }

    open spec fn from_spec(v: String) -> RuleId {
        arbitrary()
    }
}

/// What checking a rule's condition takes.
#[derive(Debug)]
pub enum ConditionPhase<'a, C> {
    /// The rule is disabled: the condition counts as not met
    Disabled,
    /// The rule has no condition: it always applies
    Unconditional,
    /// Evaluate this condition
    Evaluate(&'a C),
}

/// Result of evaluating a rule
#[derive(Debug)]
pub struct RuleEvaluationResult {
    /// Rule ID
    pub rule_id: RuleId,
    /// Rule name
    pub rule_name: String,
    /// Whether the condition was met
    pub condition_met: bool,
    /// Action results, if the condition was met
    pub action_results: Vec<ActionResult>,
    /// Error, if any
    pub error: Option<String>,
}

/// Rule engine events
#[derive(Debug)]
pub enum RuleEngineEvent {
    /// Rule was triggered
    RuleTriggered {
        /// Rule ID
        rule_id: RuleId,
        /// Rule name
        rule_name: String,
    },
    /// Rule was executed
    RuleExecuted {
        /// Rule ID
        rule_id: RuleId,
        /// Rule name
        rule_name: String,
        /// Action results
        results: Vec<ActionResult>,
    },
    /// Rule execution failed
    RuleFailed {
        /// Rule ID
        rule_id: RuleId,
        /// Rule name
        rule_name: String,
        /// Error message
        error: String,
    },
    /// Rule was added
    RuleAdded {
        /// Rule ID
        rule_id: RuleId,
        /// Rule name
        rule_name: String,
    },
    /// Rule was removed
    RuleRemoved {
        /// Rule ID
        rule_id: RuleId,
        /// Rule name
        rule_name: String,
    },
    /// Rule was enabled
    RuleEnabled {
        /// Rule ID
        rule_id: RuleId,
        /// Rule name
        rule_name: String,
    },
    /// Rule was disabled
    RuleDisabled {
        /// Rule ID
        rule_id: RuleId,
        /// Rule name
        rule_name: String,
    },
}

/// A rule: an optional condition and actions; `C` and `A` are the handles
/// of a condition and of an action.
#[derive(Debug)]
pub struct Rule<C, A> {
    id: RuleId,
    name: String,
    description: Option<String>,
    condition: Option<C>,
    actions: Vec<A>,
    enabled: bool,
    metadata: StrMap<Value>,
}

impl<C, A> Rule<C, A> {
    /// The rule's identifier.
    pub closed spec fn id_spec(self) -> Seq<char> {
        self.id@
    }

    /// The rule's name.
    pub closed spec fn name_spec(self) -> Seq<char> {
        self.name@
    }

    /// The rule's condition, if any.
    pub closed spec fn condition_spec(self) -> Option<C> {
        self.condition
    }

    /// The rule's actions in order.
    pub closed spec fn actions_spec(self) -> Seq<A> {
        self.actions@
    }

    /// Whether the rule is enabled.
    pub closed spec fn enabled_spec(self) -> bool {
        self.enabled
    }

    /// The rule's metadata.
    pub closed spec fn metadata_spec(self) -> Map<Seq<char>, Value> {
        self.metadata@
    }

    /// Create a new, enabled rule without condition or actions
    pub fn new(id: RuleId, name: &str) -> (r: Self)
        ensures
            r.id_spec() == id@,
            r.name_spec() == name@,
            r.condition_spec() is None,
            r.actions_spec().len() == 0,
            r.enabled_spec(),
            r.metadata_spec() == Map::<Seq<char>, Value>::empty(),
    {
        Rule {
            id,
            name: owned(name),
            description: None,
            condition: None,
            actions: Vec::new(),
            enabled: true,
            metadata: StrMap::new(),
        }
    }

    /// Get the rule ID
    pub fn id(&self) -> (r: &RuleId)
        ensures
            r@ == self.id_spec(),
    {
        &self.id
    }

    /// Get the rule name
    pub fn name(&self) -> (r: &str)
        ensures
            r@ == self.name_spec(),
    {
        self.name.as_str()
    }

    /// The description, if one was given.
    pub closed spec fn description_spec(self) -> Option<Seq<char>> {
        match self.description {
            Some(d) => Some(d@),
            None => None,
        }
    }

    /// Get the rule description
    pub fn description(&self) -> (r: Option<&str>)
        ensures
            match r {
                Some(d) => self.description_spec() == Some(d@),
                None => self.description_spec() is None,
            },
    {
        match &self.description {
            Some(d) => Some(d.as_str()),
            None => None,
        }
    }

    /// Set the rule description
    pub fn set_description(&mut self, description: &str)
        ensures
            final(self).description_spec() == Some(description@),
            final(self).id_spec() == old(self).id_spec(),
            final(self).name_spec() == old(self).name_spec(),
            final(self).condition_spec() == old(self).condition_spec(),
            final(self).actions_spec() == old(self).actions_spec(),
            final(self).enabled_spec() == old(self).enabled_spec(),
            final(self).metadata_spec() == old(self).metadata_spec(),
    {
        self.description = Some(owned(description));
    }

    /// Set the rule condition
    pub fn set_condition(&mut self, condition: C)
        ensures
            final(self).condition_spec() == Some(condition),
            final(self).id_spec() == old(self).id_spec(),
            final(self).name_spec() == old(self).name_spec(),
            final(self).actions_spec() == old(self).actions_spec(),
            final(self).enabled_spec() == old(self).enabled_spec(),
    {
        self.condition = Some(condition);
    }

    /// Get the rule condition
    pub fn condition(&self) -> (r: Option<&C>)
        ensures
            match r {
                Some(c) => self.condition_spec() == Some(*c),
                None => self.condition_spec() is None,
            },
    {
        match &self.condition {
            Some(c) => Some(c),
            None => None,
        }
    }

    /// Add a rule action
    pub fn add_action(&mut self, action: A)
        ensures
            final(self).actions_spec() == old(self).actions_spec().push(action),
            final(self).id_spec() == old(self).id_spec(),
            final(self).name_spec() == old(self).name_spec(),
            final(self).condition_spec() == old(self).condition_spec(),
            final(self).enabled_spec() == old(self).enabled_spec(),
    {
        self.actions.push(action);
    }

    /// Get all rule actions
    pub fn actions(&self) -> (r: &[A])
        ensures
            r@ == self.actions_spec(),
    {
        self.actions.as_slice()
    }

    /// Check if the rule is enabled
    pub fn is_enabled(&self) -> (r: bool)
        ensures
            r == self.enabled_spec(),
    {
        self.enabled
    }

    /// Enable the rule
    pub fn enable(&mut self)
        ensures
            final(self).enabled_spec(),
            final(self).id_spec() == old(self).id_spec(),
            final(self).name_spec() == old(self).name_spec(),
            final(self).condition_spec() == old(self).condition_spec(),
            final(self).actions_spec() == old(self).actions_spec(),
    {
        self.enabled = true;
    }

    /// Disable the rule
    pub fn disable(&mut self)
        ensures
            !final(self).enabled_spec(),
            final(self).id_spec() == old(self).id_spec(),
            final(self).name_spec() == old(self).name_spec(),
            final(self).condition_spec() == old(self).condition_spec(),
            final(self).actions_spec() == old(self).actions_spec(),
    {
        self.enabled = false;
    }

    /// Set rule metadata
    pub fn set_metadata(&mut self, key: &str, value: Value)
        ensures
            final(self).metadata_spec() == old(self).metadata_spec().insert(key@, value),
            final(self).id_spec() == old(self).id_spec(),
            final(self).name_spec() == old(self).name_spec(),
            final(self).condition_spec() == old(self).condition_spec(),
            final(self).actions_spec() == old(self).actions_spec(),
            final(self).enabled_spec() == old(self).enabled_spec(),
    {
        self.metadata.insert(owned(key), value);
    }

    /// Get rule metadata
    pub fn metadata(&self) -> (r: &StrMap<Value>)
        ensures
            r@ == self.metadata_spec(),
    {
        &self.metadata
    }

    /// Get a metadata value
    pub fn get_metadata(&self, key: &str) -> (r: Option<&Value>)
        ensures
            match r {
                Some(v) => self.metadata_spec().contains_key(key@) && *v
                    == self.metadata_spec()[key@],
                None => !self.metadata_spec().contains_key(key@),
            },
    {
        self.metadata.get(key)
    }

    /// What checking the condition takes: nothing for a disabled rule (not
    /// met) or a rule without condition (met), else evaluating it.
    pub fn condition_phase(&self) -> (r: ConditionPhase<'_, C>)
        ensures
            !self.enabled_spec() ==> r is Disabled,
            self.enabled_spec() && self.condition_spec() is None ==> r is Unconditional,
            self.enabled_spec() && self.condition_spec() is Some ==> (r matches ConditionPhase::Evaluate(c)
                && Some(*c) == self.condition_spec()),
    {
        if !self.enabled {
            return ConditionPhase::Disabled;
        }
        match &self.condition {
            Some(c) => ConditionPhase::Evaluate(c),
            None => ConditionPhase::Unconditional,
        }
    }

    /// Refuse to run the actions of a disabled rule.
    pub fn check_can_execute(&self) -> (r: Result<()>)
        ensures
            r is Ok <==> self.enabled_spec(),
            r matches Err(e) ==> (e matches Error::Rule(m) && m@ == "Rule "@ + self.name_spec()
                + " is disabled"@),
    {
        if !self.enabled {
            let a = join("Rule ", self.name.as_str());
            return Err(Error::Rule(join(a.as_str(), " is disabled")));
        }
        Ok(())
    }

    /// The evaluation result of this rule with the given condition and
    /// action outcome, and no actions run.
    fn result(&self, met: bool, error: Option<String>) -> (r: RuleEvaluationResult)
        ensures
            r.rule_id@ == self.id_spec(),
            r.rule_name@ == self.name_spec(),
            r.condition_met == met,
            r.action_results@.len() == 0,
            r.error == error,
    {
        RuleEvaluationResult {
            rule_id: self.id.clone(),
            rule_name: self.name.clone(),
            condition_met: met,
            action_results: Vec::new(),
            error,
        }
    }

    /// The result when the rule is not applied because it is disabled.
    pub fn disabled_result(&self) -> (r: RuleEvaluationResult)
        ensures
            r.rule_id@ == self.id_spec(),
            r.rule_name@ == self.name_spec(),
            !r.condition_met,
            r.action_results@.len() == 0,
            r.error is None,
    {
        self.result(false, None)
    }

    /// After the condition was checked: the final result when it failed or
    /// did not hold, or `None` when the actions are to run next.
    pub fn result_after_condition(&self, outcome: Result<bool>) -> (r: Option<RuleEvaluationResult>)
        ensures
            match outcome {
                Ok(true) => r is None,
                Ok(false) => r matches Some(res) && res.rule_id@ == self.id_spec()
                    && res.rule_name@ == self.name_spec() && !res.condition_met
                    && res.action_results@.len() == 0 && res.error is None,
                Err(e) => r matches Some(res) && res.rule_id@ == self.id_spec()
                    && res.rule_name@ == self.name_spec() && !res.condition_met
                    && res.action_results@.len() == 0 && (res.error matches Some(m) && m@
                    == "Failed to evaluate condition: "@ + engine_error_text(e)),
            },
    {
        match outcome {
            Ok(true) => None,
            Ok(false) => Some(self.result(false, None)),
            Err(e) => {
                let msg = join("Failed to evaluate condition: ", e.to_string().as_str());
                Some(self.result(false, Some(msg)))
            },
        }
    }

    /// The event announcing that the rule's condition held.
    pub fn triggered_event(&self) -> (r: RuleEngineEvent)
        ensures
            r matches RuleEngineEvent::RuleTriggered { rule_id, rule_name } && rule_id@
                == self.id_spec() && rule_name@ == self.name_spec(),
    {
        RuleEngineEvent::RuleTriggered { rule_id: self.id.clone(), rule_name: self.name.clone() }
    }

    /// After the actions ran: the final result and the event announcing it.
    pub fn result_after_actions(&self, outcome: Result<Vec<ActionResult>>) -> (r: (
        RuleEvaluationResult,
        RuleEngineEvent,
    ))
        ensures
            r.0.rule_id@ == self.id_spec(),
            r.0.rule_name@ == self.name_spec(),
            r.0.condition_met,
            match outcome {
                Ok(results) => r.0.action_results == results && r.0.error is None && (
                r.1 matches RuleEngineEvent::RuleExecuted { rule_id, rule_name, results: copy }
                    && rule_id@ == self.id_spec() && rule_name@ == self.name_spec() && copy@.len()
                    == results@.len() && forall|i: int|
                    0 <= i < copy@.len() ==> same_result(#[trigger] copy@[i], results@[i])),
                Err(e) => r.0.action_results@.len() == 0 && (r.0.error matches Some(m) && m@
                    == engine_error_text(e)) && (r.1 matches RuleEngineEvent::RuleFailed {
                    rule_id,
                    rule_name,
                    error,
                } && rule_id@ == self.id_spec() && rule_name@ == self.name_spec() && error@
                    == engine_error_text(e)),
            },
    {
        match outcome {
            Ok(results) => {
                let mut copy: Vec<ActionResult> = Vec::new();
                let mut i: usize = 0;
                while i < results.len()
                    invariant
                        i <= results@.len(),
                        copy@.len() == i,
                        forall|j: int| 0 <= j < i ==> same_result(#[trigger] copy@[j], results@[j]),
                    decreases results@.len() - i,
                {
                    copy.push(results[i].duplicate());
                    i = i + 1;
                }
                let event = RuleEngineEvent::RuleExecuted {
                    rule_id: self.id.clone(),
                    rule_name: self.name.clone(),
                    results: copy,
                };
                (
                    RuleEvaluationResult {
                        rule_id: self.id.clone(),
                        rule_name: self.name.clone(),
                        condition_met: true,
                        action_results: results,
                        error: None,
                    },
                    event,
                )
            },
            Err(e) => {
                let msg = e.to_string();
                let event = RuleEngineEvent::RuleFailed {
                    rule_id: self.id.clone(),
                    rule_name: self.name.clone(),
                    error: msg.clone(),
                };
                (self.result(true, Some(msg)), event)
            },
        }
    }
}

/// Rules engine for executing rules; `C` and `A` are the handles of a
/// condition and of an action.
#[derive(Debug)]
pub struct RuleEngine<C, A> {
    rules: StrMap<Rule<C, A>>,
    events: Vec<RuleEngineEvent>,
}

impl<C, A> RuleEngine<C, A> {
    /// The rules by identifier.
    pub closed spec fn rules_spec(self) -> Map<Seq<char>, Rule<C, A>> {
        self.rules@
    }

    /// Events not yet taken for delivery, oldest first.
    pub closed spec fn pending_events(self) -> Seq<RuleEngineEvent> {
        self.events@
    }

    /// Create a new rule engine
    pub fn new() -> (e: Self)
        ensures
            e.rules_spec() == Map::<Seq<char>, Rule<C, A>>::empty(),
            e.pending_events().len() == 0,
    {
        RuleEngine { rules: StrMap::new(), events: Vec::new() }
    }

    /// Take the events produced since the last call, oldest first.
    pub fn take_events(&mut self) -> (r: Vec<RuleEngineEvent>)
        ensures
            r@ == old(self).pending_events(),
            final(self).pending_events().len() == 0,
            final(self).rules_spec() == old(self).rules_spec(),
    {
        let mut out: Vec<RuleEngineEvent> = Vec::new();
        std::mem::swap(&mut out, &mut self.events);
        out
    }

    /// Record an event produced while evaluating a rule.
    pub fn publish(&mut self, event: RuleEngineEvent)
        ensures
            final(self).pending_events() == old(self).pending_events().push(event),
            final(self).rules_spec() == old(self).rules_spec(),
    {
        self.events.push(event);
    }

    /// Add a rule; an identifier already taken is refused
    pub fn add_rule(&mut self, rule: Rule<C, A>) -> (r: Result<()>)
        ensures
            r is Err <==> old(self).rules_spec().contains_key(rule.id_spec()),
            r matches Err(e) ==> (e matches Error::AlreadyExists(m) && m@ == "Rule with ID "@
                + rule.id_spec() + " already exists"@),
            r is Err ==> final(self).rules_spec() == old(self).rules_spec() && final(self).pending_events() == old(self).pending_events(),
            r is Ok ==> final(self).rules_spec() == old(self).rules_spec().insert(
                rule.id_spec(),
                rule,
            ) && final(self).pending_events().len() == old(self).pending_events().len() + 1
                && final(self).pending_events().drop_last() == old(self).pending_events() && (
            final(self).pending_events().last() matches RuleEngineEvent::RuleAdded {
                rule_id,
                rule_name,
            } && rule_id@ == rule.id_spec() && rule_name@ == rule.name_spec()),
    {
        if self.rules.contains_key(rule.id.inner()) {
            let a = join("Rule with ID ", rule.id.inner());
            return Err(Error::AlreadyExists(join(a.as_str(), " already exists")));
        }
        let event = RuleEngineEvent::RuleAdded { rule_id: rule.id.clone(), rule_name: rule.name.clone() };
        let key = owned(rule.id.inner());
        self.rules.insert(key, rule);
        let ghost before = self.events@;
        self.events.push(event);
        proof {
            assert(self.events@.drop_last() =~= before);
        }
        Ok(())
    }

    /// Remove a rule
    pub fn remove_rule(&mut self, rule_id: &RuleId) -> (r: Result<()>)
        ensures
            r is Ok <==> old(self).rules_spec().contains_key(rule_id@),
            r matches Err(e) ==> (e matches Error::NotFound(m) && m@ == "Rule with ID "@ + rule_id@
                + " not found"@),
            r is Err ==> final(self).rules_spec() == old(self).rules_spec() && final(self).pending_events() == old(self).pending_events(),
            r is Ok ==> final(self).rules_spec() == old(self).rules_spec().remove(rule_id@)
                && final(self).pending_events().len() == old(self).pending_events().len() + 1
                && final(self).pending_events().drop_last() == old(self).pending_events() && (
            final(self).pending_events().last() matches RuleEngineEvent::RuleRemoved {
                rule_id: i,
                rule_name: n,
            } && i@ == rule_id@ && n@ == old(self).rules_spec()[rule_id@].name_spec()),
    {
        match self.rules.remove(rule_id.inner()) {
            Some(rule) => {
                let ghost before = self.events@;
                self.events.push(
                    RuleEngineEvent::RuleRemoved { rule_id: rule_id.clone(), rule_name: rule.name },
                );
                proof {
                    assert(self.events@.drop_last() =~= before);
                }
                Ok(())
            },
            None => {
                let a = join("Rule with ID ", rule_id.inner());
                Err(Error::NotFound(join(a.as_str(), " not found")))
            },
        }
    }

    /// Get a rule by ID
    pub fn get_rule(&self, rule_id: &RuleId) -> (r: Result<&Rule<C, A>>)
        ensures
            match r {
                Ok(rule) => self.rules_spec().contains_key(rule_id@) && *rule
                    == self.rules_spec()[rule_id@],
                Err(e) => !self.rules_spec().contains_key(rule_id@) && (e matches Error::NotFound(m)
                    && m@ == "Rule with ID "@ + rule_id@ + " not found"@),
            },
    {
        match self.rules.get(rule_id.inner()) {
            Some(rule) => Ok(rule),
            None => {
                let a = join("Rule with ID ", rule_id.inner());
                Err(Error::NotFound(join(a.as_str(), " not found")))
            },
        }
    }

    /// The rules in the order they are kept.
    pub closed spec fn rule_entries(self) -> Seq<(String, Rule<C, A>)> {
        self.rules.entry_seq()
    }

    /// Get all rules, each once
    pub fn get_rules(&self) -> (r: Vec<&Rule<C, A>>)
        ensures
            r@.len() == self.rules_spec().len(),
            r@.len() == self.rule_entries().len(),
            forall|i: int| 0 <= i < r@.len() ==> *#[trigger] r@[i] == self.rule_entries()[i].1,
    {
        let n = self.rules.len();
        let mut out: Vec<&Rule<C, A>> = Vec::new();
        let mut i: usize = 0;
        while i < n
            invariant
                n == self.rules.entry_seq().len(),
                i <= n,
                out@.len() == i,
                forall|j: int| 0 <= j < i ==> *#[trigger] out@[j] == self.rules.entry_seq()[j].1,
            decreases n - i,
        {
            let (_k, rule) = self.rules.entry_at(i);
            out.push(rule);
            i = i + 1;
        }
        out
    }

    /// Enable or disable a rule, announcing the change.
    fn set_enabled(&mut self, rule_id: &RuleId, enabled: bool) -> (r: Result<()>)
        ensures
            r is Ok <==> old(self).rules_spec().contains_key(rule_id@),
            r matches Err(e) ==> (e matches Error::NotFound(m) && m@ == "Rule with ID "@ + rule_id@
                + " not found"@),
            r is Err ==> final(self).rules_spec() == old(self).rules_spec() && final(self).pending_events() == old(self).pending_events(),
            r is Ok ==> final(self).rules_spec().dom() == old(self).rules_spec().dom() && forall|
                k: Seq<char>,
            |
                k != rule_id@ && #[trigger] old(self).rules_spec().contains_key(k) ==> final(self).rules_spec()[k] == old(self).rules_spec()[k],
            r is Ok ==> {
                let o = old(self).rules_spec()[rule_id@];
                let n = final(self).rules_spec()[rule_id@];
                &&& n.enabled_spec() == enabled
                &&& n.id_spec() == o.id_spec()
                &&& n.name_spec() == o.name_spec()
                &&& n.condition_spec() == o.condition_spec()
                &&& n.actions_spec() == o.actions_spec()
            },
            r is Ok ==> final(self).pending_events().len() == old(self).pending_events().len() + 1
                && final(self).pending_events().drop_last() == old(self).pending_events(),
            r is Ok && enabled ==> (final(self).pending_events().last() matches RuleEngineEvent::RuleEnabled {
                rule_id: i,
                rule_name: n,
            } && i@ == rule_id@ && n@ == old(self).rules_spec()[rule_id@].name_spec()),
            r is Ok && !enabled ==> (final(self).pending_events().last() matches RuleEngineEvent::RuleDisabled {
                rule_id: i,
                rule_name: n,
            } && i@ == rule_id@ && n@ == old(self).rules_spec()[rule_id@].name_spec()),
    {
        match self.rules.remove(rule_id.inner()) {
            Some(mut rule) => {
                if enabled {
                    rule.enable();
                } else {
                    rule.disable();
                }
                let name = rule.name.clone();
                self.rules.insert(owned(rule_id.inner()), rule);
                proof {
                    assert(self.rules@.dom() =~= old(self).rules@.dom());
                }
                let ghost before = self.events@;
                if enabled {
                    self.events.push(
                        RuleEngineEvent::RuleEnabled { rule_id: rule_id.clone(), rule_name: name },
                    );
                } else {
                    self.events.push(
                        RuleEngineEvent::RuleDisabled { rule_id: rule_id.clone(), rule_name: name },
                    );
                }
                proof {
                    assert(self.events@.drop_last() =~= before);
                }
                Ok(())
            },
            None => {
                let a = join("Rule with ID ", rule_id.inner());
                Err(Error::NotFound(join(a.as_str(), " not found")))
            },
        }
    }

    /// Enable a rule
    pub fn enable_rule(&mut self, rule_id: &RuleId) -> (r: Result<()>)
        ensures
            r is Ok <==> old(self).rules_spec().contains_key(rule_id@),
            r matches Err(e) ==> (e matches Error::NotFound(m) && m@ == "Rule with ID "@ + rule_id@
                + " not found"@),
            r is Ok ==> final(self).rules_spec()[rule_id@].enabled_spec() && final(self).rules_spec().dom() == old(self).rules_spec().dom(),
            r is Ok ==> (final(self).pending_events().last() matches RuleEngineEvent::RuleEnabled {
                rule_id: i,
                ..
            } && i@ == rule_id@),
            r is Err ==> final(self).rules_spec() == old(self).rules_spec(),
    {
        self.set_enabled(rule_id, true)
    }

    /// Disable a rule
    pub fn disable_rule(&mut self, rule_id: &RuleId) -> (r: Result<()>)
        ensures
            r is Ok <==> old(self).rules_spec().contains_key(rule_id@),
            r matches Err(e) ==> (e matches Error::NotFound(m) && m@ == "Rule with ID "@ + rule_id@
                + " not found"@),
            r is Ok ==> !final(self).rules_spec()[rule_id@].enabled_spec() && final(self).rules_spec().dom() == old(self).rules_spec().dom(),
            r is Ok ==> (final(self).pending_events().last() matches RuleEngineEvent::RuleDisabled {
                rule_id: i,
                ..
            } && i@ == rule_id@),
            r is Err ==> final(self).rules_spec() == old(self).rules_spec(),
    {
        self.set_enabled(rule_id, false)
    }
}

/// Builder for rules
#[derive(Debug)]
pub struct RuleBuilder<C, A> {
    id: Option<RuleId>,
    name: Option<String>,
    description: Option<String>,
    condition: Option<C>,
    actions: Vec<A>,
    enabled: bool,
    metadata: StrMap<Value>,
}

impl<C, A> RuleBuilder<C, A> {
    /// The description given, if any.
    pub closed spec fn description_spec(self) -> Option<Seq<char>> {
        match self.description {
            Some(d) => Some(d@),
            None => None,
        }
    }

    /// The identifier given, if any.
    pub closed spec fn id_spec(self) -> Option<Seq<char>> {
        match self.id {
            Some(i) => Some(i@),
            None => None,
        }
    }

    /// The name given, if any.
    pub closed spec fn name_spec(self) -> Option<Seq<char>> {
        match self.name {
            Some(n) => Some(n@),
            None => None,
        }
    }

    /// The condition given, if any.
    pub closed spec fn condition_spec(self) -> Option<C> {
        self.condition
    }

    /// The actions given, in order.
    pub closed spec fn actions_spec(self) -> Seq<A> {
        self.actions@
    }

    /// Whether the rule will be enabled.
    pub closed spec fn enabled_spec(self) -> bool {
        self.enabled
    }

    /// The metadata given.
    pub closed spec fn metadata_spec(self) -> Map<Seq<char>, Value> {
        self.metadata@
    }

    /// Create a new rule builder; the rule is enabled by default
    pub fn new() -> (b: Self)
        ensures
            b.id_spec() is None,
            b.name_spec() is None,
            b.condition_spec() is None,
            b.actions_spec().len() == 0,
            b.enabled_spec(),
            b.metadata_spec() == Map::<Seq<char>, Value>::empty(),
    {
        RuleBuilder {
            id: None,
            name: None,
            description: None,
            condition: None,
            actions: Vec::new(),
            enabled: true,
            metadata: StrMap::new(),
        }
    }

    /// Set the rule ID
    pub fn with_id(self, id: RuleId) -> (b: Self)
        ensures
            b.id_spec() == Some(id@),
            b.name_spec() == self.name_spec(),
            b.condition_spec() == self.condition_spec(),
            b.actions_spec() == self.actions_spec(),
            b.enabled_spec() == self.enabled_spec(),
            b.metadata_spec() == self.metadata_spec(),
    {
        let mut b = self;
        b.id = Some(id);
        b
    }

    /// Set the rule name
    pub fn with_name(self, name: &str) -> (b: Self)
        ensures
            b.name_spec() == Some(name@),
            b.id_spec() == self.id_spec(),
            b.condition_spec() == self.condition_spec(),
            b.actions_spec() == self.actions_spec(),
            b.enabled_spec() == self.enabled_spec(),
            b.metadata_spec() == self.metadata_spec(),
    {
        let mut b = self;
        b.name = Some(owned(name));
        b
    }

    /// Set the rule description
    pub fn with_description(self, description: &str) -> (b: Self)
        ensures
            b.description_spec() == Some(description@),
            b.id_spec() == self.id_spec(),
            b.name_spec() == self.name_spec(),
            b.condition_spec() == self.condition_spec(),
            b.actions_spec() == self.actions_spec(),
            b.enabled_spec() == self.enabled_spec(),
            b.metadata_spec() == self.metadata_spec(),
    {
        let mut b = self;
        b.description = Some(owned(description));
        b
    }

    /// Set the rule condition
    pub fn with_condition(self, condition: C) -> (b: Self)
        ensures
            b.condition_spec() == Some(condition),
            b.id_spec() == self.id_spec(),
            b.name_spec() == self.name_spec(),
            b.actions_spec() == self.actions_spec(),
            b.enabled_spec() == self.enabled_spec(),
            b.metadata_spec() == self.metadata_spec(),
    {
        let mut b = self;
        b.condition = Some(condition);
        b
    }

    /// Add a rule action
    pub fn with_action(self, action: A) -> (b: Self)
        ensures
            b.actions_spec() == self.actions_spec().push(action),
            b.id_spec() == self.id_spec(),
            b.name_spec() == self.name_spec(),
            b.condition_spec() == self.condition_spec(),
            b.enabled_spec() == self.enabled_spec(),
            b.metadata_spec() == self.metadata_spec(),
    {
        let mut b = self;
        b.actions.push(action);
        b
    }

    /// Set whether the rule is enabled
    pub fn enabled(self, enabled: bool) -> (b: Self)
        ensures
            b.enabled_spec() == enabled,
            b.id_spec() == self.id_spec(),
            b.name_spec() == self.name_spec(),
            b.condition_spec() == self.condition_spec(),
            b.actions_spec() == self.actions_spec(),
            b.metadata_spec() == self.metadata_spec(),
    {
        let mut b = self;
        b.enabled = enabled;
        b
    }

    /// Set rule metadata
    pub fn with_metadata(self, key: &str, value: Value) -> (b: Self)
        ensures
            b.metadata_spec() == self.metadata_spec().insert(key@, value),
            b.id_spec() == self.id_spec(),
            b.name_spec() == self.name_spec(),
            b.condition_spec() == self.condition_spec(),
            b.actions_spec() == self.actions_spec(),
            b.enabled_spec() == self.enabled_spec(),
    {
        let mut b = self;
        b.metadata.insert(owned(key), value);
        b
    }

    /// Build the rule; an ID and a name are required
    pub fn build(self) -> (r: Result<Rule<C, A>>)
        ensures
            self.id_spec() is None ==> (r matches Err(e) && e matches Error::Validation(m) && m@
                == "Rule ID is required"@),
            self.id_spec() is Some && self.name_spec() is None ==> (r matches Err(e)
                && e matches Error::Validation(m) && m@ == "Rule name is required"@),
            r is Ok <==> self.id_spec() is Some && self.name_spec() is Some,
            r matches Ok(rule) ==> Some(rule.id_spec()) == self.id_spec() && Some(rule.name_spec())
                == self.name_spec() && rule.description_spec() == self.description_spec()
                && rule.condition_spec() == self.condition_spec()
                && rule.actions_spec() == self.actions_spec() && rule.enabled_spec()
                == self.enabled_spec() && rule.metadata_spec() == self.metadata_spec(),
    {
        let b = self;
        let id = match b.id {
            Some(i) => i,
            None => {
                proof {
                    reveal_strlit("Rule ID is required");
                }
                return Err(Error::validation("Rule ID is required"));
            },
        };
        let name = match b.name {
            Some(n) => n,
            None => {
                proof {
                    reveal_strlit("Rule name is required");
                }
                return Err(Error::validation("Rule name is required"));
            },
        };
        Ok(
            Rule {
                id,
                name,
                description: b.description,
                condition: b.condition,
                actions: b.actions,
                enabled: b.enabled,
                metadata: b.metadata,
            },
        )
    }
}

} // verus!
