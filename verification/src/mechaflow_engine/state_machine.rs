//! State machines for workflow state transitions.
//!
//! A machine holds states and the transitions between them. Entry, exit and
//! transition actions and transition guards are opaque handles here: the
//! caller runs them, while the machine decides which transition applies and
//! keeps the current state and the transition history.
use vstd::prelude::*;

use crate::mechaflow_core::error::{join, owned};
use crate::mechaflow_core::types::Value;
use crate::mechaflow_engine::error::{Error, Result};
use crate::str_map::{str_eq, StrMap};

verus! {

/// State machine state identifier
#[derive(Debug, Hash)]
pub struct StateId(String);

impl View for StateId {
    type V = Seq<char>;

    closed spec fn view(&self) -> Seq<char> {
        self.0@
    }
}

impl StateId {
    /// Create a new state ID
    pub fn new(id: &str) -> (r: Self)
        ensures
            r@ == id@,
    {
        StateId(owned(id))
    }

    /// Get the inner string
    pub fn inner(&self) -> (r: &str)
        ensures
            r@ == self@,
    {
        self.0.as_str()
    }

    /// The identifier as text.
    pub fn to_string(&self) -> (r: String)
        ensures
            r@ == self@,
    {
        self.0.clone()
    }
}

impl Clone for StateId {
    fn clone(&self) -> (r: Self)
        ensures
            r@ == self@,
    {
        StateId(self.0.clone())
    }
}

impl PartialEq for StateId {
    fn eq(&self, other: &Self) -> (r: bool) {
        str_eq(self.0.as_str(), other.0.as_str())
    }
}

impl vstd::std_specs::cmp::PartialEqSpecImpl for StateId {
    open spec fn obeys_eq_spec() -> bool {
        true
    }

    open spec fn eq_spec(&self, other: &StateId) -> bool {
        self@ == other@
    }
}

impl Eq for StateId {
}

impl From<&str> for StateId {
    fn from(s: &str) -> (r: Self)
        ensures
            r@ == s@,
    {
        StateId::new(s)
    }
}

impl vstd::std_specs::convert::FromSpecImpl<&str> for StateId {
    /// The `ensures` of `from` states the conversion.
    open spec fn obeys_from_spec() -> bool {
        false
    }

    open spec fn from_spec(v: &str) -> StateId {
        arbitrary()
    }
}

impl From<String> for StateId {
    fn from(s: String) -> (r: Self)
        ensures
            r@ == s@,
    {
        StateId(s)
    }
}

impl vstd::std_specs::convert::FromSpecImpl<String> for StateId {
    /// The `ensures` of `from` states the conversion.
    open spec fn obeys_from_spec() -> bool {
        false
    }

    open spec fn from_spec(v: String) -> StateId {
        arbitrary()
    }
}

/// State machine event
#[derive(Debug, Hash)]
pub struct EventId(String);

impl View for EventId {
    type V = Seq<char>;

    closed spec fn view(&self) -> Seq<char> {
        self.0@
    }
}

impl EventId {
    /// Create a new event ID
    pub fn new(id: &str) -> (r: Self)
        ensures
            r@ == id@,
    {
        EventId(owned(id))
    }

    /// Get the inner string
    pub fn inner(&self) -> (r: &str)
        ensures
            r@ == self@,
    {
        self.0.as_str()
    }

    /// The identifier as text.
    pub fn to_string(&self) -> (r: String)
        ensures
            r@ == self@,
    {
        self.0.clone()
    }
}

impl Clone for EventId {
    fn clone(&self) -> (r: Self)
        ensures
            r@ == self@,
    {
        EventId(self.0.clone())
    }
}

impl PartialEq for EventId {
    fn eq(&self, other: &Self) -> (r: bool) {
        str_eq(self.0.as_str(), other.0.as_str())
    }
}

impl vstd::std_specs::cmp::PartialEqSpecImpl for EventId {
    open spec fn obeys_eq_spec() -> bool {
        true
    }

    open spec fn eq_spec(&self, other: &EventId) -> bool {
        self@ == other@
    }
}

impl Eq for EventId {
}

impl From<&str> for EventId {
    fn from(s: &str) -> (r: Self)
        ensures
            r@ == s@,
    {
        EventId::new(s)
    }
}

impl vstd::std_specs::convert::FromSpecImpl<&str> for EventId {
    /// The `ensures` of `from` states the conversion.
    open spec fn obeys_from_spec() -> bool {
        false
    }

    open spec fn from_spec(v: &str) -> EventId {
        arbitrary()
    }
}

impl From<String> for EventId {
    fn from(s: String) -> (r: Self)
        ensures
            r@ == s@,
    {
        EventId(s)
    }
}

impl vstd::std_specs::convert::FromSpecImpl<String> for EventId {
    /// The `ensures` of `from` states the conversion.
    open spec fn obeys_from_spec() -> bool {
        false
    }

    open spec fn from_spec(v: String) -> EventId {
        arbitrary()
    }
}

/// State machine state; `A` is the handle of an entry or exit action.
#[derive(Debug)]
pub struct State<A> {
    id: StateId,
    name: String,
    description: Option<String>,
    entry_actions: Vec<A>,
    exit_actions: Vec<A>,
    data: StrMap<Value>,
    is_final: bool,
}

impl<A> State<A> {
    /// The identifier of the state.
    pub closed spec fn id_spec(self) -> Seq<char> {
        self.id@
    }

    /// The name of the state.
    pub closed spec fn name_spec(self) -> Seq<char> {
        self.name@
    }

    /// Whether the state is final.
    pub closed spec fn final_spec(self) -> bool {
        self.is_final
    }

    /// The entry actions in the order they run.
    pub closed spec fn entry_spec(self) -> Seq<A> {
        self.entry_actions@
    }

    /// The exit actions in the order they run.
    pub closed spec fn exit_spec(self) -> Seq<A> {
        self.exit_actions@
    }

    /// The state's data.
    pub closed spec fn data_spec(self) -> Map<Seq<char>, Value> {
        self.data@
    }

    /// The state's description.
    pub closed spec fn description_spec(self) -> Option<Seq<char>> {
        match self.description {
            Some(d) => Some(d@),
            None => None,
        }
    }

    /// Create a new state
    pub fn new(id: &str, name: &str) -> (s: Self)
        ensures
            s.id_spec() == id@,
            s.name_spec() == name@,
            s.description_spec() is None,
            !s.final_spec(),
            s.entry_spec().len() == 0,
            s.exit_spec().len() == 0,
            s.data_spec() == Map::<Seq<char>, Value>::empty(),
    {
        State {
            id: StateId::new(id),
            name: owned(name),
            description: None,
            entry_actions: Vec::new(),
            exit_actions: Vec::new(),
            data: StrMap::new(),
            is_final: false,
        }
    }

    /// Get the state ID
    pub fn id(&self) -> (r: &StateId)
        ensures
            r@ == self.id_spec(),
    {
        &self.id
    }

    /// Get the state name
    pub fn name(&self) -> (r: &str)
        ensures
            r@ == self.name_spec(),
    {
        self.name.as_str()
    }

    /// Get the state description
    pub fn description(&self) -> (r: Option<&str>)
        ensures
            match r {
                Some(d) => self.description_spec() == Some(d@),
                None => self.description_spec() is None,
            },
    {
        match &self.description {
            Some(d) => Some(d.as_str()),
            None => None,
        }
    }

    /// Set the state description
    pub fn set_description(&mut self, description: &str)
        ensures
            final(self).description_spec() == Some(description@),
            final(self).description_spec() == Some(description@),
            final(self).id_spec() == old(self).id_spec(),
            final(self).name_spec() == old(self).name_spec(),
            final(self).final_spec() == old(self).final_spec(),
            final(self).entry_spec() == old(self).entry_spec(),
            final(self).exit_spec() == old(self).exit_spec(),
            final(self).data_spec() == old(self).data_spec(),
    {
        self.description = Some(owned(description));
    }

    /// Add an entry action
    pub fn add_entry_action(&mut self, action: A)
        ensures
            final(self).entry_spec() == old(self).entry_spec().push(action),
            final(self).id_spec() == old(self).id_spec(),
            final(self).name_spec() == old(self).name_spec(),
            final(self).final_spec() == old(self).final_spec(),
            final(self).exit_spec() == old(self).exit_spec(),
            final(self).data_spec() == old(self).data_spec(),
            final(self).description_spec() == old(self).description_spec(),
    {
        self.entry_actions.push(action);
    }

    /// Get all entry actions
    pub fn entry_actions(&self) -> (r: &[A])
        ensures
            r@ == self.entry_spec(),
    {
        self.entry_actions.as_slice()
    }

    /// Add an exit action
    pub fn add_exit_action(&mut self, action: A)
        ensures
            final(self).exit_spec() == old(self).exit_spec().push(action),
            final(self).id_spec() == old(self).id_spec(),
            final(self).name_spec() == old(self).name_spec(),
            final(self).final_spec() == old(self).final_spec(),
            final(self).entry_spec() == old(self).entry_spec(),
            final(self).data_spec() == old(self).data_spec(),
            final(self).description_spec() == old(self).description_spec(),
    {
        self.exit_actions.push(action);
    }

    /// Get all exit actions
    pub fn exit_actions(&self) -> (r: &[A])
        ensures
            r@ == self.exit_spec(),
    {
        self.exit_actions.as_slice()
    }

    /// Set state data
    pub fn set_data(&mut self, key: &str, value: Value)
        ensures
            final(self).data_spec() == old(self).data_spec().insert(key@, value),
            final(self).id_spec() == old(self).id_spec(),
            final(self).name_spec() == old(self).name_spec(),
            final(self).final_spec() == old(self).final_spec(),
            final(self).entry_spec() == old(self).entry_spec(),
            final(self).exit_spec() == old(self).exit_spec(),
            final(self).description_spec() == old(self).description_spec(),
    {
        self.data.insert(owned(key), value);
    }

    /// Get state data
    pub fn data(&self) -> (r: &StrMap<Value>)
        ensures
            r@ == self.data_spec(),
    {
        &self.data
    }

    /// Get a state data value
    pub fn get_data(&self, key: &str) -> (r: Option<&Value>)
        ensures
            match r {
                Some(v) => self.data_spec().contains_key(key@) && *v == self.data_spec()[key@],
                None => !self.data_spec().contains_key(key@),
            },
    {
        self.data.get(key)
    }

    /// Set whether this is a final state
    pub fn set_final(&mut self, is_final: bool)
        ensures
            final(self).final_spec() == is_final,
            final(self).id_spec() == old(self).id_spec(),
            final(self).name_spec() == old(self).name_spec(),
            final(self).entry_spec() == old(self).entry_spec(),
            final(self).exit_spec() == old(self).exit_spec(),
            final(self).data_spec() == old(self).data_spec(),
            final(self).description_spec() == old(self).description_spec(),
    {
        self.is_final = is_final;
    }

    /// Check if this is a final state
    pub fn is_final(&self) -> (r: bool)
        ensures
            r == self.final_spec(),
    {
        self.is_final
    }
}

/// State transition; `A` is the handle of a transition action and `G` that
/// of a guard.
#[derive(Debug)]
pub struct Transition<A, G> {
    source: StateId,
    target: StateId,
    event: EventId,
    guard: Option<G>,
    actions: Vec<A>,
}

impl<A, G> Transition<A, G> {
    /// The state the transition leaves.
    pub closed spec fn source_spec(self) -> Seq<char> {
        self.source@
    }

    /// The state the transition enters.
    pub closed spec fn target_spec(self) -> Seq<char> {
        self.target@
    }

    /// The event that fires the transition.
    pub closed spec fn event_spec(self) -> Seq<char> {
        self.event@
    }

    /// The guard, if any.
    pub closed spec fn guard_spec(self) -> Option<G> {
        self.guard
    }

    /// The transition actions in the order they run.
    pub closed spec fn actions_spec(self) -> Seq<A> {
        self.actions@
    }

    /// Create a new transition
    pub fn new(source: &str, target: &str, event: &str) -> (t: Self)
        ensures
            t.source_spec() == source@,
            t.target_spec() == target@,
            t.event_spec() == event@,
            t.guard_spec() is None,
            t.actions_spec().len() == 0,
    {
        Transition {
            source: StateId::new(source),
            target: StateId::new(target),
            event: EventId::new(event),
            guard: None,
            actions: Vec::new(),
        }
    }

    /// Get the source state ID
    pub fn source(&self) -> (r: &StateId)
        ensures
            r@ == self.source_spec(),
    {
        &self.source
    }

    /// Get the target state ID
    pub fn target(&self) -> (r: &StateId)
        ensures
            r@ == self.target_spec(),
    {
        &self.target
    }

    /// Get the event ID
    pub fn event(&self) -> (r: &EventId)
        ensures
            r@ == self.event_spec(),
    {
        &self.event
    }

    /// Set a guard condition
    pub fn set_guard(&mut self, guard: G)
        ensures
            final(self).guard_spec() == Some(guard),
            final(self).source_spec() == old(self).source_spec(),
            final(self).target_spec() == old(self).target_spec(),
            final(self).event_spec() == old(self).event_spec(),
            final(self).actions_spec() == old(self).actions_spec(),
    {
        self.guard = Some(guard);
    }

    /// Get the guard condition
    pub fn guard(&self) -> (r: Option<&G>)
        ensures
            match r {
                Some(g) => self.guard_spec() == Some(*g),
                None => self.guard_spec() is None,
            },
    {
        match &self.guard {
            Some(g) => Some(g),
            None => None,
        }
    }

    /// Add a transition action
    pub fn add_action(&mut self, action: A)
        ensures
            final(self).actions_spec() == old(self).actions_spec().push(action),
            final(self).source_spec() == old(self).source_spec(),
            final(self).target_spec() == old(self).target_spec(),
            final(self).event_spec() == old(self).event_spec(),
            final(self).guard_spec() == old(self).guard_spec(),
    {
        self.actions.push(action);
    }

    /// Get all transition actions
    pub fn actions(&self) -> (r: &[A])
        ensures
            r@ == self.actions_spec(),
    {
        self.actions.as_slice()
    }
}


/// The text of an optional identifier.
pub open spec fn opt_state(s: Option<StateId>) -> Option<Seq<char>> {
    match s {
        Some(i) => Some(i@),
        None => None,
    }
}

/// A recorded transition by its texts: (source, event, target).
pub open spec fn record_view(e: (StateId, EventId, StateId)) -> (Seq<char>, Seq<char>, Seq<char>) {
    (e.0@, e.1@, e.2@)
}

/// Transition `t` leaves `source` on `event`.
pub open spec fn applies<A, G>(t: Transition<A, G>, source: Seq<char>, event: Seq<char>) -> bool {
    t.source_spec() == source && t.event_spec() == event
}

/// Some transition leads from `e.0` on event `e.1` to `e.2`.
pub open spec fn is_step_of<A, G>(
    transitions: Seq<Transition<A, G>>,
    e: (Seq<char>, Seq<char>, Seq<char>),
) -> bool {
    exists|j: int|
        0 <= j < transitions.len() && applies(#[trigger] transitions[j], e.0, e.1)
            && transitions[j].target_spec() == e.2
}

/// What every state machine keeps: states are stored under their own
/// identifiers; transitions, the initial state and the current state refer
/// to stored states; every history record is a step of some transition; and
/// the history is a connected path that ends in the current state.
pub open spec fn machine_consistent<A, G>(
    states: Map<Seq<char>, State<A>>,
    transitions: Seq<Transition<A, G>>,
    initial: Option<Seq<char>>,
    current: Option<Seq<char>>,
    history: Seq<(Seq<char>, Seq<char>, Seq<char>)>,
) -> bool {
    &&& forall|k: Seq<char>| #[trigger] states.contains_key(k) ==> states[k].id_spec() == k
    &&& forall|i: int|
        0 <= i < transitions.len() ==> states.contains_key((#[trigger] transitions[i]).source_spec())
            && states.contains_key(transitions[i].target_spec())
    &&& (initial matches Some(s) ==> states.contains_key(s))
    &&& (current matches Some(s) ==> states.contains_key(s))
    &&& forall|i: int| 0 <= i < history.len() ==> is_step_of(transitions, #[trigger] history[i])
    &&& forall|i: int, j: int|
        0 <= i && j == i + 1 && j < history.len() ==> (#[trigger] history[i]).2 == (
        #[trigger] history[j]).0
    &&& (history.len() > 0 ==> current == Some(history.last().2))
}

/// The indices, in increasing order, of the first `n` transitions that leave
/// `source` on `event`.
pub open spec fn matching_indices<A, G>(
    transitions: Seq<Transition<A, G>>,
    source: Seq<char>,
    event: Seq<char>,
    n: int,
) -> Seq<usize>
    decreases n,
{
    if n <= 0 {
        Seq::empty()
    } else {
        let rest = matching_indices(transitions, source, event, n - 1);
        if applies(transitions[n - 1], source, event) {
            rest.push((n - 1) as usize)
        } else {
            rest
        }
    }
}

/// Every index among the first `n` matching ones is below `n` and names a
/// transition that leaves `source` on `event`.
proof fn lemma_matching_indices_apply<A, G>(
    transitions: Seq<Transition<A, G>>,
    source: Seq<char>,
    event: Seq<char>,
    n: int,
)
    requires
        0 <= n <= transitions.len(),
        transitions.len() <= usize::MAX,
    ensures
        forall|k: int|
            0 <= k < matching_indices(transitions, source, event, n).len() ==> {
                let i = #[trigger] matching_indices(transitions, source, event, n)[k];
                &&& i < n
                &&& applies(transitions[i as int], source, event)
            },
    decreases n,
{
    if n > 0 {
        lemma_matching_indices_apply(transitions, source, event, n - 1);
        let rest = matching_indices(transitions, source, event, n - 1);
        let all = matching_indices(transitions, source, event, n);
        assert forall|k: int| 0 <= k < all.len() implies {
            let i = #[trigger] all[k];
            &&& i < n
            &&& applies(transitions[i as int], source, event)
        } by {
            if applies(transitions[n - 1], source, event) {
                assert(all == rest.push((n - 1) as usize));
            } else {
                assert(all == rest);
            }
            if k < rest.len() {
                assert(all[k] == rest[k]);
                assert(rest[k] < n - 1);
            }
        }
    }
}

/// What to do next while looking for the transition an event fires.
#[derive(Debug, PartialEq, Eq, Structural)]
pub enum TriggerStep {
    /// Evaluate the guard of this transition and report the outcome
    EvaluateGuard(usize),
    /// Fire this transition
    Fire(usize),
    /// No transition fires
    NoTransition,
}

/// The next step, given the applicable transitions in order and the guard
/// outcomes reported so far (one per candidate looked at, all but the last
/// of them false). A transition without a guard always passes.
pub open spec fn trigger_step_spec<A, G>(
    transitions: Seq<Transition<A, G>>,
    candidates: Seq<usize>,
    outcomes: Seq<bool>,
) -> TriggerStep {
    let k = outcomes.len();
    if k > 0 && k <= candidates.len() && outcomes[k - 1] {
        TriggerStep::Fire(candidates[k - 1])
    } else if k >= candidates.len() || candidates[k as int] >= transitions.len() {
        TriggerStep::NoTransition
    } else if transitions[candidates[k as int] as int].guard_spec() is None {
        TriggerStep::Fire(candidates[k as int])
    } else {
        TriggerStep::EvaluateGuard(candidates[k as int])
    }
}

/// The transition that the trigger step fires, among those that leave
/// `source` on `event`, is one that leaves `source` on `event`: for a
/// machine in `source`, `transition_actions` gives its action lists and
/// `fire_transition` takes it. (A machine's transitions, held in a `Vec`,
/// are never more than `usize::MAX`.)
pub proof fn lemma_fired_transition_applies<A, G>(
    transitions: Seq<Transition<A, G>>,
    source: Seq<char>,
    event: Seq<char>,
    outcomes: Seq<bool>,
    i: usize,
)
    requires
        transitions.len() <= usize::MAX,
        trigger_step_spec(
            transitions,
            matching_indices(transitions, source, event, transitions.len() as int),
            outcomes,
        ) == TriggerStep::Fire(i),
    ensures
        i < transitions.len(),
        applies(transitions[i as int], source, event),
{
    lemma_matching_indices_apply(transitions, source, event, transitions.len() as int);
    let c = matching_indices(transitions, source, event, transitions.len() as int);
    let k = outcomes.len();
    if k > 0 && k <= c.len() && outcomes[k - 1] {
        assert(i == c[k - 1]);
    } else {
        assert(i == c[k as int]);
    }
}

/// Guards are respected: a transition fires only when it has no guard, or
/// when the outcome just reported for it (the last one, for the candidate
/// it belongs to) is true; a guarded candidate whose turn has come is first
/// sent for evaluation; an unguarded one whose turn has come fires; and when
/// the last reported guard failed and no candidate is left, nothing fires.
pub proof fn lemma_trigger_step_respects_guards<A, G>(
    transitions: Seq<Transition<A, G>>,
    candidates: Seq<usize>,
    outcomes: Seq<bool>,
)
    ensures
        trigger_step_spec(transitions, candidates, outcomes) matches TriggerStep::Fire(i) ==> ({
            let k = outcomes.len();
            ||| (0 < k <= candidates.len() && outcomes[k - 1] && i == candidates[k - 1])
            ||| (k < candidates.len() && i == candidates[k as int] && i < transitions.len()
                && transitions[i as int].guard_spec() is None)
        }),
        ({
            let k = outcomes.len();
            k < candidates.len() && candidates[k as int] < transitions.len()
                && transitions[candidates[k as int] as int].guard_spec() is Some && !(k > 0
                && outcomes[k - 1])
        }) ==> trigger_step_spec(transitions, candidates, outcomes) == TriggerStep::EvaluateGuard(
            candidates[outcomes.len() as int],
        ),
        ({
            let k = outcomes.len();
            k < candidates.len() && candidates[k as int] < transitions.len()
                && transitions[candidates[k as int] as int].guard_spec() is None && !(k > 0
                && outcomes[k - 1])
        }) ==> trigger_step_spec(transitions, candidates, outcomes) == TriggerStep::Fire(
            candidates[outcomes.len() as int],
        ),
        ({
            let k = outcomes.len();
            k >= candidates.len() && !(k > 0 && k <= candidates.len() && outcomes[k - 1])
        }) ==> trigger_step_spec(transitions, candidates, outcomes) == TriggerStep::NoTransition,
{
}

/// Whether some event in `v` has the text of `e`.
fn contains_event(v: &Vec<EventId>, e: &EventId) -> (r: bool)
    ensures
        r == exists|y: int| 0 <= y < v@.len() && (#[trigger] v@[y])@ == e@,
{
    let mut x: usize = 0;
    while x < v.len()
        invariant
            x <= v@.len(),
            forall|y: int| 0 <= y < x ==> (#[trigger] v@[y])@ != e@,
        decreases v@.len() - x,
    {
        if str_eq(v[x].inner(), e.inner()) {
            return true;
        }
        x = x + 1;
    }
    false
}

/// The events of the first `n` transitions that leave `cur`, each once, in
/// the order of their first such transition.
pub open spec fn possible_events<A, G>(ts: Seq<Transition<A, G>>, cur: Seq<char>, n: int) -> Seq<
    Seq<char>,
>
    decreases n,
{
    if n <= 0 {
        Seq::empty()
    } else {
        let r = possible_events(ts, cur, n - 1);
        if ts[n - 1].source_spec() == cur && !r.contains(ts[n - 1].event_spec()) {
            r.push(ts[n - 1].event_spec())
        } else {
            r
        }
    }
}

/// The texts of a sequence of event identifiers.
pub open spec fn event_texts(v: Seq<EventId>) -> Seq<Seq<char>> {
    v.map_values(|e: EventId| e@)
}

/// State machine for workflow state transitions
#[derive(Debug)]
pub struct StateMachine<A, G> {
    id: String,
    name: String,
    description: Option<String>,
    states: StrMap<State<A>>,
    transitions: Vec<Transition<A, G>>,
    initial_state: Option<StateId>,
    current_state: Option<StateId>,
    history: Vec<(StateId, EventId, StateId)>,
}

impl<A, G> StateMachine<A, G> {
    /// The machine's identifier.
    pub closed spec fn id_spec(self) -> Seq<char> {
        self.id@
    }

    /// The machine's name.
    pub closed spec fn name_spec(self) -> Seq<char> {
        self.name@
    }

    /// The states by identifier.
    pub closed spec fn states_spec(self) -> Map<Seq<char>, State<A>> {
        self.states@
    }

    /// The transitions in the order they were added.
    pub closed spec fn transitions_spec(self) -> Seq<Transition<A, G>> {
        self.transitions@
    }

    /// The initial state, if one was set.
    pub closed spec fn initial_spec(self) -> Option<Seq<char>> {
        opt_state(self.initial_state)
    }

    /// The current state, if the machine is initialized.
    pub closed spec fn current_spec(self) -> Option<Seq<char>> {
        opt_state(self.current_state)
    }

    /// The transitions taken, oldest first.
    pub closed spec fn history_spec(self) -> Seq<(Seq<char>, Seq<char>, Seq<char>)> {
        self.history@.map_values(|e: (StateId, EventId, StateId)| record_view(e))
    }

    /// The machine is consistent (see `machine_consistent`).
    pub open spec fn consistent(self) -> bool {
        machine_consistent(
            self.states_spec(),
            self.transitions_spec(),
            self.initial_spec(),
            self.current_spec(),
            self.history_spec(),
        )
    }

    /// Every machine is consistent.
    #[verifier::type_invariant]
    spec fn inv(self) -> bool {
        self.consistent()
    }

    /// Moves the machine out, leaving an empty one in its place.
    fn take_out(&mut self) -> (m: Self)
        ensures
            m == *old(self),
    {
        let mut m = StateMachine::new("", "");
        std::mem::swap(&mut m, self);
        m
    }

    /// Create a new state machine
    pub fn new(id: &str, name: &str) -> (m: Self)
        ensures
            m.id_spec() == id@,
            m.name_spec() == name@,
            m.description_spec() is None,
            m.states_spec() == Map::<Seq<char>, State<A>>::empty(),
            m.transitions_spec().len() == 0,
            m.initial_spec() is None,
            m.current_spec() is None,
            m.history_spec().len() == 0,
            m.consistent(),
    {
        let m = StateMachine {
            id: owned(id),
            name: owned(name),
            description: None,
            states: StrMap::new(),
            transitions: Vec::new(),
            initial_state: None,
            current_state: None,
            history: Vec::new(),
        };
        assert(m.history_spec() =~= Seq::empty());
        m
    }

    /// Get the state machine ID
    pub fn id(&self) -> (r: &str)
        ensures
            r@ == self.id_spec(),
    {
        self.id.as_str()
    }

    /// Get the state machine name
    pub fn name(&self) -> (r: &str)
        ensures
            r@ == self.name_spec(),
    {
        self.name.as_str()
    }

    /// The description, if one was given.
    pub closed spec fn description_spec(self) -> Option<Seq<char>> {
        match self.description {
            Some(d) => Some(d@),
            None => None,
        }
    }

    /// Get the state machine description
    pub fn description(&self) -> (r: Option<&str>)
        ensures
            match r {
                Some(d) => self.description_spec() == Some(d@),
                None => self.description_spec() is None,
            },
    {
        match &self.description {
            Some(d) => Some(d.as_str()),
            None => None,
        }
    }

    /// Set the state machine description
    pub fn set_description(&mut self, description: &str)
        ensures
            final(self).description_spec() == Some(description@),
            final(self).states_spec() == old(self).states_spec(),
            final(self).transitions_spec() == old(self).transitions_spec(),
            final(self).initial_spec() == old(self).initial_spec(),
            final(self).current_spec() == old(self).current_spec(),
            final(self).history_spec() == old(self).history_spec(),
            final(self).id_spec() == old(self).id_spec(),
            final(self).name_spec() == old(self).name_spec(),
            final(self).consistent(),
    {
        proof {
            use_type_invariant(&*self);
        }
        self.description = Some(owned(description));
    }

    /// Add a state; a state whose identifier is already taken is refused.
    pub fn add_state(&mut self, state: State<A>) -> (r: Result<()>)
        ensures
            r is Err <==> old(self).states_spec().contains_key(state.id_spec()),
            r matches Err(e) ==> (e matches Error::AlreadyExists(m) && m@ == "State with ID "@
                + state.id_spec() + " already exists"@),
            r is Ok ==> final(self).states_spec() == old(self).states_spec().insert(
                state.id_spec(),
                state,
            ),
            r is Err ==> final(self).states_spec() == old(self).states_spec(),
            final(self).transitions_spec() == old(self).transitions_spec(),
            final(self).initial_spec() == old(self).initial_spec(),
            final(self).current_spec() == old(self).current_spec(),
            final(self).history_spec() == old(self).history_spec(),
            final(self).id_spec() == old(self).id_spec(),
            final(self).name_spec() == old(self).name_spec(),
            final(self).consistent(),
    {
        proof {
            use_type_invariant(&*self);
        }
        if self.states.contains_key(state.id.inner()) {
            let msg = join(join("State with ID ", state.id.inner()).as_str(), " already exists");
            proof {
                reveal_strlit("State with ID ");
                reveal_strlit(" already exists");
            }
            return Err(Error::AlreadyExists(msg));
        }
        let key = owned(state.id.inner());
        let m = self.take_out();
        let StateMachine {
            id,
            name,
            description,
            mut states,
            transitions,
            initial_state,
            current_state,
            history,
        } = m;
        states.insert(key, state);
        *self = StateMachine {
            id,
            name,
            description,
            states,
            transitions,
            initial_state,
            current_state,
            history,
        };
        Ok(())
    }

    /// Get a state by ID
    pub fn get_state(&self, state_id: &StateId) -> (r: Option<&State<A>>)
        ensures
            match r {
                Some(s) => self.states_spec().contains_key(state_id@) && *s
                    == self.states_spec()[state_id@] && s.id_spec() == state_id@,
                None => !self.states_spec().contains_key(state_id@),
            },
    {
        proof {
            use_type_invariant(self);
        }
        self.states.get(state_id.inner())
    }

    /// Get all states, each once
    pub fn get_states(&self) -> (r: Vec<&State<A>>)
        ensures
            r@.len() == self.states_spec().len(),
            forall|i: int|
                0 <= i < r@.len() ==> self.states_spec().contains_key((#[trigger] r@[i]).id_spec())
                    && self.states_spec()[r@[i].id_spec()] == *r@[i],
            forall|i: int, j: int|
                0 <= i < r@.len() && 0 <= j < r@.len() && i != j ==> (#[trigger] r@[i]).id_spec()
                    != (#[trigger] r@[j]).id_spec(),
    {
        proof {
            use_type_invariant(self);
        }
        let n = self.states.len();
        let mut out: Vec<&State<A>> = Vec::new();
        let mut i: usize = 0;
        while i < n
            invariant
                n == self.states.entry_seq().len(),
                n == self.states@.len(),
                i <= n,
                out@.len() == i,
                crate::str_map::keys_unique(self.states.entry_seq()),
                forall|k: Seq<char>| #[trigger]
                    self.states@.contains_key(k) ==> self.states@[k].id_spec() == k,
                forall|j: int|
                    0 <= j < i ==> (#[trigger] out@[j]).id_spec() == self.states.entry_seq()[j].0@
                        && self.states@.contains_key(out@[j].id_spec()) && self.states@[out@[j].id_spec()]
                        == *out@[j],
            decreases n - i,
        {
            let (k, st) = self.states.entry_at(i);
            out.push(st);
            i = i + 1;
        }
        out
    }

    /// Add a transition between two existing states.
    pub fn add_transition(&mut self, transition: Transition<A, G>) -> (r: Result<()>)
        ensures
            !old(self).states_spec().contains_key(transition.source_spec()) ==> (r matches Err(e)
                && e matches Error::NotFound(m) && m@ == "Source state with ID "@
                + transition.source_spec() + " not found"@),
            old(self).states_spec().contains_key(transition.source_spec())
                && !old(self).states_spec().contains_key(transition.target_spec()) ==> (r matches Err(
                e,
            ) && e matches Error::NotFound(m) && m@ == "Target state with ID "@
                + transition.target_spec() + " not found"@),
            r is Ok <==> old(self).states_spec().contains_key(transition.source_spec())
                && old(self).states_spec().contains_key(transition.target_spec()),
            r is Ok ==> final(self).transitions_spec() == old(self).transitions_spec().push(
                transition,
            ),
            r is Err ==> final(self).transitions_spec() == old(self).transitions_spec(),
            final(self).states_spec() == old(self).states_spec(),
            final(self).initial_spec() == old(self).initial_spec(),
            final(self).current_spec() == old(self).current_spec(),
            final(self).history_spec() == old(self).history_spec(),
            final(self).id_spec() == old(self).id_spec(),
            final(self).name_spec() == old(self).name_spec(),
            final(self).consistent(),
    {
        proof {
            use_type_invariant(&*self);
        }
        proof {
            reveal_strlit(" not found");
        }
        if !self.states.contains_key(transition.source.inner()) {
            let msg = join(
                join("Source state with ID ", transition.source.inner()).as_str(),
                " not found",
            );
            proof {
                reveal_strlit("Source state with ID ");
            }
            return Err(Error::NotFound(msg));
        }
        if !self.states.contains_key(transition.target.inner()) {
            let msg = join(
                join("Target state with ID ", transition.target.inner()).as_str(),
                " not found",
            );
            proof {
                reveal_strlit("Target state with ID ");
            }
            return Err(Error::NotFound(msg));
        }
        let ghost old_ts = self.transitions@;
        let ghost old_h = self.history_spec();
        let m = self.take_out();
        let StateMachine {
            id,
            name,
            description,
            states,
            mut transitions,
            initial_state,
            current_state,
            history,
        } = m;
        transitions.push(transition);
        proof {
            let ts = transitions@;
            assert forall|i: int| 0 <= i < old_h.len() implies is_step_of(
                ts,
                #[trigger] old_h[i],
            ) by {
                let e = old_h[i];
                assert(is_step_of(old_ts, e));
                let j = choose|j: int|
                    0 <= j < old_ts.len() && applies(#[trigger] old_ts[j], e.0, e.1)
                        && old_ts[j].target_spec() == e.2;
                assert(ts[j] == old_ts[j]);
            }
        }
        *self = StateMachine {
            id,
            name,
            description,
            states,
            transitions,
            initial_state,
            current_state,
            history,
        };
        Ok(())
    }

    /// Get all transitions
    pub fn get_transitions(&self) -> (r: &[Transition<A, G>])
        ensures
            r@ == self.transitions_spec(),
    {
        self.transitions.as_slice()
    }

    /// Set the initial state, which must exist.
    pub fn set_initial_state(&mut self, state_id: StateId) -> (r: Result<()>)
        ensures
            r is Ok <==> old(self).states_spec().contains_key(state_id@),
            r matches Err(e) ==> (e matches Error::NotFound(m) && m@ == "State with ID "@
                + state_id@ + " not found"@),
            r is Ok ==> final(self).initial_spec() == Some(state_id@),
            r is Err ==> final(self).initial_spec() == old(self).initial_spec(),
            final(self).states_spec() == old(self).states_spec(),
            final(self).transitions_spec() == old(self).transitions_spec(),
            final(self).current_spec() == old(self).current_spec(),
            final(self).history_spec() == old(self).history_spec(),
            final(self).id_spec() == old(self).id_spec(),
            final(self).name_spec() == old(self).name_spec(),
            final(self).consistent(),
    {
        proof {
            use_type_invariant(&*self);
        }
        if !self.states.contains_key(state_id.inner()) {
            let msg = join(join("State with ID ", state_id.inner()).as_str(), " not found");
            proof {
                reveal_strlit("State with ID ");
                reveal_strlit(" not found");
            }
            return Err(Error::NotFound(msg));
        }
        self.initial_state = Some(state_id);
        Ok(())
    }

    /// Get the initial state ID
    pub fn initial_state(&self) -> (r: Option<&StateId>)
        ensures
            match r {
                Some(s) => self.initial_spec() == Some(s@),
                None => self.initial_spec() is None,
            },
    {
        match &self.initial_state {
            Some(s) => Some(s),
            None => None,
        }
    }

    /// Enter the initial state. The caller then runs the entry actions of
    /// that state.
    pub fn initialize(&mut self) -> (r: Result<()>)
        ensures
            old(self).current_spec() is Some ==> (r matches Err(e) && e matches Error::StateMachine(
                m,
            ) && m@ == "State machine is already initialized"@),
            old(self).current_spec() is None && old(self).initial_spec() is None ==> (r matches Err(
                e,
            ) && e matches Error::StateMachine(m) && m@
                == "No initial state defined for state machine"@),
            r is Ok <==> old(self).current_spec() is None && old(self).initial_spec() is Some,
            r is Ok ==> final(self).current_spec() == old(self).initial_spec(),
            r is Err ==> final(self).current_spec() == old(self).current_spec(),
            final(self).states_spec() == old(self).states_spec(),
            final(self).transitions_spec() == old(self).transitions_spec(),
            final(self).initial_spec() == old(self).initial_spec(),
            final(self).history_spec() == old(self).history_spec(),
            final(self).id_spec() == old(self).id_spec(),
            final(self).name_spec() == old(self).name_spec(),
            final(self).consistent(),
    {
        proof {
            use_type_invariant(&*self);
        }
        if self.current_state.is_some() {
            proof {
                reveal_strlit("State machine is already initialized");
            }
            return Err(Error::state_machine("State machine is already initialized"));
        }
        match &self.initial_state {
            Some(init) => {
                let s = init.clone();
                self.current_state = Some(s);
                Ok(())
            },
            None => {
                proof {
                    reveal_strlit("No initial state defined for state machine");
                }
                Err(Error::state_machine("No initial state defined for state machine"))
            },
        }
    }

    /// Get the current state ID
    pub fn current_state(&self) -> (r: Option<StateId>)
        ensures
            opt_state(r) == self.current_spec(),
    {
        match &self.current_state {
            Some(s) => Some(s.clone()),
            None => None,
        }
    }

    /// Get the current state
    pub fn get_current_state(&self) -> (r: Option<&State<A>>)
        ensures
            match r {
                Some(s) => self.current_spec() matches Some(c) && self.states_spec().contains_key(c)
                    && *s == self.states_spec()[c],
                None => self.current_spec() is None,
            },
    {
        proof {
            use_type_invariant(self);
        }
        match &self.current_state {
            Some(c) => self.states.get(c.inner()),
            None => None,
        }
    }

    /// The transitions that leave the current state on `event_id`, by
    /// index, in the order they were added.
    pub fn applicable_transitions(&self, event_id: &EventId) -> (r: Result<Vec<usize>>)
        ensures
            r is Err <==> self.current_spec() is None,
            r matches Err(e) ==> (e matches Error::StateMachine(m) && m@
                == "State machine is not initialized"@),
            r matches Ok(v) ==> v@ == matching_indices(
                self.transitions_spec(),
                self.current_spec()->0,
                event_id@,
                self.transitions_spec().len() as int,
            ),
    {
        let current = match &self.current_state {
            Some(c) => c,
            None => {
                proof {
                    reveal_strlit("State machine is not initialized");
                }
                return Err(Error::state_machine("State machine is not initialized"));
            },
        };
        let n = self.transitions.len();
        let mut out: Vec<usize> = Vec::new();
        let mut i: usize = 0;
        while i < n
            invariant
                n == self.transitions@.len(),
                i <= n,
                out@ == matching_indices(self.transitions@, current@, event_id@, i as int),
            decreases n - i,
        {
            let t = &self.transitions[i];
            if str_eq(t.source.inner(), current.inner()) && str_eq(
                t.event.inner(),
                event_id.inner(),
            ) {
                out.push(i);
            }
            i = i + 1;
        }
        Ok(out)
    }

    /// Decide the next step of firing an event: `candidates` are the
    /// applicable transitions and `outcomes` the guard results so far.
    pub fn trigger_step(&self, candidates: &[usize], outcomes: &[bool]) -> (r: TriggerStep)
        ensures
            r == trigger_step_spec(self.transitions_spec(), candidates@, outcomes@),
    {
        let k = outcomes.len();
        if k > 0 && k <= candidates.len() && outcomes[k - 1] {
            return TriggerStep::Fire(candidates[k - 1]);
        }
        if k >= candidates.len() || candidates[k] >= self.transitions.len() {
            return TriggerStep::NoTransition;
        }
        let idx = candidates[k];
        match &self.transitions[idx].guard {
            None => TriggerStep::Fire(idx),
            Some(_) => TriggerStep::EvaluateGuard(idx),
        }
    }

    /// The actions that taking transition `index` runs, in the order they
    /// run: the exit actions of the current state, the transition's own
    /// actions, then the entry actions of its target, each list once. There
    /// are none where the machine is not initialized or the transition does
    /// not leave the current state.
    pub fn transition_actions(&self, index: usize) -> (r: Option<(&[A], &[A], &[A])>)
        ensures
            r is Some <==> self.current_spec() is Some && index < self.transitions_spec().len()
                && self.transitions_spec()[index as int].source_spec() == self.current_spec()->0,
            r matches Some(lists) ==> {
                let t = self.transitions_spec()[index as int];
                &&& lists.0@ == self.states_spec()[self.current_spec()->0].exit_spec()
                &&& lists.1@ == t.actions_spec()
                &&& lists.2@ == self.states_spec()[t.target_spec()].entry_spec()
            },
    {
        proof {
            use_type_invariant(self);
        }
        let cur = match &self.current_state {
            Some(c) => c,
            None => {
                return None;
            },
        };
        if index >= self.transitions.len() {
            return None;
        }
        let t = &self.transitions[index];
        if !str_eq(t.source.inner(), cur.inner()) {
            return None;
        }
        let from = match self.states.get(cur.inner()) {
            Some(s) => s,
            None => {
                return None;
            },
        };
        let to = match self.states.get(t.target.inner()) {
            Some(s) => s,
            None => {
                return None;
            },
        };
        Some((from.exit_actions(), t.actions(), to.entry_actions()))
    }

    /// Take transition `index` on `event_id`: the current state becomes its
    /// target and the step is recorded. The actions to run before this are
    /// those `transition_actions` gives.
    pub fn fire_transition(&mut self, index: usize, event_id: &EventId) -> (r: Result<StateId>)
        ensures
            r is Ok <==> old(self).current_spec() is Some && index < old(
                self,
            ).transitions_spec().len() && applies(
                old(self).transitions_spec()[index as int],
                old(self).current_spec()->0,
                event_id@,
            ),
            old(self).current_spec() is None ==> (r matches Err(e) && e matches Error::StateMachine(
                m,
            ) && m@ == "State machine is not initialized"@),
            r matches Err(e) ==> e is StateMachine,
            r matches Ok(t) ==> t@ == old(self).transitions_spec()[index as int].target_spec()
                && final(self).current_spec() == Some(t@) && final(self).history_spec() == old(
                self,
            ).history_spec().push((old(self).current_spec()->0, event_id@, t@)),
            r is Err ==> final(self).current_spec() == old(self).current_spec()
                && final(self).history_spec() == old(self).history_spec(),
            final(self).states_spec() == old(self).states_spec(),
            final(self).transitions_spec() == old(self).transitions_spec(),
            final(self).initial_spec() == old(self).initial_spec(),
            final(self).id_spec() == old(self).id_spec(),
            final(self).name_spec() == old(self).name_spec(),
            final(self).consistent(),
    {
        proof {
            use_type_invariant(&*self);
        }
        let current = match &self.current_state {
            Some(c) => c.clone(),
            None => {
                proof {
                    reveal_strlit("State machine is not initialized");
                }
                return Err(Error::state_machine("State machine is not initialized"));
            },
        };
        if index >= self.transitions.len() || !str_eq(
            self.transitions[index].source.inner(),
            current.inner(),
        ) || !str_eq(self.transitions[index].event.inner(), event_id.inner()) {
            return Err(
                Error::state_machine("Transition does not leave the current state on this event"),
            );
        }
        let target = self.transitions[index].target.clone();
        let ghost old_h = self.history_spec();
        let ghost ts = self.transitions@;
        let m = self.take_out();
        let StateMachine {
            id,
            name,
            description,
            states,
            transitions,
            initial_state,
            current_state: _,
            mut history,
        } = m;
        history.push((current.clone(), event_id.clone(), target.clone()));
        proof {
            let h = history@.map_values(|e: (StateId, EventId, StateId)| record_view(e));
            assert(h =~= old_h.push((current@, event_id@, target@)));
            assert(is_step_of(ts, h[h.len() - 1])) by {
                assert(applies(ts[index as int], current@, event_id@));
            }
            assert forall|i: int| 0 <= i < h.len() implies is_step_of(ts, #[trigger] h[i]) by {
                if i < h.len() - 1 {
                    assert(h[i] == old_h[i]);
                }
            }
            assert forall|i: int, j: int|
                0 <= i && j == i + 1 && j < h.len() implies (#[trigger] h[i]).2 == (
                #[trigger] h[j]).0 by {
                if j < h.len() - 1 {
                    assert(h[i] == old_h[i] && h[j] == old_h[j]);
                } else {
                    assert(h[i] == old_h[i]);
                    if old_h.len() > 0 {
                        assert(old_h.last() == old_h[i]);
                    }
                }
            }
        }
        *self = StateMachine {
            id,
            name,
            description,
            states,
            transitions,
            initial_state,
            current_state: Some(target.clone()),
            history,
        };
        Ok(target)
    }

    /// Get the transition history
    pub fn get_history(&self) -> (r: Vec<(StateId, EventId, StateId)>)
        ensures
            r@.map_values(|e: (StateId, EventId, StateId)| record_view(e)) == self.history_spec(),
    {
        let n = self.history.len();
        let mut out: Vec<(StateId, EventId, StateId)> = Vec::new();
        let mut i: usize = 0;
        while i < n
            invariant
                n == self.history@.len(),
                i <= n,
                out@.map_values(|e: (StateId, EventId, StateId)| record_view(e))
                    == self.history_spec().take(i as int),
            decreases n - i,
        {
            let e = &self.history[i];
            let ghost before = out@;
            out.push((e.0.clone(), e.1.clone(), e.2.clone()));
            proof {
                assert(out@ == before.push(out@.last()));
                assert(out@.map_values(|e: (StateId, EventId, StateId)| record_view(e))
                    =~= before.map_values(|e: (StateId, EventId, StateId)| record_view(e)).push(
                    record_view(self.history@[i as int]),
                ));
                assert(self.history_spec().take(i + 1) =~= self.history_spec().take(i as int).push(
                    self.history_spec()[i as int],
                ));
            }
            i = i + 1;
        }
        proof {
            assert(self.history_spec().take(n as int) =~= self.history_spec());
        }
        out
    }

    /// Leave the current state, forget the history and enter the initial
    /// state again.
    pub fn reset(&mut self) -> (r: Result<()>)
        ensures
            final(self).history_spec().len() == 0,
            r is Ok <==> old(self).initial_spec() is Some,
            r is Ok ==> final(self).current_spec() == old(self).initial_spec(),
            r matches Err(e) ==> (e matches Error::StateMachine(m) && m@
                == "No initial state defined for state machine"@) && final(self).current_spec() is None,
            final(self).states_spec() == old(self).states_spec(),
            final(self).transitions_spec() == old(self).transitions_spec(),
            final(self).initial_spec() == old(self).initial_spec(),
            final(self).id_spec() == old(self).id_spec(),
            final(self).name_spec() == old(self).name_spec(),
            final(self).consistent(),
    {
        proof {
            use_type_invariant(&*self);
        }
        self.history = Vec::new();
        proof {
            assert(self.history_spec() =~= Seq::empty());
        }
        self.current_state = None;
        self.initialize()
    }

    /// Whether the machine is in a final state
    pub fn is_complete(&self) -> (r: bool)
        ensures
            r == (self.current_spec() matches Some(c) && self.states_spec().contains_key(c)
                && self.states_spec()[c].final_spec()),
    {
        match &self.current_state {
            Some(c) => match self.states.get(c.inner()) {
                Some(st) => st.is_final,
                None => false,
            },
            None => false,
        }
    }

    /// The events that have a transition out of the current state, each
    /// once, in the order of their first transition.
    pub fn get_possible_events(&self) -> (r: Vec<EventId>)
        ensures
            self.current_spec() is None ==> r@.len() == 0,
            self.current_spec() matches Some(c) ==> event_texts(r@) == possible_events(
                self.transitions_spec(),
                c,
                self.transitions_spec().len() as int,
            ),
    {
        let current = match &self.current_state {
            Some(c) => c,
            None => {
                return Vec::new();
            },
        };
        let n = self.transitions.len();
        let mut out: Vec<EventId> = Vec::new();
        let mut i: usize = 0;
        while i < n
            invariant
                n == self.transitions@.len(),
                i <= n,
                event_texts(out@) == possible_events(self.transitions@, current@, i as int),
            decreases n - i,
        {
            let t = &self.transitions[i];
            if str_eq(t.source.inner(), current.inner()) {
                let seen = contains_event(&out, &t.event);
                let ghost before = out@;
                proof {
                    let r = possible_events(self.transitions@, current@, i as int);
                    if r.contains(t.event@) {
                        let y = choose|y: int| 0 <= y < r.len() && r[y] == t.event@;
                        assert(before[y]@ == r[y]);
                    }
                    if seen {
                        let y = choose|y: int| 0 <= y < before.len() && (#[trigger] before[y])@ == t.event@;
                        assert(r[y] == t.event@);
                    }
                }
                if !seen {
                    out.push(t.event.clone());
                    proof {
                        assert(event_texts(out@) =~= event_texts(before).push(t.event@));
                    }
                }
            }
            i = i + 1;
        }
        out
    }
}


/// The identifiers of a list of states.
pub open spec fn state_ids<A>(states: Seq<State<A>>) -> Seq<Seq<char>> {
    states.map_values(|st: State<A>| st.id_spec())
}

/// The first `n` states of a list by identifier (later ones win).
pub open spec fn states_map<A>(states: Seq<State<A>>, n: int) -> Map<Seq<char>, State<A>>
    decreases n,
{
    if n <= 0 {
        Map::empty()
    } else {
        states_map(states, n - 1).insert(states[n - 1].id_spec(), states[n - 1])
    }
}

/// Every transition joins states among `ids`.
pub open spec fn transitions_within<A, G>(ts: Seq<Transition<A, G>>, ids: Seq<Seq<char>>) -> bool {
    forall|i: int|
        0 <= i < ts.len() ==> ids.contains((#[trigger] ts[i]).source_spec()) && ids.contains(
            ts[i].target_spec(),
        )
}

/// Builder for state machines
#[derive(Debug)]
pub struct StateMachineBuilder<A, G> {
    id: Option<String>,
    name: Option<String>,
    description: Option<String>,
    states: Vec<State<A>>,
    transitions: Vec<Transition<A, G>>,
    initial_state: Option<StateId>,
}

/// The text of an optional string.
pub open spec fn opt_text(s: Option<String>) -> Option<Seq<char>> {
    match s {
        Some(t) => Some(t@),
        None => None,
    }
}

impl<A, G> StateMachineBuilder<A, G> {
    /// The description given, if any.
    pub closed spec fn description_spec(self) -> Option<Seq<char>> {
        match self.description {
            Some(d) => Some(d@),
            None => None,
        }
    }

    /// The identifier given so far.
    pub closed spec fn id_spec(self) -> Option<Seq<char>> {
        opt_text(self.id)
    }

    /// The name given so far.
    pub closed spec fn name_spec(self) -> Option<Seq<char>> {
        opt_text(self.name)
    }

    /// The states given so far, in order.
    pub closed spec fn states_spec(self) -> Seq<State<A>> {
        self.states@
    }

    /// The transitions given so far, in order.
    pub closed spec fn transitions_spec(self) -> Seq<Transition<A, G>> {
        self.transitions@
    }

    /// The initial state given so far.
    pub closed spec fn initial_spec(self) -> Option<Seq<char>> {
        opt_state(self.initial_state)
    }

    /// Create a new state machine builder
    pub fn new() -> (b: Self)
        ensures
            b.id_spec() is None,
            b.name_spec() is None,
            b.states_spec().len() == 0,
            b.transitions_spec().len() == 0,
            b.initial_spec() is None,
    {
        StateMachineBuilder {
            id: None,
            name: None,
            description: None,
            states: Vec::new(),
            transitions: Vec::new(),
            initial_state: None,
        }
    }

    /// Set the state machine ID
    pub fn with_id(self, id: &str) -> (b: Self)
        ensures
            b.id_spec() == Some(id@),
            b.name_spec() == self.name_spec(),
            b.states_spec() == self.states_spec(),
            b.transitions_spec() == self.transitions_spec(),
            b.initial_spec() == self.initial_spec(),
    {
        let mut b = self;
        b.id = Some(owned(id));
        b
    }

    /// Set the state machine name
    pub fn with_name(self, name: &str) -> (b: Self)
        ensures
            b.name_spec() == Some(name@),
            b.id_spec() == self.id_spec(),
            b.states_spec() == self.states_spec(),
            b.transitions_spec() == self.transitions_spec(),
            b.initial_spec() == self.initial_spec(),
    {
        let mut b = self;
        b.name = Some(owned(name));
        b
    }

    /// Set the state machine description
    pub fn with_description(self, description: &str) -> (b: Self)
        ensures
            b.description_spec() == Some(description@),
            b.id_spec() == self.id_spec(),
            b.name_spec() == self.name_spec(),
            b.states_spec() == self.states_spec(),
            b.transitions_spec() == self.transitions_spec(),
            b.initial_spec() == self.initial_spec(),
    {
        let mut b = self;
        b.description = Some(owned(description));
        b
    }

    /// Add a state
    pub fn with_state(self, state: State<A>) -> (b: Self)
        ensures
            b.states_spec() == self.states_spec().push(state),
            b.id_spec() == self.id_spec(),
            b.name_spec() == self.name_spec(),
            b.transitions_spec() == self.transitions_spec(),
            b.initial_spec() == self.initial_spec(),
    {
        let mut b = self;
        b.states.push(state);
        b
    }

    /// Add a transition
    pub fn with_transition(self, transition: Transition<A, G>) -> (b: Self)
        ensures
            b.transitions_spec() == self.transitions_spec().push(transition),
            b.id_spec() == self.id_spec(),
            b.name_spec() == self.name_spec(),
            b.states_spec() == self.states_spec(),
            b.initial_spec() == self.initial_spec(),
    {
        let mut b = self;
        b.transitions.push(transition);
        b
    }

    /// Set the initial state
    pub fn with_initial_state(self, state_id: &str) -> (b: Self)
        ensures
            b.initial_spec() == Some(state_id@),
            b.id_spec() == self.id_spec(),
            b.name_spec() == self.name_spec(),
            b.states_spec() == self.states_spec(),
            b.transitions_spec() == self.transitions_spec(),
    {
        let mut b = self;
        b.initial_state = Some(StateId::new(state_id));
        b
    }

    /// Build the state machine: add the states in order, set the initial
    /// state, then add the transitions; the first failure is returned.
    pub fn build(self) -> (r: Result<StateMachine<A, G>>)
        ensures
            self.id_spec() is None ==> (r matches Err(e) && e matches Error::Validation(m) && m@
                == "State machine ID is required"@),
            self.id_spec() is Some && self.name_spec() is None ==> (r matches Err(e)
                && e matches Error::Validation(m) && m@ == "State machine name is required"@),
            self.id_spec() is Some && self.name_spec() is Some ==> {
                let ids = state_ids(self.states_spec());
                &&& !ids.no_duplicates() ==> (r matches Err(e) && e is AlreadyExists)
                &&& ids.no_duplicates() && (self.initial_spec() matches Some(s) && !ids.contains(s))
                    ==> (r matches Err(e) && e is NotFound)
                &&& ids.no_duplicates() && !(self.initial_spec() matches Some(s) && !ids.contains(s))
                    && !transitions_within(self.transitions_spec(), ids) ==> (r matches Err(e)
                    && e is NotFound)
                &&& r is Ok <==> ids.no_duplicates() && !(self.initial_spec() matches Some(s)
                    && !ids.contains(s)) && transitions_within(self.transitions_spec(), ids)
            },
            r matches Ok(m) ==> {
                &&& m.consistent()
                &&& Some(m.id_spec()) == self.id_spec()
                &&& Some(m.name_spec()) == self.name_spec()
                &&& m.description_spec() == self.description_spec()
                &&& m.states_spec() == states_map(
                    self.states_spec(),
                    self.states_spec().len() as int,
                )
                &&& m.transitions_spec() == self.transitions_spec()
                &&& m.initial_spec() == self.initial_spec()
                &&& m.current_spec() is None
                &&& m.history_spec().len() == 0
            },
    {
        let ghost all_states = self.states@;
        let ghost all_ts = self.transitions@;
        let ghost ids = state_ids(all_states);
        let ghost b = self;
        let StateMachineBuilder { id, name, description, states, transitions, initial_state } =
            self;
        let id = match id {
            Some(i) => i,
            None => {
                proof {
                    reveal_strlit("State machine ID is required");
                }
                return Err(Error::validation("State machine ID is required"));
            },
        };
        let name = match name {
            Some(n) => n,
            None => {
                proof {
                    reveal_strlit("State machine name is required");
                }
                return Err(Error::validation("State machine name is required"));
            },
        };
        assert(b.id_spec() == Some(id@) && b.name_spec() == Some(name@));
        let mut sm: StateMachine<A, G> = StateMachine::new(id.as_str(), name.as_str());
        let mut rest = states;
        let ghost mut k: int = 0;
        while rest.len() > 0
            invariant
                0 <= k <= all_states.len(),
                b == self,
                self.id_spec() is Some,
                self.name_spec() is Some,
                all_states == self.states_spec(),
                rest@ == all_states.skip(k),
                ids == state_ids(all_states),
                sm.consistent(),
                sm.id_spec() == id@,
                sm.name_spec() == name@,
                sm.states_spec() == states_map(all_states, k),
                forall|a: int, b: int| 0 <= a < b < k ==> ids[a] != ids[b],
                forall|x: Seq<char>|
                    sm.states_spec().contains_key(x) <==> exists|a: int| 0 <= a < k && ids[a] == x,
                sm.transitions_spec().len() == 0,
                sm.initial_spec() is None,
                sm.current_spec() is None,
                sm.history_spec().len() == 0,
            decreases rest@.len(),
        {
            let st = rest.remove(0);
            proof {
                assert(st == all_states[k]);
                assert(ids[k] == st.id_spec());
            }
            match sm.add_state(st) {
                Ok(()) => {},
                Err(e) => {
                    proof {
                        let a = choose|a: int| 0 <= a < k && ids[a] == ids[k];
                        assert(!ids.no_duplicates());
                    }
                    return Err(e);
                },
            }
            proof {
                assert(rest@ =~= all_states.skip(k + 1));
                k = k + 1;
            }
        }
        proof {
            assert(k == all_states.len());
            assert(ids.no_duplicates());
            assert forall|x: Seq<char>| ids.contains(x) <==> sm.states_spec().contains_key(x) by {
                if ids.contains(x) {
                    let a = choose|a: int| 0 <= a < ids.len() && ids[a] == x;
                }
            }
        }
        match initial_state {
            Some(init) => {
                match sm.set_initial_state(init) {
                    Ok(()) => {},
                    Err(e) => {
                        return Err(e);
                    },
                }
            },
            None => {},
        }
        let mut trest = transitions;
        let ghost mut t: int = 0;
        while trest.len() > 0
            invariant
                0 <= t <= all_ts.len(),
                b == self,
                self.id_spec() is Some,
                self.name_spec() is Some,
                all_states == self.states_spec(),
                all_ts == self.transitions_spec(),
                ids == state_ids(all_states),
                ids.no_duplicates(),
                self.initial_spec() matches Some(s) ==> ids.contains(s),
                trest@ == all_ts.skip(t),
                sm.consistent(),
                sm.id_spec() == id@,
                sm.name_spec() == name@,
                sm.states_spec() == states_map(all_states, all_states.len() as int),
                forall|x: Seq<char>| ids.contains(x) <==> sm.states_spec().contains_key(x),
                sm.transitions_spec() == all_ts.take(t),
                transitions_within(all_ts.take(t), ids),
                sm.initial_spec() == opt_state(initial_state),
                sm.current_spec() is None,
                sm.history_spec().len() == 0,
            decreases trest@.len(),
        {
            let tr = trest.remove(0);
            proof {
                assert(tr == all_ts[t]);
            }
            match sm.add_transition(tr) {
                Ok(()) => {},
                Err(e) => {
                    proof {
                        assert(all_ts[t] == tr);
                        assert(!ids.contains(all_ts[t].source_spec()) || !ids.contains(
                            all_ts[t].target_spec(),
                        ));
                        assert(!transitions_within(all_ts, ids));
                        assert(e is NotFound);
                    }
                    return Err(e);
                },
            }
            proof {
                assert(trest@ =~= all_ts.skip(t + 1));
                assert(all_ts.take(t + 1) =~= all_ts.take(t).push(all_ts[t]));
                assert(transitions_within(all_ts.take(t + 1), ids)) by {
                    assert forall|i: int| 0 <= i < t + 1 implies ids.contains(
                        (#[trigger] all_ts.take(t + 1)[i]).source_spec(),
                    ) && ids.contains(all_ts.take(t + 1)[i].target_spec()) by {
                        if i < t {
                            assert(all_ts.take(t + 1)[i] == all_ts.take(t)[i]);
                        }
                    }
                }
                t = t + 1;
            }
        }
        proof {
            assert(all_ts.take(t) =~= all_ts);
        }
        sm.description = description;
        Ok(sm)
    }
}

} // verus!
