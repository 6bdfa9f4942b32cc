use mechaflow::mechaflow_engine::types::Metadata;
use mechaflow::mechaflow_engine::workflow::Workflow;
use mechaflow::mechaflow_core::types::{Id, Value};
use mechaflow::mechaflow_engine::action::{ActionResult, CompositeAction, DeviceAction};
use mechaflow::mechaflow_engine::condition::{
    compare_values, regex_match, AndCondition, ComparisonOperator, JunctionStep, OrCondition,
    VariableCondition,
};
use mechaflow::mechaflow_engine::context::{BasicWorkflowContext, SandboxWorkflowContext};
use mechaflow::mechaflow_engine::error::Error;
use mechaflow::mechaflow_engine::scheduler::WorkflowScheduler;
use mechaflow::mechaflow_engine::state_machine::{
    EventId, State, StateMachine, StateMachineBuilder, Transition,
};
use mechaflow::mechaflow_engine::workflow::{WorkflowId, WorkflowInfo};
use mechaflow::str_map::StrMap;

type Machine = StateMachine<u8, u8>;

fn light_switch() -> Machine {
    StateMachineBuilder::<u8, u8>::new()
        .with_id("switch")
        .with_name("Light switch")
        .with_state(State::new("off", "Off"))
        .with_state(State::new("on", "On"))
        .with_transition(Transition::new("off", "on", "toggle"))
        .with_transition(Transition::new("on", "off", "toggle"))
        .with_initial_state("off")
        .build()
        .unwrap()
}

fn fire(m: &mut Machine, event: &str) -> Result<String, Error> {
    let e = EventId::new(event);
    let candidates = m.applicable_transitions(&e)?;
    match candidates.first() {
        Some(&i) => m.fire_transition(i, &e).map(|s| s.inner().to_string()),
        None => Err(Error::StateMachine("no transition".to_string())),
    }
}

#[test]
fn state_machine_runs_and_records_history() {
    let mut m = light_switch();
    assert!(matches!(
        m.applicable_transitions(&EventId::new("toggle")),
        Err(Error::StateMachine(msg)) if msg == "State machine is not initialized"
    ));
    m.initialize().unwrap();
    assert_eq!(m.current_state().unwrap().inner(), "off");
    assert_eq!(fire(&mut m, "toggle").unwrap(), "on");
    assert_eq!(fire(&mut m, "toggle").unwrap(), "off");
    let h = m.get_history();
    assert_eq!(h.len(), 2);
    assert_eq!((h[0].0.inner(), h[0].1.inner(), h[0].2.inner()), ("off", "toggle", "on"));
    assert_eq!((h[1].0.inner(), h[1].2.inner()), ("on", "off"));
    assert!(m.applicable_transitions(&EventId::new("other")).unwrap().is_empty());
    assert_eq!(m.get_possible_events().len(), 1);
    m.reset().unwrap();
    assert_eq!(m.current_state().unwrap().inner(), "off");
    assert!(m.get_history().is_empty());
}

#[test]
fn state_machine_builder_refuses_bad_definitions() {
    let r = StateMachineBuilder::<u8, u8>::new().with_name("x").build();
    assert!(matches!(r, Err(Error::Validation(m)) if m == "State machine ID is required"));
    let r = StateMachineBuilder::<u8, u8>::new().with_id("x").build();
    assert!(matches!(r, Err(Error::Validation(m)) if m == "State machine name is required"));
    let r = StateMachineBuilder::<u8, u8>::new()
        .with_id("x")
        .with_name("x")
        .with_state(State::new("a", "A"))
        .with_state(State::new("a", "A again"))
        .build();
    assert!(matches!(r, Err(Error::AlreadyExists(_))));
    let r = StateMachineBuilder::<u8, u8>::new()
        .with_id("x")
        .with_name("x")
        .with_state(State::new("a", "A"))
        .with_transition(Transition::new("a", "b", "go"))
        .build();
    assert!(matches!(r, Err(Error::NotFound(_))));
}

#[test]
fn comparisons_of_values() {
    assert!(compare_values(&Value::Integer(5), ComparisonOperator::Gt, &Value::Integer(3)));
    assert!(!compare_values(&Value::Integer(5), ComparisonOperator::Lt, &Value::Integer(3)));
    assert!(compare_values(
        &Value::String("hello world".to_string()),
        ComparisonOperator::Contains,
        &Value::String("lo w".to_string())
    ));
    assert!(compare_values(
        &Value::String("hello".to_string()),
        ComparisonOperator::StartsWith,
        &Value::String("he".to_string())
    ));
    assert!(compare_values(
        &Value::Float(2.5f64.to_bits()),
        ComparisonOperator::Le,
        &Value::Float(2.5f64.to_bits())
    ));
    assert!(compare_values(&Value::Bool(true), ComparisonOperator::Ne, &Value::Bool(false)));
    assert!(compare_values(
        &Value::String("abc123".to_string()),
        ComparisonOperator::Matches,
        &Value::String("^[a-z]+[0-9]+$".to_string())
    ));
    assert!(!compare_values(
        &Value::String("abc".to_string()),
        ComparisonOperator::Matches,
        &Value::String("(".to_string())
    ));
}

#[test]
fn regex_matching_uses_the_pattern() {
    assert!(regex_match("^t.*t$", "test"));
    assert!(!regex_match("^t.*t$", "tesx"));
    assert!(!regex_match("[", "["));
}

#[test]
fn variable_condition_compares_current_value() {
    let c = VariableCondition::new("c", "count", ComparisonOperator::Ge, Value::Integer(10));
    assert!(c.evaluate_value(&Value::Integer(10)));
    assert!(!c.evaluate_value(&Value::Integer(9)));
    assert_eq!(c.variable(), "count");
}

#[test]
fn and_or_steps_decide_like_all_and_any() {
    let and: AndCondition<u8> = AndCondition::new("and").add_condition(1).add_condition(2);
    assert_eq!(and.step(&[]), JunctionStep::Evaluate(0));
    assert_eq!(and.step(&[true]), JunctionStep::Evaluate(1));
    assert_eq!(and.step(&[true, true]), JunctionStep::Done(true));
    assert_eq!(and.step(&[false]), JunctionStep::Done(false));
    let or: OrCondition<u8> = OrCondition::new("or").add_condition(1).add_condition(2);
    assert_eq!(or.step(&[false]), JunctionStep::Evaluate(1));
    assert_eq!(or.step(&[false, true]), JunctionStep::Done(true));
    assert_eq!(or.step(&[false, false]), JunctionStep::Done(false));
    let empty_or: OrCondition<u8> = OrCondition::new("none");
    assert_eq!(empty_or.step(&[]), JunctionStep::Done(true));
}

#[test]
fn composite_action_collects_failures() {
    let stop_first: CompositeAction<u8> = CompositeAction::new("c").add_action(1).add_action(2);
    let mut run = stop_first.start();
    assert!(stop_first.record(&mut run, Ok(ActionResult::Completed)).is_none());
    let stopped = stop_first.record(&mut run, Ok(ActionResult::Failure("boom".to_string())));
    assert!(matches!(stopped, Some(Ok(ActionResult::Failure(m))) if m == "boom"));

    let go_on: CompositeAction<u8> =
        CompositeAction::new("c").add_action(1).add_action(2).continue_on_failure(true);
    let mut run = go_on.start();
    assert!(go_on.record(&mut run, Ok(ActionResult::Failure("a".to_string()))).is_none());
    assert!(go_on.record(&mut run, Err(Error::Action("b".to_string()))).is_none());
    match go_on.finish(run) {
        ActionResult::Failure(m) => assert_eq!(m, "One or more actions failed: a, Action error: b"),
        other => panic!("unexpected {:?}", other),
    }
    let mut run = go_on.start();
    assert!(go_on.record(&mut run, Ok(ActionResult::Completed)).is_none());
    assert!(matches!(go_on.finish(run), ActionResult::Completed));
}

#[test]
fn sandbox_reads_back_what_was_written() {
    let mut ctx = SandboxWorkflowContext::new();
    let dev = Id::from_string("lamp");
    assert!(matches!(ctx.read_property(&dev, "level").unwrap(), Value::Null));
    ctx.write_property(&dev, "level", Value::Integer(7)).unwrap();
    assert!(matches!(ctx.read_property(&dev, "level").unwrap(), Value::Integer(7)));
    ctx.set_variable("x", Value::Bool(true)).unwrap();
    assert!(matches!(ctx.get_variable("x").unwrap(), Value::Bool(true)));
    assert_eq!(ctx.get_operations_log().len(), 5);
    ctx.clear_operations_log();
    assert!(ctx.get_operations_log().is_empty());
}

fn info(id: &str, enabled: bool, max: Option<usize>) -> WorkflowInfo {
    WorkflowInfo {
        id: WorkflowId::from_string(id),
        name: format!("{} workflow", id),
        enabled,
        timeout: None,
        max_concurrent: max,
    }
}

#[test]
fn scheduler_admits_up_to_the_limits() {
    let mut s: WorkflowScheduler<u8> = WorkflowScheduler::new();
    s.start().unwrap();
    assert!(s.is_running());
    s.set_max_concurrent(2);
    s.register_workflow(info("w1", true, Some(1)), 1).unwrap();
    s.register_workflow(info("w2", true, None), 2).unwrap();
    s.register_workflow(info("off", false, None), 3).unwrap();
    assert!(s.register_workflow(info("w1", true, None), 9).is_err());

    let (_, secs) = s.queue_workflow_execution(WorkflowId::from_string("w1"), None).unwrap();
    assert_eq!(secs, 60);
    assert!(s.queue_workflow_execution(WorkflowId::from_string("w1"), None).is_err());
    let (e2, _) = s.queue_workflow_execution(WorkflowId::from_string("w2"), None).unwrap();
    assert!(s.queue_workflow_execution(WorkflowId::from_string("w2"), None).is_err());
    assert_eq!(s.get_active_executions().unwrap().len(), 2);

    s.cancel_execution(&e2).unwrap();
    assert_eq!(s.get_active_executions().unwrap().len(), 1);
    assert!(matches!(
        s.queue_workflow_execution(WorkflowId::from_string("off"), None),
        Err(Error::Workflow(m)) if m == "Workflow off workflow is disabled"
    ));
    assert!(matches!(
        s.queue_workflow_execution(WorkflowId::from_string("nope"), None),
        Err(Error::NotFound(m)) if m == "Workflow with ID nope not found"
    ));
    s.stop().unwrap();
    assert_eq!(s.get_active_executions().unwrap().len(), 0);
    assert!(!s.is_running());
}

#[test]
fn engine_errors_render_their_kind() {
    assert_eq!(Error::Rule("x".to_string()).to_string(), "Rule error: x");
    assert_eq!(Error::NotFound("y".to_string()).to_string(), "Not found: y");
}

#[test]
fn lib_test_version() {
    assert!(!mechaflow::mechaflow_engine::VERSION.is_empty());
    assert!(!mechaflow::mechaflow_core::VERSION.is_empty());
}

#[test]
fn variables_round_trip_in_maps() {
    let mut m: StrMap<Value> = StrMap::new();
    assert!(m.insert("a".to_string(), Value::Integer(1)).is_none());
    assert!(m.insert("a".to_string(), Value::Integer(2)).is_some());
    assert!(matches!(m.get("a"), Some(Value::Integer(2))));
    assert_eq!(m.len(), 1);
    assert!(m.remove("a").is_some());
    assert!(m.is_empty());
}

#[test]
fn basic_context_variables_read_back() {
    let mut ctx = BasicWorkflowContext::new(());
    assert!(matches!(ctx.get_variable("missing").unwrap(), Value::Null));
    ctx.set_variable("a", Value::Integer(1)).unwrap();
    ctx.set_variable("b", Value::Integer(2)).unwrap();
    ctx.set_variable("a", Value::Integer(3)).unwrap();
    assert!(matches!(ctx.get_variable("a").unwrap(), Value::Integer(3)));
    assert!(matches!(ctx.get_variable("b").unwrap(), Value::Integer(2)));
    assert_eq!(ctx.get_variables().unwrap().len(), 2);
    ctx.clear_variables();
    assert!(matches!(ctx.get_variable("a").unwrap(), Value::Null));
}

#[test]
fn workflow_event_steps() {
    let mut w: Workflow<u8, u8, u8> = Workflow::new("w");
    assert_eq!(w.trigger_match_step(&[]), JunctionStep::Done(false));
    assert_eq!(w.condition_check_step(&[]), JunctionStep::Done(true));
    w.add_trigger(1);
    w.add_trigger(2);
    w.add_condition(1);
    assert_eq!(w.trigger_match_step(&[]), JunctionStep::Evaluate(0));
    assert_eq!(w.trigger_match_step(&[false]), JunctionStep::Evaluate(1));
    assert_eq!(w.trigger_match_step(&[false, true]), JunctionStep::Done(true));
    assert_eq!(w.trigger_match_step(&[false, false]), JunctionStep::Done(false));
    assert_eq!(w.condition_check_step(&[]), JunctionStep::Evaluate(0));
    assert_eq!(w.condition_check_step(&[false]), JunctionStep::Done(false));
    assert_eq!(w.condition_check_step(&[true]), JunctionStep::Done(true));
}

#[test]
fn command_parameters_that_are_no_object_are_named_in_the_error() {
    let action = DeviceAction::new("a1", Id::from_string("dev"))
        .execute_command("blink", Value::Array(vec![Value::Integer(5)]));
    match action.operation() {
        Err(Error::Action(m)) => {
            assert_eq!(m, "Command parameters must be an object, got Array([Integer(5)])")
        }
        _ => panic!("expected an action error"),
    }
}

#[test]
fn metadata_entries_and_mutable_map() {
    let mut m = Metadata::new();
    m.insert("a", Value::Integer(1));
    m.insert("b", Value::Bool(true));
    m.as_map_mut().insert("c".to_string(), Value::Null);
    assert_eq!(m.len(), 3);
    assert!(matches!(m.get("c"), Some(Value::Null)));
    let entries = m.iter();
    let mut keys: Vec<String> = entries.iter().map(|(k, _)| (*k).clone()).collect();
    keys.sort();
    assert_eq!(keys, vec!["a", "b", "c"]);
    assert!(entries
        .iter()
        .any(|(k, v)| k.as_str() == "a" && matches!(v, Value::Integer(1))));
}

#[test]
fn transition_actions_are_exit_then_transition_then_entry() {
    let mut off = State::new("off", "Off");
    off.add_exit_action(1);
    off.add_entry_action(9);
    let mut on = State::new("on", "On");
    on.add_entry_action(3);
    on.add_entry_action(4);
    on.add_exit_action(8);
    let mut t = Transition::new("off", "on", "toggle");
    t.add_action(2);
    let mut m = StateMachineBuilder::<u8, u8>::new()
        .with_id("switch")
        .with_name("Light switch")
        .with_state(off)
        .with_state(on)
        .with_transition(t)
        .with_transition(Transition::new("on", "off", "toggle"))
        .with_initial_state("off")
        .build()
        .unwrap();
    assert!(m.transition_actions(0).is_none());
    m.initialize().unwrap();
    let (exit, actions, entry) = m.transition_actions(0).unwrap();
    assert_eq!((exit, actions, entry), (&[1u8][..], &[2u8][..], &[3u8, 4][..]));
    assert!(m.transition_actions(1).is_none());
    assert!(m.transition_actions(2).is_none());
    m.fire_transition(0, &EventId::new("toggle")).unwrap();
    let (exit, actions, entry) = m.transition_actions(1).unwrap();
    assert_eq!((exit, actions, entry), (&[8u8][..], &[][..], &[9u8][..]));
}

#[test]
fn integers_and_floats_compare_as_numbers() {
    let i = |n: i64| Value::Integer(n);
    let f = |x: f64| Value::Float(x.to_bits());
    assert!(compare_values(&i(3), ComparisonOperator::Gt, &f(2.5)));
    assert!(!compare_values(&i(3), ComparisonOperator::Lt, &f(2.5)));
    assert!(compare_values(&f(2.5), ComparisonOperator::Lt, &i(3)));
    assert!(compare_values(&i(3), ComparisonOperator::Ge, &f(3.0)));
    assert!(compare_values(&f(3.0), ComparisonOperator::Le, &i(3)));
    assert!(!compare_values(&i(3), ComparisonOperator::Gt, &f(3.0)));
    assert!(!compare_values(&i(3), ComparisonOperator::Gt, &f(f64::NAN)));
    assert!(compare_values(&i(i64::MAX), ComparisonOperator::Lt, &f(f64::INFINITY)));
    // 2^53 + 1 becomes 2^53 as a float
    assert!(!compare_values(&i((1 << 53) + 1), ComparisonOperator::Gt, &f(9007199254740992.0)));
    assert!(compare_values(&i(-1), ComparisonOperator::Lt, &f(-0.5)));
    let c = VariableCondition::new("c", "temp", ComparisonOperator::Gt, f(21.5));
    assert!(c.evaluate_value(&i(22)));
    assert!(!c.evaluate_value(&i(21)));
}
