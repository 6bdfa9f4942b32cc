use mechaflow::mechaflow_core::utils::checked_duration_to_millis;
use mechaflow::mechaflow_core::config::{Config, ConfigBuilder, SharedConfig};
use mechaflow::mechaflow_core::error::Error;
use mechaflow::mechaflow_core::event::{BasicEvent, Priority, TypedEvent};
use mechaflow::mechaflow_core::runtime::{not_implemented, worker_threads, ComponentKind, Registry};
use mechaflow::mechaflow_core::types::{
    float_bits_as_integer, integer_to_float_bits, Id, Timestamp, Value,
};
use mechaflow::mechaflow_core::utils::{
    bulk_step, duration_to_millis, millis_to_duration, retry_decision, with_timeout_result,
    AttemptOutcome, FailurePolicy, RetryDecision,
};
use mechaflow::str_map::{str_eq, StrMap};
use std::time::Duration;

#[test]
fn test_default_config() {
    let config = Config::default();
    assert_eq!(config.general.app_name, "mechaflow");
    assert_eq!(config.logging.level, "info");
    assert_eq!(config.runtime.max_concurrent_tasks, 100);
    assert!(!config.security.authentication_enabled);
}

#[test]
fn test_shared_config() {
    let config = Config::default();
    let shared = SharedConfig::new(config);

    assert_eq!(shared.get().general.app_name, "mechaflow");

    let shared2 = shared.clone();
    assert_eq!(shared2.get().general.app_name, "mechaflow");
}

#[test]
fn test_error_creation() {
    let err = Error::config("test");
    assert!(matches!(err, Error::Config(_)));

    let err = Error::runtime("test");
    assert!(matches!(err, Error::Runtime(_)));

    let err = Error::event("test");
    assert!(matches!(err, Error::Event(_)));

    let err = Error::device("test");
    assert!(matches!(err, Error::Device(_)));

    let err = Error::validation("test");
    assert!(matches!(err, Error::Validation(_)));

    let err = Error::not_found("test");
    assert!(matches!(err, Error::NotFound(_)));

    let err = Error::timeout("test");
    assert!(matches!(err, Error::Timeout(_)));

    let err = Error::serialization("test");
    assert!(matches!(err, Error::Serialization(_)));

    let err = Error::other("test");
    assert!(matches!(err, Error::Other(_)));
}

#[test]
fn test_error_from_string() {
    let err: Error = "test".into();
    assert!(matches!(err, Error::Other(_)));

    let err: Error = String::from("test").into();
    assert!(matches!(err, Error::Other(_)));
}

#[test]
fn test_error_display() {
    let err = Error::config("test");
    assert_eq!(err.to_string(), "Configuration error: test");

    let err = Error::runtime("test");
    assert_eq!(err.to_string(), "Runtime error: test");

    let err = Error::event("test");
    assert_eq!(err.to_string(), "Event error: test");

    let err = Error::device("test");
    assert_eq!(err.to_string(), "Device error: test");

    let err = Error::validation("test");
    assert_eq!(err.to_string(), "Validation error: test");

    let err = Error::not_found("test");
    assert_eq!(err.to_string(), "Resource not found: test");

    let err = Error::timeout("test");
    assert_eq!(err.to_string(), "Timeout error: test");

    let err = Error::serialization("test");
    assert_eq!(err.to_string(), "Serialization error: test");

    let err = Error::other("test");
    assert_eq!(err.to_string(), "Other error: test");
}

#[test]
fn test_id_creation() {
    let id = Id::new();
    assert!(!id.as_str().is_empty());

    let id = Id::from_string("test-id");
    assert_eq!(id.as_str(), "test-id");

    let id: Id = "another-id".into();
    assert_eq!(id.as_str(), "another-id");

    let id: Id = String::from("string-id").into();
    assert_eq!(id.as_str(), "string-id");
}

#[test]
fn test_id_display() {
    let id = Id::from_string("test-id");
    assert_eq!(id.to_string(), "test-id");
}

#[test]
fn fresh_ids_have_uuid_shape_and_differ() {
    let a = Id::new();
    let b = Id::new();
    assert_eq!(a.as_str().len(), 36);
    assert_eq!(a.as_str().matches('-').count(), 4);
    assert_ne!(a.as_str(), b.as_str());
}

#[test]
fn test_value_type_checks() {
    let v = Value::Null;
    assert!(v.is_null());

    let v = Value::Bool(true);
    assert!(v.is_bool());

    let v = Value::Integer(42);
    assert!(v.is_integer());
    assert!(v.is_numeric());

    let v = Value::Float(3.14f64.to_bits());
    assert!(v.is_float());
    assert!(v.is_numeric());

    let v = Value::String("hello".to_string());
    assert!(v.is_string());

    let v = Value::Array(vec![Value::Integer(1), Value::Integer(2)]);
    assert!(v.is_array());

    let mut map = StrMap::new();
    map.insert("key".to_string(), Value::String("value".to_string()));
    let v = Value::Object(map);
    assert!(v.is_object());

    let v = Value::Binary(vec![1, 2, 3]);
    assert!(v.is_binary());

    let v = Value::Timestamp(Timestamp { secs: 1_700_000_000, nanos: 0 });
    assert!(v.is_timestamp());
}

#[test]
fn test_value_as_methods() {
    let v = Value::Integer(42);
    assert_eq!(v.as_integer(), Some(42));

    let v = Value::Float(3.0f64.to_bits());
    assert_eq!(v.as_integer(), Some(3));

    let v = Value::Float(3.14f64.to_bits());
    assert_eq!(v.as_integer(), None); // Not an exact integer

    let v = Value::Bool(true);
    assert_eq!(v.as_bool(), Some(true));
    assert_eq!(v.as_integer(), None);

    let v = Value::String("hello".to_string());
    assert_eq!(v.as_str(), Some("hello"));
    assert_eq!(v.as_bool(), None);
}

#[test]
fn test_value_conversions() {
    let v: Value = true.into();
    assert_eq!(v.as_bool(), Some(true));

    let v: Value = 42i32.into();
    assert_eq!(v.as_integer(), Some(42));

    let v: Value = 42i64.into();
    assert_eq!(v.as_integer(), Some(42));

    let v: Value = "hello".into();
    assert_eq!(v.as_str(), Some("hello"));

    let v: Value = String::from("hello").into();
    assert_eq!(v.as_str(), Some("hello"));

    let binary = vec![1u8, 2, 3];
    let v: Value = binary.clone().into();
    assert_eq!(v.as_binary(), Some(&binary[..]));

    let now = Timestamp { secs: 1_700_000_000, nanos: 5 };
    let v: Value = now.into();
    assert_eq!(v.as_timestamp().unwrap(), &now);

    let v: Value = vec![Value::Integer(1), Value::Integer(2)].into();
    let items = v.as_array().unwrap();
    assert_eq!(items.len(), 2);
    assert!(matches!(items[1], Value::Integer(2)));

    let mut map = StrMap::new();
    map.insert("key".to_string(), Value::String("value".to_string()));
    let v: Value = map.into();
    assert!(matches!(v.as_object().unwrap().get("key"), Some(Value::String(s)) if s == "value"));
}

/// The float reading agrees with the round trip through `i64` that decides
/// whether a float is an integer.
fn reference_as_integer(f: f64) -> Option<i64> {
    if f == (f as i64) as f64 {
        Some(f as i64)
    } else {
        None
    }
}

#[test]
fn float_integer_reading_matches_round_trip() {
    let samples = [
        0.0,
        -0.0,
        1.0,
        -1.0,
        0.5,
        -2.5,
        1e-300,
        4503599627370496.0,
        4503599627370497.0,
        9007199254740993.0,
        1e18,
        -1e18,
        9223372036854775808.0,
        -9223372036854775808.0,
        1.8446744073709552e19,
        1e300,
        f64::INFINITY,
        f64::NEG_INFINITY,
        f64::NAN,
        f64::MIN_POSITIVE,
        123456789.0,
        -7.0,
    ];
    for f in samples.iter() {
        assert_eq!(float_bits_as_integer(f.to_bits()), reference_as_integer(*f), "{}", f);
    }
}

#[test]
fn test_duration_conversions() {
    let duration = Duration::from_millis(1234);
    let millis = duration_to_millis(duration);
    assert_eq!(millis, 1234);

    let duration2 = millis_to_duration(millis);
    assert_eq!(duration, duration2);
}

#[test]
fn duration_in_millis_counts_whole_seconds() {
    assert_eq!(duration_to_millis(Duration::new(3, 999_999_999)), 3999);
    assert_eq!(millis_to_duration(61_001), Duration::new(61, 1_000_000));
}

#[test]
fn test_with_timeout_success() {
    let result = with_timeout_result(AttemptOutcome::Finished(Ok::<_, Error>(42)));
    assert_eq!(result.unwrap(), 42);
}

#[test]
fn test_with_timeout_failure() {
    let result = with_timeout_result::<i32>(AttemptOutcome::TimedOut);
    assert!(matches!(result, Err(Error::Timeout(_))));
}

/// Drives the retry decisions over a sequence of attempts, counting them.
fn run_retries(retries: usize, outcome_of: impl Fn(usize) -> AttemptOutcome<i32>) -> (Result<i32, Error>, usize) {
    let mut attempt = 0;
    let mut count = 0;
    loop {
        count += 1;
        match retry_decision(attempt, retries, outcome_of(attempt)) {
            RetryDecision::Done(r) => return (r, count),
            RetryDecision::Retry(next) => attempt = next,
        }
    }
}

#[test]
fn test_with_retry_success_first_try() {
    let (result, count) = run_retries(3, |_| AttemptOutcome::Finished(Ok(42)));
    assert_eq!(result.unwrap(), 42);
    assert_eq!(count, 1);
}

#[test]
fn test_with_retry_success_after_retries() {
    let (result, count) = run_retries(3, |current| {
        if current < 2 {
            AttemptOutcome::Finished(Err(Error::other("Intentional failure")))
        } else {
            AttemptOutcome::Finished(Ok(42))
        }
    });
    assert_eq!(result.unwrap(), 42);
    assert_eq!(count, 3);
}

#[test]
fn test_with_retry_all_failures() {
    let (result, count) =
        run_retries(2, |_| AttemptOutcome::Finished(Err(Error::other("Intentional failure"))));
    assert!(result.is_err());
    assert_eq!(count, 3); // Initial + 2 retries
}

#[test]
fn retries_after_timeouts_end_in_timeout_error() {
    let (result, count) = run_retries(1, |_| AttemptOutcome::TimedOut);
    assert!(matches!(result, Err(Error::Timeout(m)) if m == "Operation timed out"));
    assert_eq!(count, 2);
}

#[test]
fn config_builder_records_sources() {
    let b = ConfigBuilder::new().with_config_file("conf.toml").with_environment_prefix("mechaflow");
    assert_eq!(b.config_file().map(|s| s.as_str()), Some("conf.toml"));
    assert_eq!(b.environment_prefix().map(|s| s.as_str()), Some("mechaflow"));
    let b = ConfigBuilder::new();
    assert!(b.config_file().is_none());
    assert!(b.environment_prefix().is_none());
}

#[test]
fn config_override_replaces_loaded_configuration() {
    let mut loaded = Config::default();
    loaded.general.app_name = "loaded".to_string();
    let mut forced = Config::default();
    forced.general.app_name = "forced".to_string();

    let r = ConfigBuilder::new().resolve(Ok(loaded.clone()));
    assert_eq!(r.unwrap().general.app_name, "loaded");

    let r = ConfigBuilder::new().override_with(forced).resolve(Ok(loaded));
    assert_eq!(r.unwrap().general.app_name, "forced");

    let r = ConfigBuilder::new()
        .override_with(Config::default())
        .resolve(Err(Error::config("Failed to build configuration: bad")));
    assert!(matches!(r, Err(Error::Config(m)) if m == "Failed to build configuration: bad"));
}

#[test]
fn config_defaults_are_complete() {
    let c = Config::default();
    assert_eq!(c.general.app_version, "0.1.0");
    assert_eq!(c.general.environment, "development");
    assert_eq!(c.general.data_dir, "./data");
    assert!(!c.logging.file_logging);
    assert_eq!(c.logging.log_file, "./logs/mechaflow.log");
    assert!(c.logging.stdout);
    assert!(!c.logging.json_format);
    assert_eq!(c.runtime.worker_threads, 0);
    assert_eq!(c.runtime.operation_timeout_ms, 0);
    assert!(!c.runtime.debug_mode);
    assert!(!c.security.tls_enabled);
    assert_eq!(c.security.tls_cert, "./certs/cert.pem");
    assert_eq!(c.security.tls_key, "./certs/key.pem");
}

#[test]
fn priority_scale_and_default() {
    assert_eq!(Priority::default(), Priority::Normal);
    assert!(Priority::Low < Priority::Normal && Priority::High < Priority::Critical);
    assert_eq!(Priority::Low.rank(), 0);
    assert_eq!(Priority::Critical.rank(), 3);
}

#[test]
fn events_carry_source_and_priority() {
    let e = BasicEvent::new("test", Value::String("test payload".to_string()))
        .with_source(Id::from_string("source1"))
        .with_priority(Priority::High);
    assert_eq!(e.event_type, "test");
    assert_eq!(e.source.as_ref().map(|s| s.as_str()), Some("source1"));
    assert_eq!(e.priority, Priority::High);
    assert!(e.timestamp.secs > 1_600_000_000);

    let t = TypedEvent::new("typed_test", "typed payload").with_source(Id::from_string("source2"));
    assert_eq!(t.event_type, "typed_test");
    assert_eq!(t.payload, "typed payload");
    assert_eq!(t.priority, Priority::Normal);
}

#[test]
fn registry_refuses_duplicates_and_missing() {
    let mut devices: Registry<u32> = Registry::new(ComponentKind::Device);
    let id = Id::from_string("device1");
    devices.register(&id, 1).unwrap();
    assert!(devices.contains(&id));
    match devices.register(&Id::from_string("device1"), 2) {
        Err(Error::Device(m)) => assert_eq!(m, "Device with ID device1 already registered"),
        other => panic!("unexpected {:?}", other),
    }
    assert_eq!(*devices.get(&id).unwrap(), 1);
    devices.unregister(&id).unwrap();
    match devices.unregister(&id) {
        Err(Error::Device(m)) => assert_eq!(m, "Device with ID device1 not found"),
        other => panic!("unexpected {:?}", other),
    }
    assert_eq!(devices.len(), 0);

    let mut workflows: Registry<&str> = Registry::new(ComponentKind::Workflow);
    workflows.register(&Id::from_string("workflow1"), "test workflow").unwrap();
    assert!(workflows.register(&Id::from_string("workflow1"), "test workflow 2").is_err());
    match workflows.get(&Id::from_string("nope")) {
        Err(Error::Workflow(m)) => assert_eq!(m, "Workflow with ID nope not found"),
        other => panic!("unexpected {:?}", other),
    }
    match workflows.take_running(&Id::from_string("nope")) {
        Err(Error::Workflow(m)) => assert_eq!(m, "Workflow with ID nope is not running"),
        other => panic!("unexpected {:?}", other),
    }
    assert_eq!(workflows.take_running(&Id::from_string("workflow1")).unwrap(), "test workflow");
}

#[test]
fn registry_lists_and_drains_everything() {
    let mut r: Registry<u32> = Registry::new(ComponentKind::Device);
    for (i, name) in ["a", "b", "c"].iter().enumerate() {
        r.register(&Id::from_string(name), i as u32).unwrap();
    }
    let mut ids: Vec<String> = r.ids().iter().map(|i| i.to_string()).collect();
    ids.sort();
    assert_eq!(ids, vec!["a", "b", "c"]);
    let drained = r.drain();
    assert_eq!(drained.len(), 3);
    assert_eq!(r.len(), 0);
}

#[test]
fn worker_threads_default_to_cores() {
    let mut c = Config::default();
    assert!(worker_threads(&c.runtime) >= 1);
    c.runtime.worker_threads = 3;
    assert_eq!(worker_threads(&c.runtime), 3);
}

#[test]
fn not_implemented_names_the_operation() {
    match not_implemented("read_device not implemented yet") {
        Error::Other(m) => assert_eq!(m, "Not implemented: read_device not implemented yet"),
        other => panic!("unexpected {:?}", other),
    }
}

#[test]
fn bulk_steps_follow_policy() {
    assert!(bulk_step::<Error>(FailurePolicy::Abort, Ok(())).is_none());
    assert!(matches!(bulk_step(FailurePolicy::Abort, Err(Error::other("x"))), Some(Error::Other(_))));
    assert!(bulk_step(FailurePolicy::Continue, Err(Error::other("x"))).is_none());
}

#[test]
fn checked_millis_refuses_overflow() {
    assert_eq!(checked_duration_to_millis(Duration::from_millis(1234)), Some(1234));
    assert_eq!(checked_duration_to_millis(Duration::new(u64::MAX, 0)), None);
    assert_eq!(checked_duration_to_millis(Duration::new(u64::MAX / 1000, 999_000_000)), None);
    let m = (u64::MAX / 1000) * 1000 + 1;
    assert_eq!(checked_duration_to_millis(Duration::new(u64::MAX / 1000, 1_000_000)), Some(m));
}

#[test]
fn whole_millisecond_durations_round_trip() {
    for d in [Duration::from_millis(0), Duration::from_millis(1234), Duration::new(7, 5_000_000)] {
        assert_eq!(millis_to_duration(duration_to_millis(d)), d);
    }
    assert_ne!(millis_to_duration(duration_to_millis(Duration::new(1, 1))), Duration::new(1, 1));
}

#[test]
fn drained_registry_hands_out_its_entries() {
    let mut r: Registry<u32> = Registry::new(ComponentKind::Workflow);
    r.register(&Id::from_string("x"), 7).unwrap();
    let drained = r.drain();
    assert_eq!(drained, vec![("x".to_string(), 7)]);
}

#[test]
fn test_config_builder_defaults() {
    let config = ConfigBuilder::new().resolve(Ok(Config::default())).unwrap();
    assert_eq!(config.general.app_name, "mechaflow");
    assert_eq!(config.logging.level, "info");
}

#[test]
fn test_device_registration() {
    let mut devices: Registry<&str> = Registry::new(ComponentKind::Device);

    // Register device
    devices.register(&Id::from_string("device1"), "mock").unwrap();

    // Try to register with same ID (should fail)
    assert!(devices.register(&Id::from_string("device1"), "mock 2").is_err());

    // Unregister device
    devices.unregister(&Id::from_string("device1")).unwrap();

    // Try to unregister again (should fail)
    assert!(devices.unregister(&Id::from_string("device1")).is_err());
}

#[test]
fn test_workflow_registration() {
    let mut workflows: Registry<&str> = Registry::new(ComponentKind::Workflow);

    // Register workflow
    workflows.register(&Id::from_string("workflow1"), "test workflow").unwrap();

    // Try to register with same ID (should fail)
    assert!(workflows.register(&Id::from_string("workflow1"), "test workflow 2").is_err());

    // Unregister workflow
    workflows.unregister(&Id::from_string("workflow1")).unwrap();

    // Try to unregister again (should fail)
    assert!(workflows.unregister(&Id::from_string("workflow1")).is_err());
}

#[test]
fn integers_convert_to_the_nearest_float() {
    let samples: Vec<i64> = vec![
        0,
        1,
        -1,
        2,
        3,
        1000,
        -123456789,
        (1 << 52) - 1,
        1 << 52,
        (1 << 53) - 1,
        1 << 53,
        (1 << 53) + 1,
        (1 << 53) + 2,
        (1 << 53) + 3,
        (1 << 54) + 2,
        (1 << 54) + 6,
        i64::MAX,
        i64::MAX - 1023,
        i64::MAX - 1024,
        i64::MIN,
        i64::MIN + 1,
        -(1 << 53) - 1,
        9_007_199_254_740_993,
    ];
    for i in samples {
        assert_eq!(integer_to_float_bits(i), (i as f64).to_bits(), "converting {}", i);
    }
}

#[test]
fn strings_compare_character_by_character() {
    assert!(str_eq("", ""));
    assert!(str_eq("grüße", "grüße"));
    assert!(!str_eq("abc", "abd"));
    assert!(!str_eq("abc", "ab"));
    assert!(!str_eq("ab", "abc"));
    assert!(!str_eq("", "a"));
}
