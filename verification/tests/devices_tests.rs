use mechaflow::mechaflow_devices::discovery::DeviceDiscoverer;
use mechaflow::mechaflow_core::types::{Id, Value};
use mechaflow::mechaflow_devices::available_protocols;
use mechaflow::mechaflow_devices::device::{
    bytes_debug, data_type_debug, validate_value, validate_value_type, value_debug, DeviceCapability, DeviceError, DeviceInfo, DeviceState,
    PropertyAccess, PropertyDataType, PropertyMetadata,
};
use mechaflow::mechaflow_devices::devices::thermostat::{
    check_humidity, control_decision, next_humidity, plan_command, plan_write, temperature_step,
    TemperatureComparison, TemperatureStep, ThermostatCommand, ThermostatMode, ThermostatWrite,
};
use mechaflow::mechaflow_devices::discovery::{
    accept_result, DiscoveryOptions, DiscoveryResult, RegistrationOutcome, RegistrationRun,
};
use mechaflow::mechaflow_devices::protocol::util::{build_connection_string, parse_connection_string};
use mechaflow::mechaflow_devices::protocol::ProtocolOptions;
use mechaflow::mechaflow_devices::protocols::mqtt::{parse_u16, MqttProtocol};
use mechaflow::mechaflow_devices::registry::DeviceRegistry;
use mechaflow::str_map::StrMap;

fn info(id: &str, device_type: &str) -> DeviceInfo {
    DeviceInfo {
        id: Id::from_string(id),
        name: format!("{} device", id),
        device_type: device_type.to_string(),
        manufacturer: None,
        model: None,
        serial_number: None,
        firmware_version: None,
        protocol: "mqtt".to_string(),
        capabilities: vec![DeviceCapability::Read],
        metadata: StrMap::new(),
    }
}

#[test]
fn connection_string_parses_into_protocol_and_parameters() {
    let (p, params) = parse_connection_string("mqtt://host=localhost;port=1883").unwrap();
    assert_eq!(p, "mqtt");
    assert_eq!(params.get("host").map(|s| s.as_str()), Some("localhost"));
    assert_eq!(params.get("port").map(|s| s.as_str()), Some("1883"));
    assert_eq!(params.len(), 2);

    let (p, params) = parse_connection_string("tcp://").unwrap();
    assert_eq!(p, "tcp");
    assert!(params.is_empty());

    let (_, params) = parse_connection_string("a://k=v=w;;k=x").unwrap();
    assert_eq!(params.get("k").map(|s| s.as_str()), Some("x"));
}

#[test]
fn connection_string_errors() {
    match parse_connection_string("no-separator") {
        Err(DeviceError::Other(m)) => assert_eq!(m, "Invalid connection string format: no-separator"),
        other => panic!("unexpected {:?}", other),
    }
    match parse_connection_string("mqtt://host=a;broken;port=1") {
        Err(DeviceError::Other(m)) => {
            assert_eq!(m, "Invalid parameter format in connection string: broken")
        }
        other => panic!("unexpected {:?}", other),
    }
}

#[test]
fn connection_string_round_trip() {
    let mut params = StrMap::new();
    params.insert("host".to_string(), "broker".to_string());
    params.insert("port".to_string(), "1884".to_string());
    params.insert("path".to_string(), "a=b".to_string());
    let text = build_connection_string("mqtt", &params);
    assert_eq!(text, "mqtt://host=broker;port=1884;path=a=b");
    let (p, back) = parse_connection_string(&text).unwrap();
    assert_eq!(p, "mqtt");
    assert_eq!(back.len(), 3);
    for key in ["host", "port", "path"] {
        assert_eq!(back.get(key), params.get(key));
    }
    assert_eq!(build_connection_string("x", &StrMap::new()), "x://");
}

#[test]
fn mqtt_connection_parameters() {
    let mqtt = MqttProtocol::new();
    let (client, host, port) = mqtt.parse_connection_string("mqtt://host=broker;port=1884;clientId=me").unwrap();
    assert_eq!((client.as_str(), host.as_str(), port), ("me", "broker", 1884));
    let (client, host, port) = mqtt.parse_connection_string("mqtt://port=notanumber").unwrap();
    assert_eq!(host, "localhost");
    assert_eq!(port, 1883);
    assert!(client.starts_with("mechaflow-"));
    assert_eq!(client.len(), "mechaflow-".len() + 36);
    assert!(matches!(
        mqtt.parse_connection_string("amqp://host=x"),
        Err(DeviceError::UnsupportedProtocol(p)) if p == "amqp"
    ));
    assert_eq!(parse_u16("65535"), Some(65535));
    assert_eq!(parse_u16("65536"), None);
    assert_eq!(parse_u16(""), None);
    assert_eq!(parse_u16("12a"), None);
}

#[test]
fn protocol_options_read_typed_values() {
    let o = ProtocolOptions::new()
        .with_option("name", Value::String("x".to_string()))
        .with_option("n", Value::Integer(7))
        .with_option("b", Value::Bool(true));
    assert_eq!(o.get_string("name").as_deref(), Some("x"));
    assert_eq!(o.get_integer("n"), Some(7));
    assert_eq!(o.get_bool("b"), Some(true));
    assert_eq!(o.get_integer("name"), None);
    assert_eq!(o.get_bool("missing"), None);
    assert_eq!(
        o.timeout_or(std::time::Duration::from_secs(5)),
        std::time::Duration::from_secs(5)
    );
}

#[test]
fn thermostat_modes_by_name() {
    assert_eq!(ThermostatMode::from_str("HEAT"), Some(ThermostatMode::Heat));
    assert_eq!(ThermostatMode::from_str("auto"), Some(ThermostatMode::Auto));
    assert_eq!(ThermostatMode::from_str("warm"), None);
    assert_eq!(ThermostatMode::Cool.as_str(), "cool");
    assert!(matches!(
        ThermostatMode::from_value(&Value::Integer(1)),
        Err(DeviceError::InvalidValue(_))
    ));
}

#[test]
fn thermostat_control_decisions() {
    let cold = TemperatureComparison { below: true, above: false, below_band: true, above_band: false };
    let ok = TemperatureComparison { below: false, above: false, below_band: false, above_band: false };
    assert_eq!(control_decision(ThermostatMode::Heat, cold), (true, DeviceState::Active));
    assert_eq!(control_decision(ThermostatMode::Cool, cold), (false, DeviceState::Idle));
    assert_eq!(control_decision(ThermostatMode::Off, cold), (false, DeviceState::Standby));
    assert_eq!(control_decision(ThermostatMode::Fan, ok), (true, DeviceState::Active));
    assert_eq!(control_decision(ThermostatMode::Auto, ok), (false, DeviceState::Idle));
    assert_eq!(temperature_step(ThermostatMode::Heat, true, cold, false, false), TemperatureStep::UpFast);
    assert_eq!(temperature_step(ThermostatMode::Off, false, ok, false, true), TemperatureStep::DownSlow);
    assert_eq!(temperature_step(ThermostatMode::Fan, true, cold, true, false), TemperatureStep::Keep);
}

#[test]
fn thermostat_humidity_bounds() {
    assert_eq!(next_humidity(50, 3), 53);
    assert_eq!(next_humidity(69, 5), 70);
    assert_eq!(next_humidity(31, -5), 30);
    assert!(check_humidity(100).is_ok());
    assert!(matches!(check_humidity(101), Err(DeviceError::InvalidValue(_))));
}

#[test]
fn thermostat_writes_and_commands() {
    assert_eq!(
        plan_write("targetTemperature", &Value::Integer(21)).unwrap(),
        ThermostatWrite::TargetInteger(21)
    );
    assert_eq!(
        plan_write("mode", &Value::String("cool".to_string())).unwrap(),
        ThermostatWrite::Mode(ThermostatMode::Cool)
    );
    assert!(matches!(plan_write("fanOn", &Value::Integer(1)), Err(DeviceError::InvalidValue(_))));
    assert_eq!(plan_write("humidity", &Value::Null).unwrap(), ThermostatWrite::Forward);

    let mut params = StrMap::new();
    params.insert("temperature".to_string(), Value::Float(22.5f64.to_bits()));
    assert_eq!(
        plan_command("setTemperature", &params).unwrap(),
        ThermostatCommand::SetTemperatureFloat(22.5f64.to_bits())
    );
    assert!(matches!(
        plan_command("setMode", &StrMap::new()),
        Err(DeviceError::MissingParameter(p)) if p == "mode"
    ));
    assert_eq!(plan_command("getStatus", &StrMap::new()).unwrap(), ThermostatCommand::GetStatus);
}

#[test]
fn device_registry_registration() {
    let mut reg: DeviceRegistry<u8> = DeviceRegistry::new();
    reg.register_device(info("device1", "thermostat"), 1).unwrap();
    assert!(matches!(
        reg.register_device(info("device1", "thermostat"), 2),
        Err(DeviceError::Other(m)) if m == "Device with ID device1 already registered"
    ));
    assert_eq!(*reg.get_device(&Id::from_string("device1")).unwrap(), 1);
    reg.unregister_device(&Id::from_string("device1")).unwrap();
    assert!(reg.get_device(&Id::from_string("device1")).is_err());
    assert!(matches!(
        reg.unregister_device(&Id::from_string("device1")),
        Err(DeviceError::Other(m)) if m == "Device with ID device1 not registered"
    ));
}

#[test]
fn property_values_are_validated() {
    let meta = PropertyMetadata {
        name: "temperature".to_string(),
        description: None,
        data_type: PropertyDataType::Integer,
        access: PropertyAccess::ReadWrite,
        unit: None,
        min_value: Some(Value::Integer(0)),
        max_value: Some(Value::Integer(100)),
        precision: None,
        scale_factor: None,
        update_rate_ms: None,
        metadata: StrMap::new(),
    };
    assert!(validate_value(&meta, &Value::Integer(50)).is_ok());
    assert!(matches!(
        validate_value(&meta, &Value::Integer(101)),
        Err(DeviceError::ValueOutOfRange(n, _)) if n == "temperature"
    ));
    assert!(matches!(
        validate_value(&meta, &Value::Integer(-5)),
        Err(DeviceError::ValueOutOfRange(_, m)) if m == "Value -5 is less than minimum 0"
    ));
    assert!(matches!(
        validate_value(&meta, &Value::Integer(i64::MIN)),
        Err(DeviceError::ValueOutOfRange(_, m)) if m == format!("Value {} is less than minimum 0", i64::MIN)
    ));
    assert!(matches!(
        validate_value_type(&meta, &Value::Bool(true)),
        Err(DeviceError::InvalidValueType(n, _, _)) if n == "temperature"
    ));
}

#[test]
fn discovery_defaults_and_filter() {
    let o = DiscoveryOptions::default();
    assert_eq!(o.timeout, std::time::Duration::from_secs(10));
    let r = DiscoveryResult {
        device_info: info("d", "thermostat"),
        connection_string: "mqtt://".to_string(),
        protocol_info: StrMap::new(),
    };
    assert!(accept_result(&o, &r));
    let mut filtered = DiscoveryOptions::new();
    filtered.device_type_filter = Some("camera".to_string());
    assert!(!accept_result(&filtered, &r));
}

#[test]
fn no_optional_protocol_backends() {
    assert!(available_protocols().is_empty());
}

#[test]
fn discovery_refusals_name_the_filter_as_debug_text() {
    let mut d: DeviceDiscoverer<u8> = DeviceDiscoverer::new();
    let mut o = DiscoveryOptions::new();
    match d.discovery_providers(&o) {
        Err(DeviceError::Other(m)) => assert_eq!(m, "No discovery providers registered"),
        other => panic!("unexpected {:?}", other),
    }
    d.register_provider(vec!["mqtt".to_string()], 1);
    o.protocol_filter = Some("mod\"bus".to_string());
    match d.discovery_providers(&o) {
        Err(DeviceError::Other(m)) => {
            assert_eq!(m, format!("No discovery providers for protocol {:?}", Some("mod\"bus")))
        }
        other => panic!("unexpected {:?}", other),
    }
    o.protocol_filter = Some("mqtt".to_string());
    assert_eq!(d.discovery_providers(&o).unwrap().len(), 1);
    assert_eq!(DiscoveryOptions::default().protocol_options.len(), 0);
}

#[test]
fn enum_type_errors_list_the_variants() {
    let variants = vec!["low".to_string(), "hi\"gh".to_string()];
    let meta = PropertyMetadata {
        name: "level".to_string(),
        description: None,
        data_type: PropertyDataType::Enum(variants.clone()),
        access: PropertyAccess::ReadWrite,
        unit: None,
        min_value: None,
        max_value: None,
        precision: None,
        scale_factor: None,
        update_rate_ms: None,
        metadata: StrMap::new(),
    };
    assert!(validate_value(&meta, &Value::String("low".to_string())).is_ok());
    match validate_value(&meta, &Value::String("mid".to_string())) {
        Err(DeviceError::InvalidValueType(n, x, g)) => {
            assert_eq!(n, "level");
            assert_eq!(x, format!("enum with variants {:?}", variants));
            assert_eq!(g, "mid");
        }
        other => panic!("unexpected {:?}", other),
    }
    match validate_value(&meta, &Value::Integer(3)) {
        Err(DeviceError::InvalidValueType(_, x, g)) => {
            assert_eq!(x, format!("Enum({:?})", variants));
            assert_eq!(g, "Integer(3)");
        }
        other => panic!("unexpected {:?}", other),
    }
}

#[test]
fn thermostat_invalid_value_messages() {
    assert!(matches!(
        plan_write("fanOn", &Value::Integer(1)),
        Err(DeviceError::InvalidValue(m)) if m == "Invalid fan state value: Integer(1)"
    ));
    assert!(matches!(
        plan_write("mode", &Value::String("warm".to_string())),
        Err(DeviceError::InvalidValue(m)) if m == "Invalid thermostat mode: warm"
    ));
    assert!(matches!(
        ThermostatMode::from_value(&Value::Bool(true)),
        Err(DeviceError::InvalidValue(m)) if m == "Invalid thermostat mode: Bool(true)"
    ));
}

#[test]
fn values_render_as_debug_text_in_messages() {
    assert_eq!(value_debug(&Value::Null), "Null");
    assert_eq!(value_debug(&Value::Bool(false)), "Bool(false)");
    assert_eq!(value_debug(&Value::Integer(-42)), "Integer(-42)");
    assert_eq!(value_debug(&Value::String("a\"b".to_string())), "String(\"a\\\"b\")");
    assert_eq!(value_debug(&Value::Binary(vec![0, 7, 255])), "Binary([0, 7, 255])");
    assert_eq!(bytes_debug(&vec![]), "[]");
    let nested = Value::Array(vec![
        Value::Integer(1),
        Value::Array(vec![Value::String("x".to_string()), Value::Null]),
    ]);
    assert_eq!(value_debug(&nested), "Array([Integer(1), Array([String(\"x\"), Null])])");
    assert_eq!(value_debug(&Value::Array(vec![])), "Array([])");
}

#[test]
fn data_types_render_as_debug_text() {
    assert_eq!(data_type_debug(&PropertyDataType::Boolean), "Boolean");
    assert_eq!(
        data_type_debug(&PropertyDataType::Array(Box::new(PropertyDataType::Custom("t\n".to_string())))),
        "Array(Custom(\"t\\n\"))"
    );
    assert_eq!(
        data_type_debug(&PropertyDataType::Enum(vec!["on".to_string(), "off".to_string()])),
        "Enum([\"on\", \"off\"])"
    );
    let meta = PropertyMetadata {
        name: "flags".to_string(),
        description: None,
        data_type: PropertyDataType::Array(Box::new(PropertyDataType::Integer)),
        access: PropertyAccess::ReadWrite,
        unit: None,
        min_value: None,
        max_value: None,
        precision: None,
        scale_factor: None,
        update_rate_ms: None,
        metadata: StrMap::new(),
    };
    match validate_value_type(&meta, &Value::Bool(true)) {
        Err(DeviceError::InvalidValueType(n, x, g)) => {
            assert_eq!(n, "flags");
            assert_eq!(x, "Array(Integer)");
            assert_eq!(g, "Bool(true)");
        }
        other => panic!("unexpected {:?}", other),
    }
}

#[test]
fn registration_run_skips_failures_and_stops_after_the_first_when_asked() {
    let mut o = DiscoveryOptions::new();
    o.first_only = true;
    let mut run = RegistrationRun::new(&o);
    assert!(run.record(RegistrationOutcome::NoProvider));
    assert!(run.record(RegistrationOutcome::CreationFailed));
    assert!(run.record(RegistrationOutcome::RegistrationFailed));
    assert!(!run.record(RegistrationOutcome::Registered(Id::from_string("a"))));
    let ids = run.into_registered();
    assert_eq!(ids.len(), 1);
    assert_eq!(ids[0].as_str(), "a");

    let mut all = RegistrationRun::new(&DiscoveryOptions::new());
    assert!(all.record(RegistrationOutcome::Registered(Id::from_string("a"))));
    assert!(all.record(RegistrationOutcome::NoProvider));
    assert!(all.record(RegistrationOutcome::Registered(Id::from_string("b"))));
    let ids = all.into_registered();
    assert_eq!(ids.iter().map(|i| i.as_str()).collect::<Vec<_>>(), vec!["a", "b"]);
}
