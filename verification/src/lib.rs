//! Verified core of an automation framework: values, devices, workflows,
//! state machines, rules and scheduling decisions.
pub mod mechaflow_core;
pub mod mechaflow_devices;
pub mod mechaflow_engine;
pub mod str_map;
pub mod text;
