//! The MQTT protocol: clients by connection string, their connection state
//! and subscriptions, and the simulated device answers.
use vstd::prelude::*;

use crate::mechaflow_core::error::{join, owned};
use crate::mechaflow_core::types::{random_uuid_string, Value, ValueModel};
use crate::mechaflow_devices::device::{DeviceError, Result};
use crate::mechaflow_devices::protocol::util::{parse_connection_spec, parse_connection_string, text_map};
use crate::mechaflow_devices::protocol::ProtocolOptions;
use crate::str_map::{str_eq, StrMap};
use crate::text::chars_of;

verus! {

/// The value of a decimal digit character.
pub open spec fn digit_value(c: char) -> int {
    c as int - '0' as int
}

/// The characters are all decimal digits.
pub open spec fn all_digits(s: Seq<char>) -> bool {
    forall|i: int| 0 <= i < s.len() ==> '0' <= #[trigger] s[i] <= '9'
}

/// The number that a sequence of decimal digits denotes.
pub open spec fn digits_value(s: Seq<char>) -> nat
    decreases s.len(),
{
    if s.len() == 0 {
        0
    } else {
        (digits_value(s.drop_last()) * 10 + digit_value(s.last())) as nat
    }
}

/// What `str::parse::<u16>` accepts: an optional '+', then one or more
/// decimal digits denoting a number that fits in a `u16`.
pub open spec fn parse_u16_spec(s: Seq<char>) -> Option<u16> {
    let ds = if s.len() > 0 && s[0] == '+' {
        s.skip(1)
    } else {
        s
    };
    if ds.len() > 0 && all_digits(ds) && digits_value(ds) <= u16::MAX {
        Some(digits_value(ds) as u16)
    } else {
        None
    }
}

/// Parse a decimal `u16` with an optional '+' sign.
#[verifier::loop_isolation(false)]
pub fn parse_u16(s: &str) -> (r: Option<u16>)
    ensures
        r == parse_u16_spec(s@),
{
    let cs = chars_of(s);
    let start: usize = if cs.len() > 0 && cs[0] == '+' {
        1
    } else {
        0
    };
    let ghost ds = if s@.len() > 0 && s@[0] == '+' {
        s@.skip(1)
    } else {
        s@
    };
    proof {
        assert(ds =~= cs@.skip(start as int));
    }
    if start >= cs.len() {
        return None;
    }
    let mut value: u32 = 0;
    let mut i: usize = start;
    while i < cs.len()
        invariant
            start <= i <= cs@.len(),
            ds == cs@.skip(start as int),
            all_digits(cs@.subrange(start as int, i as int)),
            value == digits_value(cs@.subrange(start as int, i as int)),
            value <= u16::MAX,
        decreases cs@.len() - i,
    {
        let c = cs[i];
        if c < '0' || c > '9' {
            proof {
                assert(ds[i - start] == c);
                assert(!all_digits(ds));
            }
            return None;
        }
        let d: u32 = (c as u32) - ('0' as u32);
        let next: u32 = value * 10 + d;
        proof {
            let sub = cs@.subrange(start as int, i + 1);
            assert(sub.drop_last() =~= cs@.subrange(start as int, i as int));
            assert(sub.last() == c);
        }
        if next > 65535 {
            proof {
                if all_digits(ds) {
                    lemma_digits_grow(ds, (i + 1 - start) as int);
                    assert(ds.take((i + 1 - start) as int) =~= cs@.subrange(start as int, i + 1));
                }
            }
            return None;
        }
        value = next;
        i = i + 1;
    }
    proof {
        assert(cs@.subrange(start as int, cs@.len() as int) =~= ds);
    }
    Some(value as u16)
}

/// A number never shrinks when digits are appended.
proof fn lemma_digits_grow(s: Seq<char>, k: int)
    requires
        0 <= k <= s.len(),
    ensures
        all_digits(s) ==> digits_value(s.take(k)) <= digits_value(s),
    decreases s.len() - k,
{
    if k < s.len() && all_digits(s) {
        lemma_digits_grow(s, k + 1);
        assert(s.take(k + 1).drop_last() =~= s.take(k));
        assert('0' <= s[k] <= '9');
    } else if k == s.len() {
        assert(s.take(k) =~= s);
    }
}

/// The topic on which a property of a client's device is set:
/// "device/<client id>/properties/<property>/set".
fn property_topic(client_id: &str, property: &str) -> (r: String)
    ensures
        r@ == "device/"@ + client_id@ + "/properties/"@ + property@ + "/set"@,
{
    let a = join("device/", client_id);
    let b = join(a.as_str(), "/properties/");
    let c = join(b.as_str(), property);
    join(c.as_str(), "/set")
}

/// MQTT client state
#[derive(Debug)]
pub struct MqttClient {
    connection_string: String,
    client_id: String,
    host: String,
    port: u16,
    connected: bool,
    subscriptions: Vec<String>,
}

impl MqttClient {
    /// The connection string the client serves.
    pub closed spec fn connection_spec(self) -> Seq<char> {
        self.connection_string@
    }

    /// The client identifier.
    pub closed spec fn client_id_spec(self) -> Seq<char> {
        self.client_id@
    }

    /// The broker host.
    pub closed spec fn host_spec(self) -> Seq<char> {
        self.host@
    }

    /// The broker port.
    pub closed spec fn port_spec(self) -> u16 {
        self.port
    }

    /// Whether the client is connected.
    pub closed spec fn connected_spec(self) -> bool {
        self.connected
    }

    /// The topics subscribed to, in order.
    pub closed spec fn subscriptions_spec(self) -> Seq<Seq<char>> {
        self.subscriptions@.map_values(|t: String| t@)
    }

    /// Create a new, disconnected MQTT client
    pub fn new(connection_string: &str, client_id: String, host: String, port: u16) -> (c: Self)
        ensures
            c.connection_spec() == connection_string@,
            c.client_id_spec() == client_id@,
            c.host_spec() == host@,
            c.port_spec() == port,
            !c.connected_spec(),
            c.subscriptions_spec().len() == 0,
    {
        let c = MqttClient {
            connection_string: owned(connection_string),
            client_id,
            host,
            port,
            connected: false,
            subscriptions: Vec::new(),
        };
        assert(c.subscriptions_spec() =~= Seq::empty());
        c
    }

    /// Connect to the broker
    pub fn connect(&mut self, options: &ProtocolOptions) -> (r: Result<()>)
        ensures
            r is Ok,
            final(self).connected_spec(),
            final(self).connection_spec() == old(self).connection_spec(),
            final(self).client_id_spec() == old(self).client_id_spec(),
            final(self).subscriptions_spec() == old(self).subscriptions_spec(),
    {
        self.connected = true;
        Ok(())
    }

    /// Disconnect from the broker
    pub fn disconnect(&mut self) -> (r: Result<()>)
        ensures
            r is Ok,
            !final(self).connected_spec(),
            final(self).connection_spec() == old(self).connection_spec(),
            final(self).client_id_spec() == old(self).client_id_spec(),
            final(self).subscriptions_spec() == old(self).subscriptions_spec(),
    {
        self.connected = false;
        Ok(())
    }

    /// Subscribe to a topic; the client must be connected
    pub fn subscribe(&mut self, topic: &str, qos: u8) -> (r: Result<()>)
        ensures
            r is Ok <==> old(self).connected_spec(),
            r matches Err(e) ==> e is NotConnected,
            r is Ok ==> final(self).subscriptions_spec() == old(self).subscriptions_spec().push(
                topic@,
            ),
            r is Err ==> final(self).subscriptions_spec() == old(self).subscriptions_spec(),
            final(self).connected_spec() == old(self).connected_spec(),
            final(self).client_id_spec() == old(self).client_id_spec(),
    {
        if !self.connected {
            return Err(DeviceError::NotConnected);
        }
        self.subscriptions.push(owned(topic));
        assert(self.subscriptions_spec() =~= old(self).subscriptions_spec().push(topic@));
        Ok(())
    }

    /// Publish to a topic; the client must be connected
    pub fn publish(&self, topic: &str, payload: &[u8], qos: u8, retain: bool) -> (r: Result<()>)
        ensures
            r is Ok <==> self.connected_spec(),
            r matches Err(e) ==> e is NotConnected,
    {
        if !self.connected {
            return Err(DeviceError::NotConnected);
        }
        Ok(())
    }

    /// Copy of the client.
    pub fn duplicate(&self) -> (c: Self)
        ensures
            c.connection_spec() == self.connection_spec(),
            c.client_id_spec() == self.client_id_spec(),
            c.host_spec() == self.host_spec(),
            c.port_spec() == self.port_spec(),
            c.connected_spec() == self.connected_spec(),
            c.subscriptions_spec() == self.subscriptions_spec(),
    {
        let mut subs: Vec<String> = Vec::new();
        let mut i: usize = 0;
        while i < self.subscriptions.len()
            invariant
                i <= self.subscriptions@.len(),
                subs@.len() == i,
                forall|j: int| 0 <= j < i ==> (#[trigger] subs@[j])@ == self.subscriptions@[j]@,
            decreases self.subscriptions@.len() - i,
        {
            subs.push(self.subscriptions[i].clone());
            i = i + 1;
        }
        let c = MqttClient {
            connection_string: self.connection_string.clone(),
            client_id: self.client_id.clone(),
            host: self.host.clone(),
            port: self.port,
            connected: self.connected,
            subscriptions: subs,
        };
        assert(c.subscriptions_spec() =~= self.subscriptions_spec());
        c
    }
}


/// The simulated answer of a device to reading a property.
pub open spec fn mqtt_property_value(property: Seq<char>) -> Option<ValueModel> {
    if property == "temperature"@ {
        Some(ValueModel::Float(0x4036_8000_0000_0000u64))
    } else if property == "humidity"@ {
        Some(ValueModel::Integer(65))
    } else if property == "status"@ {
        Some(ValueModel::String("online"@))
    } else {
        None
    }
}

/// The simulated answer of a device to a command.
pub open spec fn mqtt_command_result(command: Seq<char>) -> Option<ValueModel> {
    if command == "restart"@ {
        Some(ValueModel::Bool(true))
    } else if command == "getStatus"@ {
        Some(ValueModel::String("running"@))
    } else {
        None
    }
}

/// The features of the protocol.
pub open spec fn mqtt_feature(feature: Seq<char>) -> bool {
    feature == "qos"@ || feature == "retain"@ || feature == "wildcards"@ || feature
        == "persistent_session"@
}

/// MQTT protocol
#[derive(Debug)]
pub struct MqttProtocol {
    default_host: String,
    default_port: u16,
    default_qos: u8,
    client_id_prefix: String,
    clients: StrMap<MqttClient>,
}

impl MqttProtocol {
    /// The clients by connection string.
    pub closed spec fn clients_spec(self) -> Map<Seq<char>, MqttClient> {
        self.clients@
    }

    /// The host used when a connection string names none.
    pub closed spec fn default_host_spec(self) -> Seq<char> {
        self.default_host@
    }

    /// The port used when a connection string names no valid one.
    pub closed spec fn default_port_spec(self) -> u16 {
        self.default_port
    }

    /// The prefix of generated client identifiers.
    pub closed spec fn prefix_spec(self) -> Seq<char> {
        self.client_id_prefix@
    }

    /// Create a new MQTT protocol instance: broker localhost:1883, client
    /// identifiers "mechaflow-" and a UUID
    pub fn new() -> (p: Self)
        ensures
            p.clients_spec() == Map::<Seq<char>, MqttClient>::empty(),
            p.default_host_spec() == "localhost"@,
            p.default_port_spec() == 1883,
            p.prefix_spec() == "mechaflow-"@,
    {
        MqttProtocol {
            default_host: owned("localhost"),
            default_port: 1883,
            default_qos: 1,
            client_id_prefix: owned("mechaflow-"),
            clients: StrMap::new(),
        }
    }

    /// The protocol name
    pub fn name(&self) -> (r: &'static str)
        ensures
            r@ == "mqtt"@,
    {
        "mqtt"
    }

    /// The protocol version
    pub fn version(&self) -> (r: &'static str)
        ensures
            r@ == "1.0.0"@,
    {
        "1.0.0"
    }

    /// Initialize the protocol
    pub fn initialize(&self, options: &ProtocolOptions) -> (r: Result<()>)
        ensures
            r is Ok,
    {
        Ok(())
    }

    /// The client parameters of a connection string: its client ID (a
    /// generated one when it names none), host and port. The protocol must
    /// be "mqtt"; a port that does not parse gives the default port.
    pub fn parse_connection_string(&self, connection_string: &str) -> (r: Result<(String, String, u16)>)
        ensures
            match parse_connection_spec(connection_string@) {
                Err(msg) => r matches Err(DeviceError::Other(e)) && e@ == msg,
                Ok((proto, params)) => if proto != "mqtt"@ {
                    r matches Err(DeviceError::UnsupportedProtocol(p)) && p@ == proto
                } else {
                    r matches Ok(v) && (if params.contains_key("host"@) {
                        v.1@ == params["host"@]
                    } else {
                        v.1@ == self.default_host_spec()
                    }) && v.2 == (if params.contains_key("port"@) && parse_u16_spec(
                        params["port"@],
                    ) is Some {
                        parse_u16_spec(params["port"@])->0
                    } else {
                        self.default_port_spec()
                    }) && (if params.contains_key("clientId"@) {
                        v.0@ == params["clientId"@]
                    } else {
                        v.0@.len() == self.prefix_spec().len() + 36 && v.0@.take(
                            self.prefix_spec().len() as int,
                        ) == self.prefix_spec()
                    })
                },
            },
    {
        proof {
            reveal_strlit("mqtt");
            reveal_strlit("host");
            reveal_strlit("port");
            reveal_strlit("clientId");
        }
        let (protocol, params) = match parse_connection_string(connection_string) {
            Ok(v) => v,
            Err(e) => {
                return Err(e);
            },
        };
        if !str_eq(protocol.as_str(), "mqtt") {
            return Err(DeviceError::UnsupportedProtocol(protocol));
        }
        let host = match params.get("host") {
            Some(h) => h.clone(),
            None => self.default_host.clone(),
        };
        let port = match params.get("port") {
            Some(p) => match parse_u16(p.as_str()) {
                Some(v) => v,
                None => self.default_port,
            },
            None => self.default_port,
        };
        let client_id = match params.get("clientId") {
            Some(c) => c.clone(),
            None => {
                let id = random_uuid_string();
                let r = join(self.client_id_prefix.as_str(), id.as_str());
                proof {
                    assert(r@.take(self.client_id_prefix@.len() as int) =~= self.client_id_prefix@);
                }
                r
            },
        };
        Ok((client_id, host, port))
    }

    /// The client of a connection string, created (disconnected) if there
    /// is none yet
    pub fn get_or_create_client(&mut self, connection_string: &str) -> (r: Result<MqttClient>)
        ensures
            old(self).clients_spec().contains_key(connection_string@) ==> (r matches Ok(c)
                && c.client_id_spec() == old(self).clients_spec()[connection_string@].client_id_spec()
                && c.connected_spec() == old(self).clients_spec()[connection_string@].connected_spec()
                && final(self).clients_spec() == old(self).clients_spec()),
            !old(self).clients_spec().contains_key(connection_string@) ==> match r {
                Ok(c) => !c.connected_spec() && c.connection_spec() == connection_string@
                    && final(self).clients_spec().dom() == old(self).clients_spec().dom().insert(
                    connection_string@,
                ) && !final(self).clients_spec()[connection_string@].connected_spec(),
                Err(_) => final(self).clients_spec() == old(self).clients_spec(),
            },
            final(self).default_host_spec() == old(self).default_host_spec(),
            final(self).default_port_spec() == old(self).default_port_spec(),
            final(self).prefix_spec() == old(self).prefix_spec(),
    {
        match self.clients.get(connection_string) {
            Some(c) => {
                return Ok(c.duplicate());
            },
            None => {},
        }
        let (client_id, host, port) = match self.parse_connection_string(connection_string) {
            Ok(v) => v,
            Err(e) => {
                return Err(e);
            },
        };
        let client = MqttClient::new(connection_string, client_id, host, port);
        let copy = client.duplicate();
        self.clients.insert(owned(connection_string), client);
        Ok(copy)
    }

    /// Connect the client of a connection string, creating it if needed
    pub fn connect(&mut self, connection_string: &str, options: &ProtocolOptions) -> (r: Result<()>)
        ensures
            old(self).clients_spec().contains_key(connection_string@) ==> r is Ok,
            !old(self).clients_spec().contains_key(connection_string@) ==> (r is Ok <==> (
            parse_connection_spec(connection_string@) matches Ok((p, _)) && p == "mqtt"@)),
            r is Ok ==> final(self).clients_spec().contains_key(connection_string@) && final(self).clients_spec()[connection_string@].connected_spec() && final(self).clients_spec().dom() == old(self).clients_spec().dom().insert(connection_string@),
            r is Err ==> final(self).clients_spec() == old(self).clients_spec(),
            forall|k: Seq<char>|
                k != connection_string@ && #[trigger] old(self).clients_spec().contains_key(k)
                    ==> final(self).clients_spec()[k] == old(self).clients_spec()[k],
    {
        proof {
            reveal_strlit("mqtt");
        }
        let mut client = match self.clients.remove(connection_string) {
            Some(c) => c,
            None => match self.parse_connection_string(connection_string) {
                Ok((client_id, host, port)) => MqttClient::new(
                    connection_string,
                    client_id,
                    host,
                    port,
                ),
                Err(e) => {
                    return Err(e);
                },
            },
        };
        let r = client.connect(options);
        self.clients.insert(owned(connection_string), client);
        proof {
            assert(self.clients@.dom() =~= old(self).clients@.dom().insert(connection_string@));
        }
        r
    }

    /// Disconnect the client of a connection string, if there is one
    pub fn disconnect(&mut self, connection_string: &str) -> (r: Result<()>)
        ensures
            r is Ok,
            final(self).clients_spec().dom() == old(self).clients_spec().dom(),
            old(self).clients_spec().contains_key(connection_string@) ==> !final(self).clients_spec()[connection_string@].connected_spec(),
            forall|k: Seq<char>|
                k != connection_string@ && #[trigger] old(self).clients_spec().contains_key(k)
                    ==> final(self).clients_spec()[k] == old(self).clients_spec()[k],
    {
        match self.clients.remove(connection_string) {
            Some(mut client) => {
                let r = client.disconnect();
                self.clients.insert(owned(connection_string), client);
                proof {
                    assert(self.clients@.dom() =~= old(self).clients@.dom());
                }
                r
            },
            None => {
                proof {
                    assert(self.clients@ =~= old(self).clients@);
                }
                Ok(())
            },
        }
    }

    /// Whether the client of a connection string exists and is connected.
    fn connected_client(&self, connection_string: &str) -> (r: Option<&MqttClient>)
        ensures
            match r {
                Some(c) => self.clients_spec().contains_key(connection_string@) && *c
                    == self.clients_spec()[connection_string@] && c.connected_spec(),
                None => !(self.clients_spec().contains_key(connection_string@) && self.clients_spec()[connection_string@].connected_spec()),
            },
    {
        match self.clients.get(connection_string) {
            Some(c) => {
                if c.connected {
                    Some(c)
                } else {
                    None
                }
            },
            None => None,
        }
    }

    /// Read a property of a connected device
    pub fn read_property(&self, connection_string: &str, property: &str, options: &ProtocolOptions) -> (r:
        Result<Value>)
        ensures
            !(self.clients_spec().contains_key(connection_string@) && self.clients_spec()[connection_string@].connected_spec())
                ==> (r matches Err(e) && e is NotConnected),
            self.clients_spec().contains_key(connection_string@) && self.clients_spec()[connection_string@].connected_spec()
                ==> match mqtt_property_value(property@) {
                Some(v) => r matches Ok(x) && x@ == v,
                None => r matches Err(DeviceError::UnsupportedProperty(p)) && p@ == property@,
            },
    {
        proof {
            reveal_strlit("temperature");
            reveal_strlit("humidity");
            reveal_strlit("status");
            reveal_strlit("online");
        }
        match self.connected_client(connection_string) {
            Some(_) => {},
            None => {
                return Err(DeviceError::NotConnected);
            },
        }
        if str_eq(property, "temperature") {
            let v = Value::Float(0x4036_8000_0000_0000u64);
            proof {
                crate::mechaflow_core::types::lemma_model_kinds(v);
            }
            Ok(v)
        } else if str_eq(property, "humidity") {
            let v = Value::Integer(65);
            proof {
                crate::mechaflow_core::types::lemma_model_kinds(v);
            }
            Ok(v)
        } else if str_eq(property, "status") {
            let v = Value::String(owned("online"));
            proof {
                crate::mechaflow_core::types::lemma_model_kinds(v);
            }
            Ok(v)
        } else {
            Err(DeviceError::UnsupportedProperty(owned(property)))
        }
    }

    /// Write a property of a connected device
    pub fn write_property(
        &self,
        connection_string: &str,
        property: &str,
        value: Value,
        options: &ProtocolOptions,
    ) -> (r: Result<()>)
        ensures
            r is Ok <==> self.clients_spec().contains_key(connection_string@)
                && self.clients_spec()[connection_string@].connected_spec(),
            r matches Err(e) ==> e is NotConnected,
    {
        match self.connected_client(connection_string) {
            Some(client) => {
                let topic = property_topic(client.client_id.as_str(), property);
                client.publish(topic.as_str(), &[], 1, false)
            },
            None => Err(DeviceError::NotConnected),
        }
    }

    /// Execute a command on a connected device
    pub fn execute_command(
        &self,
        connection_string: &str,
        command: &str,
        parameters: StrMap<Value>,
        options: &ProtocolOptions,
    ) -> (r: Result<Value>)
        ensures
            !(self.clients_spec().contains_key(connection_string@) && self.clients_spec()[connection_string@].connected_spec())
                ==> (r matches Err(e) && e is NotConnected),
            self.clients_spec().contains_key(connection_string@) && self.clients_spec()[connection_string@].connected_spec()
                ==> match mqtt_command_result(command@) {
                Some(v) => r matches Ok(x) && x@ == v,
                None => r matches Err(DeviceError::UnsupportedCommand(c)) && c@ == command@,
            },
    {
        proof {
            reveal_strlit("restart");
            reveal_strlit("getStatus");
            reveal_strlit("running");
        }
        match self.connected_client(connection_string) {
            Some(_) => {},
            None => {
                return Err(DeviceError::NotConnected);
            },
        }
        if str_eq(command, "restart") {
            let v = Value::Bool(true);
            proof {
                crate::mechaflow_core::types::lemma_model_kinds(v);
            }
            Ok(v)
        } else if str_eq(command, "getStatus") {
            let v = Value::String(owned("running"));
            proof {
                crate::mechaflow_core::types::lemma_model_kinds(v);
            }
            Ok(v)
        } else {
            Err(DeviceError::UnsupportedCommand(owned(command)))
        }
    }

    /// Whether the protocol supports a feature
    pub fn supports_feature(&self, feature: &str) -> (r: bool)
        ensures
            r == mqtt_feature(feature@),
    {
        proof {
            reveal_strlit("qos");
            reveal_strlit("retain");
            reveal_strlit("wildcards");
            reveal_strlit("persistent_session");
        }
        str_eq(feature, "qos") || str_eq(feature, "retain") || str_eq(feature, "wildcards")
            || str_eq(feature, "persistent_session")
    }

    /// The supported features
    pub fn supported_features(&self) -> (r: Vec<&'static str>)
        ensures
            r@.len() == 4,
            r@[0]@ == "qos"@,
            r@[1]@ == "retain"@,
            r@[2]@ == "wildcards"@,
            r@[3]@ == "persistent_session"@,
    {
        let mut v: Vec<&'static str> = Vec::new();
        v.push("qos");
        v.push("retain");
        v.push("wildcards");
        v.push("persistent_session");
        v
    }
}

/// MQTT protocol provider
#[derive(Debug)]
pub struct MqttProtocolProvider;

impl MqttProtocolProvider {
    /// Create a new MQTT protocol provider
    pub fn new() -> (p: Self) {
        MqttProtocolProvider
    }

    /// The provider name
    pub fn name(&self) -> (r: &'static str)
        ensures
            r@ == "mqtt_provider"@,
    {
        "mqtt_provider"
    }

    /// The protocols the provider supports
    pub fn supported_protocols(&self) -> (r: Vec<&'static str>)
        ensures
            r@.len() == 1,
            r@[0]@ == "mqtt"@,
    {
        let mut v: Vec<&'static str> = Vec::new();
        v.push("mqtt");
        v
    }

    /// Whether the provider supports a protocol
    pub fn supports_protocol(&self, protocol: &str) -> (r: bool)
        ensures
            r == (protocol@ == "mqtt"@),
    {
        str_eq(protocol, "mqtt")
    }

    /// Create the protocol of a name
    pub fn create_protocol(&self, protocol: &str) -> (r: Result<MqttProtocol>)
        ensures
            r is Ok <==> protocol@ == "mqtt"@,
            r matches Ok(p) ==> p.clients_spec() == Map::<Seq<char>, MqttClient>::empty(),
            r matches Err(e) ==> (e matches DeviceError::UnsupportedProtocol(m) && m@ == protocol@),
    {
        if str_eq(protocol, "mqtt") {
            Ok(MqttProtocol::new())
        } else {
            Err(DeviceError::UnsupportedProtocol(owned(protocol)))
        }
    }
}

impl Default for MqttProtocolProvider {
    fn default() -> (p: Self) {
        MqttProtocolProvider
    }
}

} // verus!
