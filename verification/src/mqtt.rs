//! MQTT messages and the decisions around the broker connection: its
//! settings, the topics it uses and what an incoming event asks for.
use vstd::prelude::*;
use vstd::string::*;

use vstd::utf8::{decode_utf8, valid_utf8};

use crate::text::{chars_of, join2, join4};

use core::cmp::Ordering;
use vstd::std_specs::cmp::PartialOrdSpecImpl;

verus! {

/// Connection parameters of the MQTT broker.
pub struct MqttConfig {
    pub server: String,
    pub port: u16,
    pub client_id: String,
    pub user: String,
    pub password: String,
    pub base_topic: String,
}

impl Clone for MqttConfig {
    fn clone(&self) -> (r: Self)
        ensures
            r@ == self@,
    {
        MqttConfig {
            server: self.server.clone(),
            port: self.port,
            client_id: self.client_id.clone(),
            user: self.user.clone(),
            password: self.password.clone(),
            base_topic: self.base_topic.clone(),
        }
    }
}

/// The plain content of an `MqttConfig`.
pub struct MqttConfigView {
    pub server: Seq<char>,
    pub port: u16,
    pub client_id: Seq<char>,
    pub user: Seq<char>,
    pub password: Seq<char>,
    pub base_topic: Seq<char>,
}

impl View for MqttConfig {
    type V = MqttConfigView;

    open spec fn view(&self) -> MqttConfigView {
        MqttConfigView {
            server: self.server@,
            port: self.port,
            client_id: self.client_id@,
            user: self.user@,
            password: self.password@,
            base_topic: self.base_topic@,
        }
    }
}

/// One message: a topic and its payload.
#[derive(Debug, PartialEq, Eq)]
pub struct MqttData {
    pub topic: String,
    pub payload: String,
}

/// The plain content of an `MqttData`.
pub struct MqttDataView {
    pub topic: Seq<char>,
    pub payload: Seq<char>,
}

impl View for MqttData {
    type V = MqttDataView;

    open spec fn view(&self) -> MqttDataView {
        MqttDataView { topic: self.topic@, payload: self.payload@ }
    }
}

/// The plain contents of a list of messages.
pub open spec fn messages_view(v: Seq<MqttData>) -> Seq<MqttDataView> {
    v.map_values(|d: MqttData| d@)
}

impl MqttData {
    pub fn new(topic: &str, payload: &str) -> (r: MqttData)
        ensures
            r.topic@ == topic@,
            r.payload@ == payload@,
    {
        MqttData { topic: topic.to_string(), payload: payload.to_string() }
    }
}

/// The order of two texts: -1, 0 or 1 as `a` comes before, equals or comes
/// after `b`, comparing code points from the left and a proper prefix first.
/// Code points order texts as their UTF-8 bytes do, which `String` compares.
pub open spec fn text_order_sign(a: Seq<char>, b: Seq<char>) -> int
    decreases a.len(),
{
    if a.len() == 0 {
        if b.len() == 0 {
            0
        } else {
            -1
        }
    } else if b.len() == 0 {
        1
    } else if (a[0] as int) < (b[0] as int) {
        -1
    } else if (a[0] as int) > (b[0] as int) {
        1
    } else {
        text_order_sign(a.drop_first(), b.drop_first())
    }
}

/// The `Ordering` that a sign of `text_order_sign` stands for.
pub open spec fn ordering_of_sign(sign: int) -> Ordering {
    if sign < 0 {
        Ordering::Less
    } else if sign == 0 {
        Ordering::Equal
    } else {
        Ordering::Greater
    }
}

/// The code point of `c`.
fn code_point(c: char) -> (r: u32)
    ensures
        r == c as int,
{
    c as u32
}

/// Compares two texts as `text_order_sign` does.
fn text_order(a: &str, b: &str) -> (r: i8)
    ensures
        r == text_order_sign(a@, b@),
{
    let av = chars_of(a);
    let bv = chars_of(b);
    let mut i: usize = 0;
    proof {
        assert(a@.skip(0) =~= a@);
        assert(b@.skip(0) =~= b@);
    }
    while i < av.len() && i < bv.len()
        invariant
            av@ == a@,
            bv@ == b@,
            i <= av.len(),
            i <= bv.len(),
            text_order_sign(a@.skip(i as int), b@.skip(i as int)) == text_order_sign(a@, b@),
        decreases av.len() - i,
    {
        let x = code_point(av[i]);
        let y = code_point(bv[i]);
        proof {
            assert(a@.skip(i as int)[0] == a@[i as int]);
            assert(b@.skip(i as int)[0] == b@[i as int]);
        }
        if x < y {
            return -1;
        }
        if x > y {
            return 1;
        }
        proof {
            assert(a@.skip(i as int).drop_first() =~= a@.skip(i + 1));
            assert(b@.skip(i as int).drop_first() =~= b@.skip(i + 1));
        }
        i = i + 1;
    }
    if i < av.len() {
        1
    } else if i < bv.len() {
        -1
    } else {
        0
    }
}

/// Messages are ordered by their topics alone.
impl PartialOrd for MqttData {
    fn partial_cmp(&self, other: &Self) -> (r: Option<Ordering>) {
        let sign = text_order(self.topic.as_str(), other.topic.as_str());
        if sign < 0 {
            Some(Ordering::Less)
        } else if sign == 0 {
            Some(Ordering::Equal)
        } else {
            Some(Ordering::Greater)
        }
    }
}

impl PartialOrdSpecImpl for MqttData {
    open spec fn obeys_partial_cmp_spec() -> bool {
        true
    }

    open spec fn partial_cmp_spec(&self, other: &Self) -> Option<Ordering> {
        Some(ordering_of_sign(text_order_sign(self.topic@, other.topic@)))
    }
}

/// The payload of the state topic while the bridge is offline.
pub open spec fn offline_payload() -> Seq<char> {
    "offline"@
}

/// The payload of the state topic while the bridge is online.
pub open spec fn online_payload() -> Seq<char> {
    "online"@
}

/// The state topic under `base_topic`.
pub open spec fn state_topic_of(base_topic: Seq<char>) -> Seq<char> {
    base_topic + "/state"@
}

/// The topic filter of the commands for the bike `bike_id` under
/// `base_topic`: `{base_topic}/stromer_{bike_id}/cmnd/{action}`, any action.
pub open spec fn command_filter_of(base_topic: Seq<char>, bike_id: Seq<char>) -> Seq<char> {
    base_topic + "/stromer_"@ + bike_id + "/cmnd/+"@
}

pub fn state_topic(base_topic: &String) -> (r: String)
    ensures
        r@ == state_topic_of(base_topic@),
{
    join2(base_topic.as_str(), "/state")
}

pub fn command_subscription_topic(base_topic: &String, bike_id: &str) -> (r: String)
    ensures
        r@ == command_filter_of(base_topic@, bike_id@),
{
    join4(base_topic.as_str(), "/stromer_", bike_id, "/cmnd/+")
}

/// The quality of service of an MQTT message.
#[derive(Debug, Clone, Copy, PartialEq, Eq, Structural)]
pub enum Qos {
    AtMostOnce,
    AtLeastOnce,
    ExactlyOnce,
}

/// A message for the broker: its topic, payload, quality of service and
/// whether the broker retains it for later subscribers.
pub struct BrokerMessage {
    pub topic: String,
    pub payload: String,
    pub qos: Qos,
    pub retain: bool,
}

/// The plain content of a `BrokerMessage`.
pub struct BrokerMessageView {
    pub topic: Seq<char>,
    pub payload: Seq<char>,
    pub qos: Qos,
    pub retain: bool,
}

impl View for BrokerMessage {
    type V = BrokerMessageView;

    open spec fn view(&self) -> BrokerMessageView {
        BrokerMessageView {
            topic: self.topic@,
            payload: self.payload@,
            qos: self.qos,
            retain: self.retain,
        }
    }
}

/// The availability message under `base_topic`: on the state topic, with
/// the payload `online` or `offline`, at least once, retained.
pub open spec fn availability_of(base_topic: Seq<char>, online: bool) -> BrokerMessageView {
    BrokerMessageView {
        topic: state_topic_of(base_topic),
        payload: if online {
            online_payload()
        } else {
            offline_payload()
        },
        qos: Qos::AtLeastOnce,
        retain: true,
    }
}

/// How the connection to the broker is set up.
pub struct ConnectionSettings {
    pub client_id: String,
    pub server: String,
    pub port: u16,
    pub clean_start: bool,
    pub keep_alive_secs: u64,
    /// The message the broker publishes when the connection is lost.
    pub last_will: BrokerMessage,
    /// User and password, when a user is configured.
    pub credentials: Option<(String, String)>,
    /// How many requests may wait for the event loop.
    pub request_capacity: usize,
}

/// The settings of the connection for `cfg`: a clean session kept alive
/// every 180 s, as last will the same message as the offline availability
/// message (retained), credentials only
/// with a user, room for 1000 waiting requests.
pub fn connection_settings(cfg: MqttConfig) -> (r: ConnectionSettings)
    ensures
        r.client_id@ == cfg.client_id@,
        r.server@ == cfg.server@,
        r.port == cfg.port,
        r.clean_start,
        r.keep_alive_secs == 180,
        r.last_will@ == availability_of(cfg.base_topic@, false),
        cfg.user@.len() == 0 ==> r.credentials is None,
        cfg.user@.len() != 0 ==> (r.credentials matches Some((u, p)) && u@ == cfg.user@ && p@
            == cfg.password@),
        r.request_capacity == 1000,
{
    let last_will = BrokerMessage {
        topic: state_topic(&cfg.base_topic),
        payload: "offline".to_string(),
        qos: Qos::AtLeastOnce,
        retain: true,
    };
    let credentials = if !cfg.user.as_str().is_empty() {
        Some((cfg.user, cfg.password))
    } else {
        None
    };
    ConnectionSettings {
        client_id: cfg.client_id,
        server: cfg.server,
        port: cfg.port,
        clean_start: true,
        keep_alive_secs: 180,
        last_will,
        credentials,
        request_capacity: 1000,
    }
}

/// The retained message that marks the bridge online (`online` true) or
/// offline under `base_topic`: the last will's topic, quality of service and
/// retain flag, with the payload `online` or `offline`.
pub fn availability_message(base_topic: &String, online: bool) -> (r: BrokerMessage)
    ensures
        r@ == availability_of(base_topic@, online),
{
    BrokerMessage {
        topic: state_topic(base_topic),
        payload: if online {
            "online".to_string()
        } else {
            "offline".to_string()
        },
        qos: Qos::AtLeastOnce,
        retain: true,
    }
}

/// An event of the MQTT event loop, as far as the bridge reads it.
pub enum MqttEvent {
    /// The broker answered the connect.
    ConnAck { success: bool, session_present: bool },
    /// A message came in.
    Publish { topic: Vec<u8>, payload: Vec<u8> },
    /// Any other incoming packet.
    OtherIncoming,
    /// A packet went out.
    Outgoing,
}

/// What the bridge does about an event.
pub enum EventOutcome {
    /// Subscribe to the commands: a new session started.
    Subscribe,
    /// Nothing: the broker kept the session and its subscriptions.
    SessionResumed,
    /// Nothing but report it: the broker refused the connection.
    ConnectionRefused,
    /// Handle this command message.
    Message(MqttData),
    /// Nothing.
    Nothing,
}

/// Why an event could not be read.
pub enum MqttError {
    /// A topic or payload is no valid UTF-8.
    InvalidUtf8,
}

/// `String::from_utf8`: the text of `bytes` when they are valid UTF-8.
#[verifier::external_body]
fn string_from_utf8(bytes: Vec<u8>) -> (r: Option<String>)
    ensures
        r is Some <==> valid_utf8(bytes@),
        r matches Some(s) ==> s@ == decode_utf8(bytes@),
{
    String::from_utf8(bytes).ok()
}

/// Text of MQTT bytes, which must be valid UTF-8.
pub fn from_mqtt_string(bytes: Vec<u8>) -> (r: Result<String, MqttError>)
    ensures
        valid_utf8(bytes@) ==> (r matches Ok(s) && s@ == decode_utf8(bytes@)),
        !valid_utf8(bytes@) ==> r matches Err(MqttError::InvalidUtf8),
{
    match string_from_utf8(bytes) {
        Some(s) => Ok(s),
        None => Err(MqttError::InvalidUtf8),
    }
}

/// What an event asks for: a successful connect without a kept session asks
/// for the subscription, an incoming message is a command to handle.
pub fn handle_mqtt_event(ev: MqttEvent) -> (r: Result<EventOutcome, MqttError>)
    ensures
        match ev {
            MqttEvent::ConnAck { success, session_present } => if !success {
                r matches Ok(EventOutcome::ConnectionRefused)
            } else if session_present {
                r matches Ok(EventOutcome::SessionResumed)
            } else {
                r matches Ok(EventOutcome::Subscribe)
            },
            MqttEvent::Publish { topic, payload } => if valid_utf8(topic@) && valid_utf8(
                payload@,
            ) {
                r is Ok && r->Ok_0 is Message && r->Ok_0->Message_0@ == (MqttDataView {
                    topic: decode_utf8(topic@),
                    payload: decode_utf8(payload@),
                })
            } else {
                r matches Err(MqttError::InvalidUtf8)
            },
            _ => r matches Ok(EventOutcome::Nothing),
        },
{
    match ev {
        MqttEvent::ConnAck { success, session_present } => if !success {
            Ok(EventOutcome::ConnectionRefused)
        } else if session_present {
            Ok(EventOutcome::SessionResumed)
        } else {
            Ok(EventOutcome::Subscribe)
        },
        MqttEvent::Publish { topic, payload } => {
            let topic = from_mqtt_string(topic)?;
            let payload = from_mqtt_string(payload)?;
            Ok(EventOutcome::Message(MqttData { topic, payload }))
        },
        _ => Ok(EventOutcome::Nothing),
    }
}

} // verus!
