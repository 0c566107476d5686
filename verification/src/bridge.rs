//! The decisions of the bridge between the Stromer API and MQTT: which bike
//! it serves, what it publishes after each poll and which commands it takes.
use vstd::prelude::*;
use vstd::string::*;

use crate::bike::{
    apply_values, lemma_pending_messages_contain, pending_messages, position_values, sensor_topic,
    status_values, BikeView, SensorValue, StromerBike, POSITION_START, SENSOR_COUNT, STATUS_START,
};
use crate::changes::{FieldState, Reading};
use crate::hassdiscovery::{
    command_topic_of, create_discovery_messages, discovery_messages, discovery_view, switch_defs,
    DiscoveryMessage, SWITCH_DEF_COUNT,
};
use crate::mqtt::{
    availability_message, availability_of, command_filter_of, messages_view, BrokerMessage,
    MqttConfig, MqttData, MqttDataView,
};
use crate::stromerapi::{
    bike_id_text, clone_reading, BikeDetectInfo, BikePosition, BikeStatus, MaintenanceInfo,
};
use crate::text::{
    chars_equal, chars_of, has_char, has_prefix, join2, join4, lemma_split_first_piece,
    lemma_split_without_separator, split_chars, split_on, starts_with, string_of,
};

verus! {

/// What the bridge is started with.
pub struct StromerMqttBridgeConfig {
    pub username: String,
    pub password: String,
    pub client_id: String,
    pub client_secret: Option<String>,
    pub bike_id: Option<String>,
    pub mqtt_config: MqttConfig,
    pub hass_discovery: bool,
    pub poll_interval: std::time::Duration,
}

/// The bike that the bridge serves.
pub struct BikeSelection {
    pub bike_id: String,
    pub bike_name: String,
    pub bike_model: String,
    pub maintenance: Option<MaintenanceInfo>,
}

/// Why the bridge refused something.
pub enum BridgeError {
    /// The account has no bike.
    NoBikesDetected,
    /// A command came on a topic outside the base topic.
    UnexpectedCommandPath(String),
    /// A command topic is not `stromer_{id}/cmnd/{action}` under the base
    /// topic, with `id` the bike that the bridge serves.
    InvalidCommandTopic(String),
    /// The payload of a lock command is neither ON nor OFF.
    InvalidLockPayload(String),
    /// The payload of a light command is neither ON nor OFF.
    InvalidLightPayload(String),
    /// The action of a command is neither lock nor light.
    UnknownCommandAction(String),
}

/// A command for the bike.
pub enum BikeCommand {
    /// Lock (true) or unlock the bike.
    Lock(bool),
    /// Set the light to this mode: `on` or `off`.
    Light(String),
}

/// The bike configured by its id: its name and model are not known.
pub fn configured_bike(bike_id: String) -> (r: BikeSelection)
    ensures
        r.bike_id@ == bike_id@,
        r.bike_name@.len() == 0,
        r.bike_model@.len() == 0,
        r.maintenance is None,
{
    BikeSelection {
        bike_id,
        bike_name: String::new(),
        bike_model: String::new(),
        maintenance: None,
    }
}

/// The first bike of the account, with its nickname, its model (or its type
/// when the model is unknown) and its maintenance data.
pub fn detected_bike(bikes: Vec<BikeDetectInfo>) -> (r: Result<BikeSelection, BridgeError>)
    ensures
        bikes@.len() == 0 ==> r matches Err(BridgeError::NoBikesDetected),
        bikes@.len() > 0 ==> r is Ok && ({
            let first = bikes@[0];
            let sel = r->Ok_0;
            &&& sel.bike_id@ == bike_id_text(first.bike_id)
            &&& sel.bike_name@ == first.nickname@
            &&& sel.bike_model@ == match first.bike_model {
                Some(m) => m@,
                None => first.bike_type@,
            }
            &&& sel.maintenance == first.maintenance_feature
        }),
{
    if bikes.len() == 0 {
        return Err(BridgeError::NoBikesDetected);
    }
    let first = &bikes[0];
    let bike_id = first.bike_id_string();
    let bike_model = match &first.bike_model {
        Some(m) => m.clone(),
        None => first.bike_type.clone(),
    };
    let maintenance = match &first.maintenance_feature {
        Some(m) => Some(m.clone()),
        None => None,
    };
    Ok(BikeSelection { bike_id, bike_name: first.nickname.clone(), bike_model, maintenance })
}

/// Where the position of the bike is published, and the values published.
pub struct PositionReport {
    pub topic: String,
    pub latitude: Reading,
    pub longitude: Reading,
    pub altitude: Option<Reading>,
}

/// What to publish after a successful poll, in this order: the discovery
/// messages (on the first poll only), the position and the changed sensors.
pub struct PollPlan {
    pub discovery: Option<Vec<DiscoveryMessage>>,
    pub position: Option<PositionReport>,
    pub updates: Vec<MqttData>,
}

/// The plain content of a `BridgeState`.
pub struct BridgeView {
    pub bike: Option<BikeView>,
    pub bike_id: Seq<char>,
    pub bike_name: Seq<char>,
    pub bike_model: Seq<char>,
    pub maintenance: Option<MaintenanceInfo>,
    pub base_topic: Seq<char>,
    pub hass_discovery: bool,
    pub discovery_published: bool,
}

/// The messages `msgs` with `base` put before each topic.
pub open spec fn under_base(base: Seq<char>, msgs: Seq<MqttDataView>) -> Seq<MqttDataView> {
    msgs.map_values(|m: MqttDataView| MqttDataView { topic: base + m.topic, payload: m.payload })
}

/// The sensors of a bike created for the selection with maintenance data `m`.
pub open spec fn initial_sensors(m: Option<MaintenanceInfo>) -> Seq<FieldState<SensorValue>> {
    match m {
        Some(info) => apply_values(
            StromerBike::fresh_sensors(),
            crate::bike::MAINTENANCE_START as int,
            crate::bike::maintenance_values(info),
        ),
        None => StromerBike::fresh_sensors(),
    }
}

/// The sensors after a poll brought `status` and `position`.
pub open spec fn polled_sensors(
    before: Seq<FieldState<SensorValue>>,
    status: BikeStatus,
    position: BikePosition,
) -> Seq<FieldState<SensorValue>> {
    apply_values(
        apply_values(before, STATUS_START as int, status_values(status)),
        POSITION_START as int,
        position_values(position),
    )
}

/// The sensors that a poll starts from: those of the bike, or those of a
/// new bike on the first poll.
pub open spec fn sensors_before_poll(before: BridgeView) -> Seq<FieldState<SensorValue>> {
    match before.bike {
        Some(b) => b.sensors,
        None => initial_sensors(before.maintenance),
    }
}

/// The sensor messages that a poll from `before` publishes, under the base
/// topic: those of the sensors that changed and hold a value.
pub open spec fn poll_updates(
    before: BridgeView,
    status: BikeStatus,
    position: BikePosition,
) -> Seq<MqttDataView> {
    under_base(
        before.base_topic,
        pending_messages(
            before.bike_id,
            polled_sensors(sensors_before_poll(before), status, position),
            SENSOR_COUNT as int,
        ),
    )
}

/// Whether a poll from `before` announces discovery: on the first poll, with
/// discovery on and not announced yet.
pub open spec fn announces_discovery(before: BridgeView) -> bool {
    before.bike is None && before.hass_discovery && !before.discovery_published
}

/// The state after a poll from `before` brought `status` and `position`: the
/// bike exists, its sensors took the values and were read out.
pub open spec fn view_after_poll(
    before: BridgeView,
    status: BikeStatus,
    position: BikePosition,
) -> BridgeView {
    BridgeView {
        bike: Some(
            BikeView {
                id: before.bike_id,
                name: before.bike_name,
                model: before.bike_model,
                sensors: polled_sensors(sensors_before_poll(before), status, position).map_values(
                    |f: FieldState<SensorValue>| f.after_read(),
                ),
            },
        ),
        ..before
    }
}

/// The state after publishing the discovery messages ended, successfully
/// (`ok`) or not: they count as published once publishing succeeded.
pub open spec fn view_after_discovery_publish(before: BridgeView, ok: bool) -> BridgeView {
    BridgeView { discovery_published: before.discovery_published || ok, ..before }
}

/// The state after a failed poll: every sensor of the bike, if there is one,
/// holds no value and counts as modified.
pub open spec fn view_after_reset(before: BridgeView) -> BridgeView {
    match before.bike {
        Some(b) => BridgeView {
            bike: Some(
                BikeView {
                    sensors: Seq::new(
                        SENSOR_COUNT as nat,
                        |i: int| FieldState::<SensorValue>::cleared(),
                    ),
                    ..b
                },
            ),
            ..before
        },
        None => before,
    }
}

/// The state of the bridge between polls.
pub struct BridgeState {
    bike: Option<StromerBike>,
    bike_id: String,
    bike_name: String,
    bike_model: String,
    maintenance: Option<MaintenanceInfo>,
    mqtt_base_topic: String,
    hass_discovery: bool,
    discovery_published: bool,
}

impl View for BridgeState {
    type V = BridgeView;

    closed spec fn view(&self) -> BridgeView {
        BridgeView {
            bike: match self.bike {
                Some(b) => Some(b@),
                None => None,
            },
            bike_id: self.bike_id@,
            bike_name: self.bike_name@,
            bike_model: self.bike_model@,
            maintenance: self.maintenance,
            base_topic: self.mqtt_base_topic@,
            hass_discovery: self.hass_discovery,
            discovery_published: self.discovery_published,
        }
    }
}

impl BridgeState {
    #[verifier::type_invariant]
    spec fn serves_selected_bike(&self) -> bool {
        self.bike matches Some(b) ==> {
            &&& b@.id == self.bike_id@
            &&& b@.name == self.bike_name@
            &&& b@.model == self.bike_model@
        }
    }

    /// The state before the first poll; the topics of the bike go under
    /// `base_topic` followed by a slash.
    pub fn new(selection: BikeSelection, base_topic: &str, hass_discovery: bool) -> (r: Self)
        ensures
            r@.bike is None,
            r@.bike_id == selection.bike_id@,
            r@.bike_name == selection.bike_name@,
            r@.bike_model == selection.bike_model@,
            r@.maintenance == selection.maintenance,
            r@.base_topic == base_topic@ + "/"@,
            r@.hass_discovery == hass_discovery,
            !r@.discovery_published,
    {
        BridgeState {
            bike: None,
            bike_id: selection.bike_id,
            bike_name: selection.bike_name,
            bike_model: selection.bike_model,
            maintenance: selection.maintenance,
            mqtt_base_topic: join2(base_topic, "/"),
            hass_discovery,
            discovery_published: false,
        }
    }

    pub fn bike_id(&self) -> (r: &str)
        ensures
            r@ == self@.bike_id,
    {
        self.bike_id.as_str()
    }

    pub fn base_topic(&self) -> (r: &str)
        ensures
            r@ == self@.base_topic,
    {
        self.mqtt_base_topic.as_str()
    }

    /// Takes the status and position of a successful poll and says what to
    /// publish. The bike is created on the first poll.
    pub fn after_update(&mut self, status: BikeStatus, position: BikePosition) -> (r: PollPlan)
        ensures
            final(self)@ == view_after_poll(old(self)@, status, position),
            announces_discovery(old(self)@) ==> (r.discovery is Some && discovery_view(
                r.discovery->0@,
            ) == discovery_messages(
                old(self)@.bike_id,
                old(self)@.bike_name,
                old(self)@.bike_model,
                old(self)@.base_topic,
            )),
            !announces_discovery(old(self)@) ==> r.discovery is None,
            (position.latitude is Some && position.longitude is Some) ==> (r.position is Some
                && r.position->0.topic@ == old(self)@.base_topic + "stromer_"@ + old(self)@.bike_id
                + "/position"@ && Some(r.position->0.latitude) == position.latitude && Some(
                r.position->0.longitude,
            ) == position.longitude && r.position->0.altitude == position.altitude),
            !(position.latitude is Some && position.longitude is Some) ==> r.position is None,
            messages_view(r.updates@) == poll_updates(old(self)@, status, position),
    {
        proof {
            use_type_invariant(&*self);
        }
        let first_poll = self.bike.is_none();
        let mut slot: Option<StromerBike> = None;
        std::mem::swap(&mut slot, &mut self.bike);
        let mut bike = match slot {
            Some(b) => b,
            None => {
                let maintenance = match &self.maintenance {
                    Some(m) => Some(m.clone()),
                    None => None,
                };
                StromerBike::new(
                    self.bike_id.clone(),
                    self.bike_name.clone(),
                    self.bike_model.clone(),
                    maintenance,
                )
            },
        };
        let latitude = clone_reading(&position.latitude);
        let longitude = clone_reading(&position.longitude);
        let altitude = clone_reading(&position.altitude);
        bike.update_status(status);
        bike.update_position(position);
        let discovery = if first_poll && self.hass_discovery && !self.discovery_published {
            Some(create_discovery_messages(&bike, self.mqtt_base_topic.as_str()))
        } else {
            None
        };
        let position_report = match (latitude, longitude) {
            (Some(lat), Some(lng)) => Some(
                PositionReport {
                    topic: join4(
                        self.mqtt_base_topic.as_str(),
                        "stromer_",
                        bike.bike_id(),
                        "/position",
                    ),
                    latitude: lat,
                    longitude: lng,
                    altitude,
                },
            ),
            _ => None,
        };
        let ghost mid = bike@.sensors;
        let topics = bike.topics_that_need_updating();
        let updates = self.put_under_base(topics);
        self.bike = Some(bike);
        PollPlan { discovery, position: position_report, updates }
    }

    /// The messages with the base topic put before each topic.
    fn put_under_base(&self, topics: Vec<MqttData>) -> (r: Vec<MqttData>)
        ensures
            messages_view(r@) == under_base(self@.base_topic, messages_view(topics@)),
    {
        let mut out: Vec<MqttData> = Vec::new();
        let mut i: usize = 0;
        while i < topics.len()
            invariant
                i <= topics.len(),
                messages_view(out@) == under_base(
                    self@.base_topic,
                    messages_view(topics@.take(i as int)),
                ),
            decreases topics.len() - i,
        {
            let d = &topics[i];
            let topic = join2(self.mqtt_base_topic.as_str(), d.topic.as_str());
            let ghost o0 = messages_view(out@);
            out.push(MqttData { topic, payload: d.payload.clone() });
            proof {
                let x = topics@[i as int]@;
                let t = messages_view(topics@.take(i as int));
                assert(topics@.take(i + 1) =~= topics@.take(i as int).push(topics@[i as int]));
                assert(messages_view(topics@.take(i + 1)) =~= t.push(x));
                assert(under_base(self@.base_topic, t.push(x)) =~= under_base(self@.base_topic, t).push(
                    MqttDataView { topic: self@.base_topic + x.topic, payload: x.payload },
                ));
                assert(messages_view(out@) =~= o0.push(
                    MqttDataView { topic: self@.base_topic + x.topic, payload: x.payload },
                ));
                assert(messages_view(out@) =~= under_base(
                    self@.base_topic,
                    messages_view(topics@.take(i + 1)),
                ));
            }
            i = i + 1;
        }
        proof {
            assert(topics@.take(topics@.len() as int) =~= topics@);
        }
        out
    }

    /// Takes the outcome of publishing the discovery messages that a poll
    /// asked for: they count as published exactly when publishing succeeded
    /// (or they were published before).
    pub fn after_discovery_publish(&mut self, ok: bool)
        ensures
            final(self)@ == view_after_discovery_publish(old(self)@, ok),
    {
        proof {
            use_type_invariant(&*self);
        }
        if ok {
            self.discovery_published = true;
        }
    }

    /// Takes the outcome of a poll and says what availability message to
    /// publish under `base_topic`: after a successful poll the state is kept
    /// and the bridge is online; after a failed one every sensor of the bike
    /// loses its value and the bridge is offline.
    pub fn after_poll_outcome(&mut self, ok: bool, base_topic: &String) -> (r: BrokerMessage)
        ensures
            r@ == availability_of(base_topic@, ok),
            final(self)@ == if ok {
                old(self)@
            } else {
                view_after_reset(old(self)@)
            },
    {
        if !ok {
            self.reset_status();
        }
        availability_message(base_topic, ok)
    }

    /// After a failed poll: every sensor of the bike loses its value.
    pub fn reset_status(&mut self)
        ensures
            final(self)@ == view_after_reset(old(self)@),
    {
        proof {
            use_type_invariant(&*self);
        }
        let mut slot: Option<StromerBike> = None;
        std::mem::swap(&mut slot, &mut self.bike);
        match slot {
            Some(mut b) => {
                b.reset();
                self.bike = Some(b);
            },
            None => {},
        }
    }
}

/// Whether `c` has the Unicode property `White_Space`, the white space that
/// `str::trim` removes.
pub open spec fn is_white_space(c: char) -> bool {
    let n = c as int;
    ||| 0x9 <= n <= 0xd
    ||| n == 0x20
    ||| n == 0x85
    ||| n == 0xa0
    ||| n == 0x1680
    ||| 0x2000 <= n <= 0x200a
    ||| n == 0x2028
    ||| n == 0x2029
    ||| n == 0x202f
    ||| n == 0x205f
    ||| n == 0x3000
}

/// `s` without its leading white space.
pub open spec fn trim_start(s: Seq<char>) -> Seq<char>
    decreases s.len(),
{
    if s.len() > 0 && is_white_space(s[0]) {
        trim_start(s.subrange(1, s.len() as int))
    } else {
        s
    }
}

/// `s` without its trailing white space.
pub open spec fn trim_end(s: Seq<char>) -> Seq<char>
    decreases s.len(),
{
    if s.len() > 0 && is_white_space(s.last()) {
        trim_end(s.drop_last())
    } else {
        s
    }
}

/// `s` without leading and trailing white space.
pub open spec fn trimmed(s: Seq<char>) -> Seq<char> {
    trim_end(trim_start(s))
}

/// The text that `str::to_uppercase` makes of `s`.
pub uninterp spec fn uppercased(s: Seq<char>) -> Seq<char>;

/// Whether `c` is white space in the sense of `is_white_space`.
fn white_space(c: char) -> (r: bool)
    ensures
        r == is_white_space(c),
{
    let n = c as u32;
    (0x9 <= n && n <= 0xd) || n == 0x20 || n == 0x85 || n == 0xa0 || n == 0x1680 || (0x2000 <= n
        && n <= 0x200a) || n == 0x2028 || n == 0x2029 || n == 0x202f || n == 0x205f || n == 0x3000
}

/// Without white space before `i`, and with `s[i]` not white space (or `i`
/// at the end), the leading white space of `s` is the first `i` characters.
proof fn lemma_trim_start(s: Seq<char>, i: int)
    requires
        0 <= i <= s.len(),
        forall|k: int| 0 <= k < i ==> is_white_space(#[trigger] s[k]),
        i < s.len() ==> !is_white_space(s[i]),
    ensures
        trim_start(s) == s.subrange(i, s.len() as int),
    decreases i,
{
    if i == 0 {
        assert(s.subrange(0, s.len() as int) =~= s);
    } else {
        let t = s.subrange(1, s.len() as int);
        assert forall|k: int| 0 <= k < i - 1 implies is_white_space(#[trigger] t[k]) by {
            assert(t[k] == s[k + 1]);
        }
        lemma_trim_start(t, i - 1);
        assert(t.subrange(i - 1, t.len() as int) =~= s.subrange(i, s.len() as int));
    }
}

/// With white space from `j` on, and with `t[j - 1]` not white space (or `j`
/// at the start), the trailing white space of `t` starts at `j`.
proof fn lemma_trim_end(t: Seq<char>, j: int)
    requires
        0 <= j <= t.len(),
        forall|k: int| j <= k < t.len() ==> is_white_space(#[trigger] t[k]),
        j > 0 ==> !is_white_space(t[j - 1]),
    ensures
        trim_end(t) == t.subrange(0, j),
    decreases t.len() - j,
{
    if j == t.len() {
        assert(t.subrange(0, j) =~= t);
    } else {
        let u = t.drop_last();
        assert forall|k: int| j <= k < u.len() implies is_white_space(#[trigger] u[k]) by {
            assert(u[k] == t[k]);
        }
        lemma_trim_end(u, j);
        assert(u.subrange(0, j) =~= t.subrange(0, j));
    }
}

/// `s` without leading and trailing white space, as `str::trim` gives it.
fn trim_text(s: &str) -> (r: String)
    ensures
        r@ == trimmed(s@),
{
    let v = chars_of(s);
    let mut i: usize = 0;
    while i < v.len() && white_space(v[i])
        invariant
            v@ == s@,
            i <= v.len(),
            forall|k: int| 0 <= k < i ==> is_white_space(#[trigger] v@[k]),
        decreases v.len() - i,
    {
        i = i + 1;
    }
    let mut j: usize = v.len();
    while j > i && white_space(v[j - 1])
        invariant
            v@ == s@,
            i <= j <= v.len(),
            forall|k: int| j <= k < v.len() ==> is_white_space(#[trigger] v@[k]),
        decreases j,
    {
        j = j - 1;
    }
    proof {
        lemma_trim_start(s@, i as int);
        let t = s@.subrange(i as int, s@.len() as int);
        assert forall|k: int| j - i <= k < t.len() implies is_white_space(#[trigger] t[k]) by {
            assert(t[k] == s@[k + i]);
        }
        if j > i {
            assert(t[j - i - 1] == s@[j - 1]);
        }
        lemma_trim_end(t, j - i);
        assert(t.subrange(0, j - i) =~= s@.subrange(i as int, j as int));
    }
    string_of(&v, i, j)
}

/// `str::to_uppercase`: the contract only names the result, by `uppercased`.
#[verifier::external_body]
fn uppercase_text(s: &str) -> (r: String)
    ensures
        r@ == uppercased(s@),
{
    s.to_uppercase()
}

/// Whether the characters `v` spell `lit`.
fn spells(v: &Vec<char>, lit: &str) -> (r: bool)
    ensures
        r == (v@ == lit@),
{
    let l = chars_of(lit);
    chars_equal(v, &l)
}

/// The path of a command topic below the base topic, split at each slash.
pub open spec fn command_parts(base: Seq<char>, topic: Seq<char>) -> Seq<Seq<char>> {
    split_on(topic.subrange(base.len() as int, topic.len() as int), '/')
}

/// Whether the path below the base topic has the form
/// `stromer_{bike_id}/cmnd/{action}`: a command for the bike `bike_id`.
pub open spec fn is_command_path(parts: Seq<Seq<char>>, bike_id: Seq<char>) -> bool {
    parts.len() == 3 && parts[0] == "stromer_"@ + bike_id && parts[1] == "cmnd"@
}

impl BridgeState {
    /// The topic segment of the bike: `stromer_{bike_id}`.
    fn bike_segment(&self) -> (r: String)
        ensures
            r@ == "stromer_"@ + self@.bike_id,
    {
        join2("stromer_", self.bike_id.as_str())
    }

    /// Reads a command message whose payload was already trimmed and
    /// upper-cased: the topic must be `{base}stromer_{bike_id}/cmnd/{action}`
    /// for the bike this bridge serves, the action `lock` or `light` and the
    /// payload `ON` or `OFF`. A command for another bike is an invalid topic.
    pub fn parse_command_normalized(&self, topic: &str, payload: String) -> (r: Result<
        BikeCommand,
        BridgeError,
    >)
        ensures
            !has_prefix(topic@, self@.base_topic) ==> (r matches Err(
                BridgeError::UnexpectedCommandPath(t),
            ) && t@ == topic@),
            has_prefix(topic@, self@.base_topic) && !is_command_path(
                command_parts(self@.base_topic, topic@),
                self@.bike_id,
            ) ==> (r matches Err(BridgeError::InvalidCommandTopic(p)) && p@ == topic@.subrange(
                self@.base_topic.len() as int,
                topic@.len() as int,
            )),
            has_prefix(topic@, self@.base_topic) && is_command_path(
                command_parts(self@.base_topic, topic@),
                self@.bike_id,
            ) ==> ({
                let action = command_parts(self@.base_topic, topic@)[2];
                if action == "lock"@ {
                    if payload@ == "ON"@ {
                        r matches Ok(BikeCommand::Lock(true))
                    } else if payload@ == "OFF"@ {
                        r matches Ok(BikeCommand::Lock(false))
                    } else {
                        r matches Err(BridgeError::InvalidLockPayload(p)) && p@ == payload@
                    }
                } else if action == "light"@ {
                    if payload@ == "ON"@ {
                        r matches Ok(BikeCommand::Light(m)) && m@ == "on"@
                    } else if payload@ == "OFF"@ {
                        r matches Ok(BikeCommand::Light(m)) && m@ == "off"@
                    } else {
                        r matches Err(BridgeError::InvalidLightPayload(p)) && p@ == payload@
                    }
                } else {
                    r matches Err(BridgeError::UnknownCommandAction(a)) && a@ == action
                }
            }),
    {
        let topic_chars = chars_of(topic);
        let base = chars_of(self.mqtt_base_topic.as_str());
        if !starts_with(&topic_chars, &base) {
            return Err(BridgeError::UnexpectedCommandPath(topic.to_string()));
        }
        let path = crate::text::text_slice(&topic_chars, base.len(), topic_chars.len());
        let parts = split_chars(&path, '/');
        proof {
            assert(parts@.len() == command_parts(self@.base_topic, topic@).len());
        }
        let bike_segment = chars_of(self.bike_segment().as_str());
        if parts.len() != 3 || !chars_equal(&parts[0], &bike_segment) || !spells(&parts[1], "cmnd") {
            proof {
                if parts@.len() == 3 {
                    assert(parts@[0]@ == command_parts(self@.base_topic, topic@)[0]);
                    assert(parts@[1]@ == command_parts(self@.base_topic, topic@)[1]);
                }
            }
            return Err(BridgeError::InvalidCommandTopic(string_of(&path, 0, path.len())));
        }
        proof {
            assert(parts@[2]@ == command_parts(self@.base_topic, topic@)[2]);
        }
        let action = &parts[2];
        let upper = chars_of(payload.as_str());
        if spells(action, "lock") {
            if spells(&upper, "ON") {
                Ok(BikeCommand::Lock(true))
            } else if spells(&upper, "OFF") {
                Ok(BikeCommand::Lock(false))
            } else {
                Err(BridgeError::InvalidLockPayload(payload))
            }
        } else if spells(action, "light") {
            if spells(&upper, "ON") {
                Ok(BikeCommand::Light("on".to_string()))
            } else if spells(&upper, "OFF") {
                Ok(BikeCommand::Light("off".to_string()))
            } else {
                Err(BridgeError::InvalidLightPayload(payload))
            }
        } else {
            Err(BridgeError::UnknownCommandAction(string_of(action, 0, action.len())))
        }
    }

    /// Reads a command message: its payload is trimmed and upper-cased before
    /// it is read.
    pub fn parse_command(&self, topic: &str, payload: &str) -> (r: Result<BikeCommand, BridgeError>)
        ensures
            ({
                let upper = uppercased(trimmed(payload@));
                &&& !has_prefix(topic@, self@.base_topic) ==> (r matches Err(
                    BridgeError::UnexpectedCommandPath(t),
                ) && t@ == topic@)
                &&& has_prefix(topic@, self@.base_topic) && !is_command_path(
                    command_parts(self@.base_topic, topic@),
                    self@.bike_id,
                ) ==> (r matches Err(BridgeError::InvalidCommandTopic(p)) && p@ == topic@.subrange(
                    self@.base_topic.len() as int,
                    topic@.len() as int,
                ))
                &&& has_prefix(topic@, self@.base_topic) && is_command_path(
                    command_parts(self@.base_topic, topic@),
                    self@.bike_id,
                ) ==> ({
                    let action = command_parts(self@.base_topic, topic@)[2];
                    if action == "lock"@ {
                        if upper == "ON"@ {
                            r matches Ok(BikeCommand::Lock(true))
                        } else if upper == "OFF"@ {
                            r matches Ok(BikeCommand::Lock(false))
                        } else {
                            r matches Err(BridgeError::InvalidLockPayload(p)) && p@ == upper
                        }
                    } else if action == "light"@ {
                        if upper == "ON"@ {
                            r matches Ok(BikeCommand::Light(m)) && m@ == "on"@
                        } else if upper == "OFF"@ {
                            r matches Ok(BikeCommand::Light(m)) && m@ == "off"@
                        } else {
                            r matches Err(BridgeError::InvalidLightPayload(p)) && p@ == upper
                        }
                    } else {
                        r matches Err(BridgeError::UnknownCommandAction(a)) && a@ == action
                    }
                })
            }),
    {
        let trimmed_payload = trim_text(payload);
        let upper = uppercase_text(trimmed_payload.as_str());
        self.parse_command_normalized(topic, upper)
    }
}

/// A topic `{base}stromer_{bike_id}/cmnd/{action}`, with neither the bike id
/// nor the action holding a slash, splits below `base` into the bike's
/// segment, `cmnd` and the action.
proof fn lemma_command_topic_parts(base: Seq<char>, bike_id: Seq<char>, action: Seq<char>)
    requires
        !has_char(bike_id, '/'),
        !has_char(action, '/'),
    ensures
        has_prefix(command_topic_of(base, bike_id, action), base),
        command_parts(base, command_topic_of(base, bike_id, action)) == seq![
            "stromer_"@ + bike_id,
            "cmnd"@,
            action,
        ],
        is_command_path(command_parts(base, command_topic_of(base, bike_id, action)), bike_id),
{
    reveal_strlit("stromer_");
    reveal_strlit("/cmnd/");
    reveal_strlit("cmnd");
    let topic = command_topic_of(base, bike_id, action);
    let head = "stromer_"@ + bike_id;
    assert(topic.subrange(0, base.len() as int) =~= base);
    let path = topic.subrange(base.len() as int, topic.len() as int);
    assert(path =~= head + seq!['/'] + ("cmnd"@ + seq!['/'] + action));
    assert(!has_char(head, '/')) by {
        assert forall|k: int| 0 <= k < head.len() implies head[k] != '/' by {
            if k >= 8 {
                assert(head[k] == bike_id[k - 8]);
            }
        }
    }
    assert(!has_char("cmnd"@, '/'));
    lemma_split_first_piece(head, "cmnd"@ + seq!['/'] + action, '/');
    lemma_split_first_piece("cmnd"@, action, '/');
    lemma_split_without_separator(action, '/');
    assert(command_parts(base, topic) =~= seq![head, "cmnd"@, action]);
}

/// The command topic that discovery announces for a switch reaches the
/// command handler: it lies under the base topic and splits into the bike,
/// `cmnd` and the switch's action, as long as the bike id holds no slash.
pub proof fn law_switch_commands_reach_the_handler(base: Seq<char>, bike_id: Seq<char>, i: int)
    requires
        0 <= i < SWITCH_DEF_COUNT,
        !has_char(bike_id, '/'),
    ensures
        ({
            let action = switch_defs()[i].command_action;
            let topic = command_topic_of(base, bike_id, action);
            &&& has_prefix(topic, base)
            &&& command_parts(base, topic) == seq!["stromer_"@ + bike_id, "cmnd"@, action]
            &&& is_command_path(command_parts(base, topic), bike_id)
            &&& action == "lock"@ || action == "light"@
        }),
{
    reveal_strlit("lock");
    reveal_strlit("light");
    let action = switch_defs()[i].command_action;
    assert(!has_char(action, '/'));
    lemma_command_topic_parts(base, bike_id, action);
}

/// The topics that the command subscription for a bike takes, with `+` in
/// place of an action without a slash, are commands for that bike: under the
/// bridge's base topic `{base_topic}/` they split into the bike's segment,
/// `cmnd` and the action, as long as the bike id holds no slash.
pub proof fn law_subscribed_topics_are_commands_for_the_bike(
    base_topic: Seq<char>,
    bike_id: Seq<char>,
    action: Seq<char>,
)
    requires
        !has_char(bike_id, '/'),
        !has_char(action, '/'),
    ensures
        ({
            let filter = command_filter_of(base_topic, bike_id);
            let topic = filter.drop_last() + action;
            let base = base_topic + "/"@;
            &&& filter.last() == '+'
            &&& has_prefix(topic, base)
            &&& is_command_path(command_parts(base, topic), bike_id)
            &&& command_parts(base, topic)[2] == action
        }),
{
    reveal_strlit("/stromer_");
    reveal_strlit("/cmnd/+");
    reveal_strlit("stromer_");
    reveal_strlit("/cmnd/");
    reveal_strlit("/");
    let filter = command_filter_of(base_topic, bike_id);
    let base = base_topic + "/"@;
    assert(filter.drop_last() + action =~= command_topic_of(base, bike_id, action));
    lemma_command_topic_parts(base, bike_id, action);
}

/// Discovery is announced on the first poll only: after any poll the bike
/// exists, so a later poll does not announce discovery again, whether
/// publishing the announcement succeeded or not and whether a later poll
/// failed and reset the sensors. The announcement counts as published
/// exactly when publishing it succeeded.
pub proof fn law_discovery_only_on_first_poll(
    before: BridgeView,
    status: BikeStatus,
    position: BikePosition,
    ok: bool,
)
    ensures
        view_after_poll(before, status, position).bike is Some,
        !announces_discovery(view_after_poll(before, status, position)),
        !announces_discovery(
            view_after_discovery_publish(view_after_poll(before, status, position), ok),
        ),
        !announces_discovery(
            view_after_reset(
                view_after_discovery_publish(view_after_poll(before, status, position), ok),
            ),
        ),
        view_after_discovery_publish(before, ok).discovery_published == (
        before.discovery_published || ok),
{
}

/// The bike made on the first poll carries the selected bike's maintenance
/// data: for each maintenance field that holds a value, the first poll
/// publishes it on `{base}stromer_{id}/{field}`, whatever the status and
/// position say.
pub proof fn law_first_poll_publishes_maintenance(
    before: BridgeView,
    status: BikeStatus,
    position: BikePosition,
    m: MaintenanceInfo,
)
    requires
        before.bike is None,
        before.maintenance == Some(m),
    ensures
        m.next_maintenance_date matches Some(v) ==> poll_updates(before, status, position).contains(
            MqttDataView {
                topic: before.base_topic + ("stromer_"@ + before.bike_id + "/"@ + "next_maintenance_date"@),
                payload: v@,
            },
        ),
        m.next_maintenance_km matches Some(v) ==> poll_updates(before, status, position).contains(
            MqttDataView {
                topic: before.base_topic + ("stromer_"@ + before.bike_id + "/"@ + "next_maintenance_km"@),
                payload: v.text@,
            },
        ),
        m.next_maintenance_interval matches Some(v) ==> poll_updates(before, status, position).contains(
            MqttDataView {
                topic: before.base_topic + ("stromer_"@ + before.bike_id + "/"@ + "next_maintenance_interval"@),
                payload: v.text@,
            },
        ),
        m.last_maintenance_reset_date matches Some(v) ==> poll_updates(before, status, position).contains(
            MqttDataView {
                topic: before.base_topic + ("stromer_"@ + before.bike_id + "/"@ + "last_maintenance_reset_date"@),
                payload: v@,
            },
        ),
        m.last_maintenance_reset_km matches Some(v) ==> poll_updates(before, status, position).contains(
            MqttDataView {
                topic: before.base_topic + ("stromer_"@ + before.bike_id + "/"@ + "last_maintenance_reset_km"@),
                payload: v.text@,
            },
        ),
{
    let start = sensors_before_poll(before);
    let fields = polled_sensors(start, status, position);
    let id = before.bike_id;
    let msgs = pending_messages(id, fields, SENSOR_COUNT as int);
    assert forall|k: int| 28 <= k < SENSOR_COUNT implies #[trigger] fields[k] == start[k] by {}
    assert forall|k: int| 28 <= k < SENSOR_COUNT && fields[k].pending() is Some implies
        poll_updates(before, status, position).contains(
            MqttDataView {
                topic: before.base_topic + sensor_topic(id, k),
                payload: fields[k].pending()->0,
            },
        ) by {
        lemma_pending_messages_contain(id, fields, SENSOR_COUNT as int, k);
        lemma_under_base_contains(
            before.base_topic,
            msgs,
            MqttDataView { topic: sensor_topic(id, k), payload: fields[k].pending()->0 },
        );
    }
    assert(fields[28] == start[28]);
    assert(fields[29] == start[29]);
    assert(fields[30] == start[30]);
    assert(fields[31] == start[31]);
    assert(fields[32] == start[32]);
}

/// A message among `msgs` is among them under the base `base`.
proof fn lemma_under_base_contains(base: Seq<char>, msgs: Seq<MqttDataView>, x: MqttDataView)
    requires
        msgs.contains(x),
    ensures
        under_base(base, msgs).contains(MqttDataView { topic: base + x.topic, payload: x.payload }),
{
    let j = choose|j: int| 0 <= j < msgs.len() && msgs[j] == x;
    assert(under_base(base, msgs)[j] == MqttDataView { topic: base + x.topic, payload: x.payload });
}

} // verus!
