//! The published state of one bike: every sensor remembers whether it
//! changed, and the changed ones become MQTT messages.
use vstd::prelude::*;
use vstd::string::*;

use crate::changes::{law_set_same_value_twice, FieldState, Reading, TrackedField, TrackedValue};
use crate::mqtt::{messages_view, MqttData, MqttDataView};
use crate::stromerapi::{BikePosition, BikeStatus, MaintenanceInfo};
use crate::text::{has_prefix, join4};

verus! {

/// A sensor value of any of the kinds a bike reports.
pub enum SensorValue {
    Text(String),
    Count(u64),
    Timestamp(i64),
    Flag(bool),
    Measure(Reading),
}

impl TrackedValue for SensorValue {
    open spec fn same_as(&self, other: &Self) -> bool {
        match (self, other) {
            (SensorValue::Text(a), SensorValue::Text(b)) => a.same_as(b),
            (SensorValue::Count(a), SensorValue::Count(b)) => a.same_as(b),
            (SensorValue::Timestamp(a), SensorValue::Timestamp(b)) => a.same_as(b),
            (SensorValue::Flag(a), SensorValue::Flag(b)) => a.same_as(b),
            (SensorValue::Measure(a), SensorValue::Measure(b)) => a.same_as(b),
            _ => false,
        }
    }

    open spec fn text(&self) -> Seq<char> {
        match self {
            SensorValue::Text(a) => a.text(),
            SensorValue::Count(a) => a.text(),
            SensorValue::Timestamp(a) => a.text(),
            SensorValue::Flag(a) => a.text(),
            SensorValue::Measure(a) => a.text(),
        }
    }

    fn equals(&self, other: &Self) -> (r: bool) {
        match (self, other) {
            (SensorValue::Text(a), SensorValue::Text(b)) => a.equals(b),
            (SensorValue::Count(a), SensorValue::Count(b)) => a.equals(b),
            (SensorValue::Timestamp(a), SensorValue::Timestamp(b)) => a.equals(b),
            (SensorValue::Flag(a), SensorValue::Flag(b)) => a.equals(b),
            (SensorValue::Measure(a), SensorValue::Measure(b)) => a.equals(b),
            _ => false,
        }
    }

    fn render(&self) -> (s: String) {
        match self {
            SensorValue::Text(a) => a.render(),
            SensorValue::Count(a) => a.render(),
            SensorValue::Timestamp(a) => a.render(),
            SensorValue::Flag(a) => a.render(),
            SensorValue::Measure(a) => a.render(),
        }
    }
}

/// The number of sensors of a bike.
pub const SENSOR_COUNT: usize = 33;

/// Where the status sensors start among the sensors.
pub const STATUS_START: usize = 0;

/// How many sensors the status endpoint fills.
pub const STATUS_COUNT: usize = 24;

/// Where the position sensors start among the sensors.
pub const POSITION_START: usize = 24;

/// How many sensors the position endpoint fills.
pub const POSITION_COUNT: usize = 4;

/// Where the maintenance sensors start among the sensors.
pub const MAINTENANCE_START: usize = 28;

/// How many sensors the maintenance data fills.
pub const MAINTENANCE_COUNT: usize = 5;

/// The names of the sensors, in the order in which they are published; each
/// is the last part of the sensor's topic.
pub open spec fn sensor_names() -> Seq<Seq<char>> {
    seq![
        "suiversion"@,
        "tntversion"@,
        "assistance_level"@,
        "atmospheric_pressure"@,
        "average_energy_consumption"@,
        "average_speed_total"@,
        "average_speed_trip"@,
        "battery_soc"@,
        "battery_health"@,
        "battery_temp"@,
        "bike_speed"@,
        "motor_temp"@,
        "power_on_cycles"@,
        "speed"@,
        "total_distance"@,
        "total_energy_consumption"@,
        "total_time"@,
        "trip_distance"@,
        "trip_time"@,
        "rcvts"@,
        "timets"@,
        "light_on"@,
        "lock_flag"@,
        "theft_flag"@,
        "latitude"@,
        "longitude"@,
        "altitude"@,
        "rcvts_pos"@,
        "next_maintenance_date"@,
        "next_maintenance_km"@,
        "next_maintenance_interval"@,
        "last_maintenance_reset_date"@,
        "last_maintenance_reset_km"@,
    ]
}

/// The name of sensor `i`.
pub fn sensor_name(i: usize) -> (n: &'static str)
    requires
        i < SENSOR_COUNT,
    ensures
        n@ == sensor_names()[i as int],
{
    match i {
        0 => "suiversion",
        1 => "tntversion",
        2 => "assistance_level",
        3 => "atmospheric_pressure",
        4 => "average_energy_consumption",
        5 => "average_speed_total",
        6 => "average_speed_trip",
        7 => "battery_soc",
        8 => "battery_health",
        9 => "battery_temp",
        10 => "bike_speed",
        11 => "motor_temp",
        12 => "power_on_cycles",
        13 => "speed",
        14 => "total_distance",
        15 => "total_energy_consumption",
        16 => "total_time",
        17 => "trip_distance",
        18 => "trip_time",
        19 => "rcvts",
        20 => "timets",
        21 => "light_on",
        22 => "lock_flag",
        23 => "theft_flag",
        24 => "latitude",
        25 => "longitude",
        26 => "altitude",
        27 => "rcvts_pos",
        28 => "next_maintenance_date",
        29 => "next_maintenance_km",
        30 => "next_maintenance_interval",
        31 => "last_maintenance_reset_date",
        _ => "last_maintenance_reset_km",
    }
}

pub open spec fn text_value(o: Option<String>) -> Option<SensorValue> {
    match o {
        Some(v) => Some(SensorValue::Text(v)),
        None => None,
    }
}

pub open spec fn count_value(o: Option<u64>) -> Option<SensorValue> {
    match o {
        Some(v) => Some(SensorValue::Count(v)),
        None => None,
    }
}

pub open spec fn timestamp_value(o: Option<i64>) -> Option<SensorValue> {
    match o {
        Some(v) => Some(SensorValue::Timestamp(v)),
        None => None,
    }
}

pub open spec fn flag_value(o: Option<bool>) -> Option<SensorValue> {
    match o {
        Some(v) => Some(SensorValue::Flag(v)),
        None => None,
    }
}

pub open spec fn measure_value(o: Option<Reading>) -> Option<SensorValue> {
    match o {
        Some(v) => Some(SensorValue::Measure(v)),
        None => None,
    }
}

/// The values of a status report, in the order of the status sensors.
pub open spec fn status_values(s: BikeStatus) -> Seq<Option<SensorValue>> {
    seq![
        text_value(s.suiversion),
        text_value(s.tntversion),
        measure_value(s.assistance_level),
        measure_value(s.atmospheric_pressure),
        measure_value(s.average_energy_consumption),
        measure_value(s.average_speed_total),
        measure_value(s.average_speed_trip),
        measure_value(s.battery_soc),
        measure_value(s.battery_health),
        measure_value(s.battery_temp),
        measure_value(s.bike_speed),
        measure_value(s.motor_temp),
        count_value(s.power_on_cycles),
        measure_value(s.speed),
        measure_value(s.total_distance),
        measure_value(s.total_energy_consumption),
        count_value(s.total_time),
        measure_value(s.trip_distance),
        count_value(s.trip_time),
        timestamp_value(s.rcvts),
        timestamp_value(s.timets),
        flag_value(s.light_on),
        flag_value(s.lock_flag),
        flag_value(s.theft_flag),
    ]
}

/// The values of a position report, in the order of the position sensors.
pub open spec fn position_values(p: BikePosition) -> Seq<Option<SensorValue>> {
    seq![
        measure_value(p.latitude),
        measure_value(p.longitude),
        measure_value(p.altitude),
        timestamp_value(p.rcvts),
    ]
}

/// The values of maintenance data, in the order of the maintenance sensors.
pub open spec fn maintenance_values(m: MaintenanceInfo) -> Seq<Option<SensorValue>> {
    seq![
        text_value(m.next_maintenance_date),
        measure_value(m.next_maintenance_km),
        measure_value(m.next_maintenance_interval),
        text_value(m.last_maintenance_reset_date),
        measure_value(m.last_maintenance_reset_km),
    ]
}

/// The sensors after `vals` were set, in order, on the sensors from `start` on.
pub open spec fn apply_values(
    fields: Seq<FieldState<SensorValue>>,
    start: int,
    vals: Seq<Option<SensorValue>>,
) -> Seq<FieldState<SensorValue>> {
    Seq::new(
        fields.len(),
        |i: int|
            if start <= i < start + vals.len() {
                fields[i].after_set_option(vals[i - start])
            } else {
                fields[i]
            },
    )
}

/// The topic of sensor `i` of the bike `bike_id`: `stromer_{bike_id}/{name}`.
pub open spec fn sensor_topic(bike_id: Seq<char>, i: int) -> Seq<char> {
    "stromer_"@ + bike_id + "/"@ + sensor_names()[i]
}

/// The messages that the first `n` sensors ask for, in sensor order: one for
/// each sensor that changed and holds a value, with the value's text.
pub open spec fn pending_messages(bike_id: Seq<char>, fields: Seq<FieldState<SensorValue>>, n: int) -> Seq<
    MqttDataView,
>
    decreases n,
{
    if n <= 0 {
        Seq::empty()
    } else {
        let before = pending_messages(bike_id, fields, n - 1);
        match fields[n - 1].pending() {
            Some(payload) => before.push(MqttDataView { topic: sensor_topic(bike_id, n - 1), payload }),
            None => before,
        }
    }
}

/// The plain content of a `StromerBike`.
pub struct BikeView {
    pub id: Seq<char>,
    pub name: Seq<char>,
    pub model: Seq<char>,
    pub sensors: Seq<FieldState<SensorValue>>,
}

/// Represents a Stromer bike information.
/// Each sensor that gets published to MQTT is a `TrackedField` that records
/// whether the value has changed since last publish.
pub struct StromerBike {
    bike_id: String,
    bike_name: String,
    bike_model: String,
    sensors: Vec<TrackedField<SensorValue>>,
}

impl View for StromerBike {
    type V = BikeView;

    closed spec fn view(&self) -> BikeView {
        BikeView {
            id: self.bike_id@,
            name: self.bike_name@,
            model: self.bike_model@,
            sensors: self.sensors@.map_values(|f: TrackedField<SensorValue>| f@),
        }
    }
}

impl StromerBike {
    #[verifier::type_invariant]
    spec fn well_formed(&self) -> bool {
        self.sensors@.len() == SENSOR_COUNT
    }

    /// The sensor states of a new bike before maintenance data is applied.
    pub open spec fn fresh_sensors() -> Seq<FieldState<SensorValue>> {
        Seq::new(SENSOR_COUNT as nat, |i: int| FieldState::<SensorValue>::empty())
    }

    pub fn new(
        bike_id: String,
        bike_name: String,
        bike_model: String,
        maintenance: Option<MaintenanceInfo>,
    ) -> (r: Self)
        ensures
            r@.id == bike_id@,
            r@.name == bike_name@,
            r@.model == bike_model@,
            r@.sensors.len() == SENSOR_COUNT,
            r@.sensors == match maintenance {
                Some(m) => apply_values(
                    Self::fresh_sensors(),
                    MAINTENANCE_START as int,
                    maintenance_values(m),
                ),
                None => Self::fresh_sensors(),
            },
    {
        let mut sensors: Vec<TrackedField<SensorValue>> = Vec::new();
        let mut i: usize = 0;
        while i < SENSOR_COUNT
            invariant
                i <= SENSOR_COUNT,
                sensors@.len() == i,
                forall|j: int| 0 <= j < i ==> sensors@[j]@ == FieldState::<SensorValue>::empty(),
            decreases SENSOR_COUNT - i,
        {
            sensors.push(TrackedField::new());
            i = i + 1;
        }
        let mut bike = StromerBike { bike_id, bike_name, bike_model, sensors };
        proof {
            assert(bike@.sensors =~= Self::fresh_sensors());
        }
        if let Some(m) = maintenance {
            bike.update_maintenance(m);
        }
        bike
    }

    pub fn bike_id(&self) -> (r: &str)
        ensures
            r@ == self@.id,
            self@.sensors.len() == SENSOR_COUNT,
    {
        proof {
            use_type_invariant(self);
        }
        self.bike_id.as_str()
    }

    pub fn bike_name(&self) -> (r: &str)
        ensures
            r@ == self@.name,
            self@.sensors.len() == SENSOR_COUNT,
    {
        proof {
            use_type_invariant(self);
        }
        self.bike_name.as_str()
    }

    pub fn bike_model(&self) -> (r: &str)
        ensures
            r@ == self@.model,
            self@.sensors.len() == SENSOR_COUNT,
    {
        proof {
            use_type_invariant(self);
        }
        self.bike_model.as_str()
    }

    /// Sets `vals`, in order, on the sensors from `start` on.
    fn apply(&mut self, start: usize, vals: Vec<Option<SensorValue>>)
        requires
            start + vals@.len() <= SENSOR_COUNT,
        ensures
            old(self)@.sensors.len() == SENSOR_COUNT,
            final(self)@.sensors.len() == SENSOR_COUNT,
            final(self)@.id == old(self)@.id,
            final(self)@.name == old(self)@.name,
            final(self)@.model == old(self)@.model,
            final(self)@.sensors == apply_values(old(self)@.sensors, start as int, vals@),
    {
        proof {
            use_type_invariant(&*self);
        }
        let ghost all = vals@;
        let ghost before = self@.sensors;
        let mut vals = vals;
        while vals.len() > 0
            invariant
                start + all.len() <= SENSOR_COUNT,
                vals@ == all.take(vals@.len() as int),
                vals@.len() <= all.len(),
                self.sensors@.len() == SENSOR_COUNT,
                self@.id == old(self)@.id,
                self@.name == old(self)@.name,
                self@.model == old(self)@.model,
                before.len() == SENSOR_COUNT,
                forall|i: int|
                    0 <= i < SENSOR_COUNT ==> #[trigger] self@.sensors[i] == if start + vals@.len()
                        <= i < start + all.len() {
                        before[i].after_set_option(all[i - start])
                    } else {
                        before[i]
                    },
            decreases vals@.len(),
        {
            let k = vals.len() - 1;
            let v = vals.pop().unwrap();
            proof {
                assert(all[k as int] == v);
            }
            let idx = start + k;
            let ghost prev = self@.sensors;
            self.sensors[idx].set_option(v);
            proof {
                assert(self@.sensors =~= prev.update(idx as int, prev[idx as int].after_set_option(v)));
                assert(vals@ =~= all.take(vals@.len() as int));
            }
        }
        proof {
            assert(self@.sensors =~= apply_values(before, start as int, all));
        }
    }

    #[verifier::rlimit(40)]
    pub fn update_status(&mut self, status: BikeStatus)
        ensures
            old(self)@.sensors.len() == SENSOR_COUNT,
            final(self)@.sensors.len() == SENSOR_COUNT,
            final(self)@.id == old(self)@.id,
            final(self)@.name == old(self)@.name,
            final(self)@.model == old(self)@.model,
            final(self)@.sensors == apply_values(
                old(self)@.sensors,
                STATUS_START as int,
                status_values(status),
            ),
    {
        let ghost s = status;
        let mut vals: Vec<Option<SensorValue>> = Vec::new();
        vals.push(text_option(status.suiversion));
        vals.push(text_option(status.tntversion));
        vals.push(measure_option(status.assistance_level));
        vals.push(measure_option(status.atmospheric_pressure));
        vals.push(measure_option(status.average_energy_consumption));
        vals.push(measure_option(status.average_speed_total));
        vals.push(measure_option(status.average_speed_trip));
        vals.push(measure_option(status.battery_soc));
        vals.push(measure_option(status.battery_health));
        vals.push(measure_option(status.battery_temp));
        vals.push(measure_option(status.bike_speed));
        vals.push(measure_option(status.motor_temp));
        vals.push(count_option(status.power_on_cycles));
        vals.push(measure_option(status.speed));
        vals.push(measure_option(status.total_distance));
        vals.push(measure_option(status.total_energy_consumption));
        vals.push(count_option(status.total_time));
        vals.push(measure_option(status.trip_distance));
        vals.push(count_option(status.trip_time));
        vals.push(timestamp_option(status.rcvts));
        vals.push(timestamp_option(status.timets));
        vals.push(flag_option(status.light_on));
        vals.push(flag_option(status.lock_flag));
        vals.push(flag_option(status.theft_flag));
        proof {
            assert(vals@ =~= status_values(s));
        }
        self.apply(STATUS_START, vals);
    }

    pub fn update_maintenance(&mut self, m: MaintenanceInfo)
        ensures
            old(self)@.sensors.len() == SENSOR_COUNT,
            final(self)@.sensors.len() == SENSOR_COUNT,
            final(self)@.id == old(self)@.id,
            final(self)@.name == old(self)@.name,
            final(self)@.model == old(self)@.model,
            final(self)@.sensors == apply_values(
                old(self)@.sensors,
                MAINTENANCE_START as int,
                maintenance_values(m),
            ),
    {
        let ghost g = m;
        let mut vals: Vec<Option<SensorValue>> = Vec::new();
        vals.push(text_option(m.next_maintenance_date));
        vals.push(measure_option(m.next_maintenance_km));
        vals.push(measure_option(m.next_maintenance_interval));
        vals.push(text_option(m.last_maintenance_reset_date));
        vals.push(measure_option(m.last_maintenance_reset_km));
        proof {
            assert(vals@ =~= maintenance_values(g));
        }
        self.apply(MAINTENANCE_START, vals);
    }

    pub fn update_position(&mut self, position: BikePosition)
        ensures
            old(self)@.sensors.len() == SENSOR_COUNT,
            final(self)@.sensors.len() == SENSOR_COUNT,
            final(self)@.id == old(self)@.id,
            final(self)@.name == old(self)@.name,
            final(self)@.model == old(self)@.model,
            final(self)@.sensors == apply_values(
                old(self)@.sensors,
                POSITION_START as int,
                position_values(position),
            ),
    {
        let ghost p = position;
        let mut vals: Vec<Option<SensorValue>> = Vec::new();
        vals.push(measure_option(position.latitude));
        vals.push(measure_option(position.longitude));
        vals.push(measure_option(position.altitude));
        vals.push(timestamp_option(position.rcvts));
        proof {
            assert(vals@ =~= position_values(p));
        }
        self.apply(POSITION_START, vals);
    }

    pub fn topics_that_need_updating(&mut self) -> (r: Vec<MqttData>)
        ensures
            old(self)@.sensors.len() == SENSOR_COUNT,
            final(self)@.sensors.len() == SENSOR_COUNT,
            final(self)@.id == old(self)@.id,
            final(self)@.name == old(self)@.name,
            final(self)@.model == old(self)@.model,
            final(self)@.sensors == old(self)@.sensors.map_values(
                |f: FieldState<SensorValue>| f.after_read(),
            ),
            messages_view(r@) == pending_messages(
                old(self)@.id,
                old(self)@.sensors,
                SENSOR_COUNT as int,
            ),
    {
        proof {
            use_type_invariant(&*self);
        }
        let ghost before = self@.sensors;
        let mut topics: Vec<MqttData> = Vec::new();
        let mut i: usize = 0;
        while i < SENSOR_COUNT
            invariant
                i <= SENSOR_COUNT,
                self.sensors@.len() == SENSOR_COUNT,
                before.len() == SENSOR_COUNT,
                self@.id == old(self)@.id,
                self@.name == old(self)@.name,
                self@.model == old(self)@.model,
                before == old(self)@.sensors,
                forall|j: int|
                    0 <= j < SENSOR_COUNT ==> #[trigger] self@.sensors[j] == if j < i {
                        before[j].after_read()
                    } else {
                        before[j]
                    },
                messages_view(topics@) == pending_messages(self@.id, before, i as int),
            decreases SENSOR_COUNT - i,
        {
            let ghost topics_before = topics@;
            let ghost prev = self@.sensors;
            let payload = self.sensors[i].get_and_reset();
            proof {
                assert(self@.sensors =~= prev.update(i as int, prev[i as int].after_read()));
            }
            if let Some(payload) = payload {
                let topic = join4("stromer_", self.bike_id.as_str(), "/", sensor_name(i));
                topics.push(MqttData { topic, payload });
                proof {
                    assert(messages_view(topics@) =~= messages_view(topics_before).push(
                        topics@[i as int - i as int + topics_before.len()]@,
                    ));
                }
            }
            i = i + 1;
        }
        proof {
            assert(self@.sensors =~= before.map_values(
                |f: FieldState<SensorValue>| f.after_read(),
            ));
        }
        topics
    }

    pub fn reset(&mut self)
        ensures
            old(self)@.sensors.len() == SENSOR_COUNT,
            final(self)@.sensors.len() == SENSOR_COUNT,
            final(self)@.id == old(self)@.id,
            final(self)@.name == old(self)@.name,
            final(self)@.model == old(self)@.model,
            final(self)@.sensors == Seq::new(
                SENSOR_COUNT as nat,
                |i: int| FieldState::<SensorValue>::cleared(),
            ),
    {
        proof {
            use_type_invariant(&*self);
        }
        let mut i: usize = 0;
        while i < SENSOR_COUNT
            invariant
                i <= SENSOR_COUNT,
                self.sensors@.len() == SENSOR_COUNT,
                self@.id == old(self)@.id,
                self@.name == old(self)@.name,
                self@.model == old(self)@.model,
                forall|j: int|
                    0 <= j < i ==> #[trigger] self@.sensors[j]
                        == FieldState::<SensorValue>::cleared(),
            decreases SENSOR_COUNT - i,
        {
            let ghost prev = self@.sensors;
            self.sensors[i].reset();
            proof {
                assert(self@.sensors =~= prev.update(i as int, FieldState::<SensorValue>::cleared()));
            }
            i = i + 1;
        }
        proof {
            assert(self@.sensors =~= Seq::new(
                SENSOR_COUNT as nat,
                |i: int| FieldState::<SensorValue>::cleared(),
            ));
        }
    }
}

fn text_option(o: Option<String>) -> (r: Option<SensorValue>)
    ensures
        r == text_value(o),
{
    match o {
        Some(v) => Some(SensorValue::Text(v)),
        None => None,
    }
}

fn count_option(o: Option<u64>) -> (r: Option<SensorValue>)
    ensures
        r == count_value(o),
{
    match o {
        Some(v) => Some(SensorValue::Count(v)),
        None => None,
    }
}

fn timestamp_option(o: Option<i64>) -> (r: Option<SensorValue>)
    ensures
        r == timestamp_value(o),
{
    match o {
        Some(v) => Some(SensorValue::Timestamp(v)),
        None => None,
    }
}

fn flag_option(o: Option<bool>) -> (r: Option<SensorValue>)
    ensures
        r == flag_value(o),
{
    match o {
        Some(v) => Some(SensorValue::Flag(v)),
        None => None,
    }
}

fn measure_option(o: Option<Reading>) -> (r: Option<SensorValue>)
    ensures
        r == measure_value(o),
{
    match o {
        Some(v) => Some(SensorValue::Measure(v)),
        None => None,
    }
}

/// Whether every value in `vals` equals itself (no reading is a NaN).
pub open spec fn self_equal_values(vals: Seq<Option<SensorValue>>) -> bool {
    forall|i: int| 0 <= i < vals.len() ==> (#[trigger] vals[i] matches Some(v) ==> v.same_as(&v))
}

/// The sensors after they were all read out.
pub open spec fn read_out(fields: Seq<FieldState<SensorValue>>) -> Seq<FieldState<SensorValue>> {
    fields.map_values(|f: FieldState<SensorValue>| f.after_read())
}

/// Once the changed sensors were read out, reading out again yields no
/// message: `topics_that_need_updating` called twice returns nothing the
/// second time.
pub proof fn law_second_read_is_empty(bike_id: Seq<char>, fields: Seq<FieldState<SensorValue>>, n: int)
    requires
        0 <= n <= fields.len(),
    ensures
        pending_messages(bike_id, read_out(fields), n) == Seq::<MqttDataView>::empty(),
    decreases n,
{
    if n > 0 {
        law_second_read_is_empty(bike_id, fields, n - 1);
    }
}

/// Applying the same values again after the sensors were read out changes
/// nothing, as long as every value equals itself: an update with unchanged
/// data publishes nothing.
pub proof fn law_same_update_changes_nothing(
    fields: Seq<FieldState<SensorValue>>,
    start: int,
    vals: Seq<Option<SensorValue>>,
)
    requires
        0 <= start,
        start + vals.len() <= fields.len(),
        self_equal_values(vals),
    ensures
        apply_values(read_out(apply_values(fields, start, vals)), start, vals) == read_out(
            apply_values(fields, start, vals),
        ),
{
    let g = read_out(apply_values(fields, start, vals));
    assert forall|i: int| 0 <= i < fields.len() implies #[trigger] apply_values(g, start, vals)[i]
        == g[i] by {
        if start <= i < start + vals.len() {
            let v = vals[i - start];
            if let Some(x) = v {
                law_set_same_value_twice(fields[i], x);
            }
        }
    }
    assert(apply_values(g, start, vals) =~= g);
}

/// After a reset, no sensor has a value, so nothing is published.
pub proof fn law_reset_publishes_nothing(bike_id: Seq<char>, n: int)
    requires
        0 <= n <= SENSOR_COUNT,
    ensures
        pending_messages(
            bike_id,
            Seq::new(SENSOR_COUNT as nat, |i: int| FieldState::<SensorValue>::cleared()),
            n,
        ) == Seq::<MqttDataView>::empty(),
    decreases n,
{
    if n > 0 {
        law_reset_publishes_nothing(bike_id, n - 1);
    }
}

/// Every message of a bike is on a topic `stromer_{bike_id}/{sensor}` and
/// carries the text of the sensor's value.
pub proof fn law_messages_are_sensor_topics(
    bike_id: Seq<char>,
    fields: Seq<FieldState<SensorValue>>,
    n: int,
)
    requires
        0 <= n <= fields.len(),
        n <= SENSOR_COUNT,
    ensures
        forall|k: int|
            0 <= k < pending_messages(bike_id, fields, n).len() ==> {
                let m = #[trigger] pending_messages(bike_id, fields, n)[k];
                &&& has_prefix(m.topic, "stromer_"@ + bike_id + "/"@)
                &&& exists|i: int|
                    0 <= i < n && m.topic == sensor_topic(bike_id, i) && fields[i].pending()
                        == Some(m.payload)
            },
    decreases n,
{
    if n > 0 {
        law_messages_are_sensor_topics(bike_id, fields, n - 1);
        let prefix = "stromer_"@ + bike_id + "/"@;
        let before = pending_messages(bike_id, fields, n - 1);
        assert forall|k: int|
            0 <= k < pending_messages(bike_id, fields, n).len() implies {
                let m = #[trigger] pending_messages(bike_id, fields, n)[k];
                &&& has_prefix(m.topic, prefix)
                &&& exists|i: int|
                    0 <= i < n && m.topic == sensor_topic(bike_id, i) && fields[i].pending()
                        == Some(m.payload)
            } by {
            let m = pending_messages(bike_id, fields, n)[k];
            if k < before.len() {
                assert(m == before[k]);
            } else {
                assert(m.topic == sensor_topic(bike_id, n - 1));
                assert(sensor_topic(bike_id, n - 1).subrange(0, prefix.len() as int) =~= prefix);
            }
        }
    }
}

/// An update of the status touches only the status sensors, one of the
/// position only the position sensors, maintenance data only the
/// maintenance sensors.
pub proof fn law_updates_touch_their_own_sensors(
    fields: Seq<FieldState<SensorValue>>,
    start: int,
    vals: Seq<Option<SensorValue>>,
    i: int,
)
    requires
        0 <= i < fields.len(),
        !(start <= i < start + vals.len()),
    ensures
        apply_values(fields, start, vals)[i] == fields[i],
{
}

/// After the changes of a status were published, the same status again
/// publishes nothing, as long as no reading in it is a NaN.
pub proof fn law_repeated_status_publishes_nothing(
    bike_id: Seq<char>,
    fields: Seq<FieldState<SensorValue>>,
    status: BikeStatus,
)
    requires
        fields.len() == SENSOR_COUNT,
        self_equal_values(status_values(status)),
    ensures
        pending_messages(
            bike_id,
            apply_values(
                read_out(apply_values(fields, STATUS_START as int, status_values(status))),
                STATUS_START as int,
                status_values(status),
            ),
            SENSOR_COUNT as int,
        ) == Seq::<MqttDataView>::empty(),
{
    let vals = status_values(status);
    law_same_update_changes_nothing(fields, STATUS_START as int, vals);
    let applied = apply_values(fields, STATUS_START as int, vals);
    law_second_read_is_empty(bike_id, applied, SENSOR_COUNT as int);
}

/// Whether sensor `k` is the one named `name` and took the value `v`: from
/// `before` to `after` it was set to `v` (or left as it was when `v` is
/// `None`).
pub open spec fn sensor_takes(
    before: Seq<FieldState<SensorValue>>,
    after: Seq<FieldState<SensorValue>>,
    k: int,
    name: Seq<char>,
    v: Option<SensorValue>,
) -> bool {
    sensor_names()[k] == name && after[k] == before[k].after_set_option(v)
}

/// Every field of a status report goes to the sensor of the same name: the
/// sensor `battery_temp` takes `battery_temp`, `motor_temp` takes
/// `motor_temp`, and so on for each field, and no other sensor changes.
pub proof fn law_status_fields_reach_their_sensors(before: Seq<FieldState<SensorValue>>, s: BikeStatus)
    requires
        before.len() == SENSOR_COUNT,
    ensures
        ({
            let after = apply_values(before, STATUS_START as int, status_values(s));
            &&& after.len() == SENSOR_COUNT
            &&& sensor_takes(before, after, 0, "suiversion"@, text_value(s.suiversion))
            &&& sensor_takes(before, after, 1, "tntversion"@, text_value(s.tntversion))
            &&& sensor_takes(before, after, 2, "assistance_level"@, measure_value(s.assistance_level))
            &&& sensor_takes(before, after, 3, "atmospheric_pressure"@, measure_value(s.atmospheric_pressure))
            &&& sensor_takes(before, after, 4, "average_energy_consumption"@, measure_value(s.average_energy_consumption))
            &&& sensor_takes(before, after, 5, "average_speed_total"@, measure_value(s.average_speed_total))
            &&& sensor_takes(before, after, 6, "average_speed_trip"@, measure_value(s.average_speed_trip))
            &&& sensor_takes(before, after, 7, "battery_soc"@, measure_value(s.battery_soc))
            &&& sensor_takes(before, after, 8, "battery_health"@, measure_value(s.battery_health))
            &&& sensor_takes(before, after, 9, "battery_temp"@, measure_value(s.battery_temp))
            &&& sensor_takes(before, after, 10, "bike_speed"@, measure_value(s.bike_speed))
            &&& sensor_takes(before, after, 11, "motor_temp"@, measure_value(s.motor_temp))
            &&& sensor_takes(before, after, 12, "power_on_cycles"@, count_value(s.power_on_cycles))
            &&& sensor_takes(before, after, 13, "speed"@, measure_value(s.speed))
            &&& sensor_takes(before, after, 14, "total_distance"@, measure_value(s.total_distance))
            &&& sensor_takes(before, after, 15, "total_energy_consumption"@, measure_value(s.total_energy_consumption))
            &&& sensor_takes(before, after, 16, "total_time"@, count_value(s.total_time))
            &&& sensor_takes(before, after, 17, "trip_distance"@, measure_value(s.trip_distance))
            &&& sensor_takes(before, after, 18, "trip_time"@, count_value(s.trip_time))
            &&& sensor_takes(before, after, 19, "rcvts"@, timestamp_value(s.rcvts))
            &&& sensor_takes(before, after, 20, "timets"@, timestamp_value(s.timets))
            &&& sensor_takes(before, after, 21, "light_on"@, flag_value(s.light_on))
            &&& sensor_takes(before, after, 22, "lock_flag"@, flag_value(s.lock_flag))
            &&& sensor_takes(before, after, 23, "theft_flag"@, flag_value(s.theft_flag))
            &&& forall|k: int| 24 <= k < SENSOR_COUNT ==> #[trigger] after[k] == before[k]
        }),
{
}

/// Every field of a position report goes to the sensor of the same name
/// (the report's `rcvts` to `rcvts_pos`), and no other sensor changes.
pub proof fn law_position_fields_reach_their_sensors(
    before: Seq<FieldState<SensorValue>>,
    p: BikePosition,
)
    requires
        before.len() == SENSOR_COUNT,
    ensures
        ({
            let after = apply_values(before, POSITION_START as int, position_values(p));
            &&& after.len() == SENSOR_COUNT
            &&& sensor_takes(before, after, 24, "latitude"@, measure_value(p.latitude))
            &&& sensor_takes(before, after, 25, "longitude"@, measure_value(p.longitude))
            &&& sensor_takes(before, after, 26, "altitude"@, measure_value(p.altitude))
            &&& sensor_takes(before, after, 27, "rcvts_pos"@, timestamp_value(p.rcvts))
            &&& forall|k: int|
                0 <= k < SENSOR_COUNT && !(24 <= k < 28) ==> #[trigger] after[k] == before[k]
        }),
{
}

/// Every field of the maintenance data goes to the sensor of the same name,
/// and no other sensor changes.
pub proof fn law_maintenance_fields_reach_their_sensors(
    before: Seq<FieldState<SensorValue>>,
    m: MaintenanceInfo,
)
    requires
        before.len() == SENSOR_COUNT,
    ensures
        ({
            let after = apply_values(before, MAINTENANCE_START as int, maintenance_values(m));
            &&& after.len() == SENSOR_COUNT
            &&& sensor_takes(before, after, 28, "next_maintenance_date"@, text_value(m.next_maintenance_date))
            &&& sensor_takes(before, after, 29, "next_maintenance_km"@, measure_value(m.next_maintenance_km))
            &&& sensor_takes(before, after, 30, "next_maintenance_interval"@, measure_value(m.next_maintenance_interval))
            &&& sensor_takes(before, after, 31, "last_maintenance_reset_date"@, text_value(m.last_maintenance_reset_date))
            &&& sensor_takes(before, after, 32, "last_maintenance_reset_km"@, measure_value(m.last_maintenance_reset_km))
            &&& forall|k: int| 0 <= k < 28 ==> #[trigger] after[k] == before[k]
        }),
{
}

/// Sensor values are equal only when they are of the same kind and equal
/// there: flags, counts, timestamps and texts exactly when they are the same,
/// so a flag that turns from `true` to `false` is published again.
pub proof fn law_sensor_values_change_when_different(
    f: FieldState<SensorValue>,
    a: bool,
    b: bool,
    x: u64,
    y: u64,
    p: i64,
    q: i64,
    s: String,
    t: String,
)
    ensures
        SensorValue::Flag(a).same_as(&SensorValue::Flag(b)) <==> a == b,
        SensorValue::Count(x).same_as(&SensorValue::Count(y)) <==> x == y,
        SensorValue::Timestamp(p).same_as(&SensorValue::Timestamp(q)) <==> p == q,
        SensorValue::Text(s).same_as(&SensorValue::Text(t)) <==> s@ == t@,
        !SensorValue::Flag(a).same_as(&SensorValue::Count(x)),
        f.value == Some(SensorValue::Flag(a)) && a != b ==> f.after_set(SensorValue::Flag(b))
            .pending() == Some(
            if b {
                "true"@
            } else {
                "false"@
            },
        ),
{
}

/// A sensor that changed and holds a value, among the first `n`, has its
/// message among the messages of the first `n` sensors.
pub proof fn lemma_pending_messages_contain(
    bike_id: Seq<char>,
    fields: Seq<FieldState<SensorValue>>,
    n: int,
    k: int,
)
    requires
        0 <= k < n <= fields.len(),
        fields[k].pending() is Some,
    ensures
        pending_messages(bike_id, fields, n).contains(
            MqttDataView { topic: sensor_topic(bike_id, k), payload: fields[k].pending()->0 },
        ),
    decreases n,
{
    let x = MqttDataView { topic: sensor_topic(bike_id, k), payload: fields[k].pending()->0 };
    let before = pending_messages(bike_id, fields, n - 1);
    let now = pending_messages(bike_id, fields, n);
    if k == n - 1 {
        assert(now[now.len() - 1] == x);
    } else {
        lemma_pending_messages_contain(bike_id, fields, n - 1, k);
        let j = choose|j: int| 0 <= j < before.len() && before[j] == x;
        match fields[n - 1].pending() {
            Some(p) => assert(now[j] == x),
            None => assert(now[j] == x),
        }
    }
}

} // verus!
