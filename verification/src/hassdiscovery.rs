//! Home Assistant MQTT discovery: the configuration of every entity that
//! shows a bike in Home Assistant, and the topic it is announced on.
use vstd::prelude::*;
use vstd::string::*;

use crate::bike::{sensor_names, sensor_topic, StromerBike, SENSOR_COUNT};
use crate::text::{join2, join3, join4, join5, opt_text};

verus! {

/// The software that announces the entities.
pub struct Origin {
    pub name: String,
    pub sw: String,
    pub url: String,
}

/// The device that the entities belong to.
pub struct Device {
    pub name: String,
    pub identifiers: Vec<String>,
    pub model: String,
    pub manufacturer: String,
}

/// A sensor entity.
pub struct Sensor {
    pub origin: Origin,
    pub device: Device,
    pub name: String,
    pub obj_id: String,
    pub unique_id: String,
    pub state_topic: String,
    pub availability_topic: String,
    pub state_class: Option<String>,
    pub unit_of_measurement: Option<String>,
    pub icon: Option<String>,
    pub device_class: Option<String>,
    pub value_template: Option<String>,
}

/// A binary sensor entity.
pub struct BinarySensor {
    pub origin: Origin,
    pub device: Device,
    pub name: String,
    pub obj_id: String,
    pub unique_id: String,
    pub state_topic: String,
    pub availability_topic: String,
    pub device_class: Option<String>,
    pub icon: Option<String>,
    pub payload_on: String,
    pub payload_off: String,
}

/// A switch entity.
pub struct Switch {
    pub origin: Origin,
    pub device: Device,
    pub name: String,
    pub obj_id: String,
    pub unique_id: String,
    pub state_topic: String,
    pub availability_topic: String,
    pub command_topic: String,
    pub icon: Option<String>,
    pub payload_on: String,
    pub payload_off: String,
    pub state_on: String,
    pub state_off: String,
}

/// A device tracker entity.
pub struct DeviceTracker {
    pub origin: Origin,
    pub device: Device,
    pub name: String,
    pub obj_id: String,
    pub unique_id: String,
    pub json_attributes_topic: String,
    pub availability_topic: String,
    pub source_type: String,
}

/// The configuration of one entity.
pub enum DiscoveryConfig {
    Sensor(Sensor),
    BinarySensor(BinarySensor),
    Switch(Switch),
    DeviceTracker(DeviceTracker),
}

/// One discovery message: the topic it is published on and the entity's
/// configuration, which is published as its JSON payload.
pub struct DiscoveryMessage {
    pub topic: String,
    pub config: DiscoveryConfig,
}

pub struct OriginView {
    pub name: Seq<char>,
    pub sw: Seq<char>,
    pub url: Seq<char>,
}

pub struct DeviceView {
    pub name: Seq<char>,
    pub identifiers: Seq<Seq<char>>,
    pub model: Seq<char>,
    pub manufacturer: Seq<char>,
}

pub struct SensorView {
    pub origin: OriginView,
    pub device: DeviceView,
    pub name: Seq<char>,
    pub obj_id: Seq<char>,
    pub unique_id: Seq<char>,
    pub state_topic: Seq<char>,
    pub availability_topic: Seq<char>,
    pub state_class: Option<Seq<char>>,
    pub unit_of_measurement: Option<Seq<char>>,
    pub icon: Option<Seq<char>>,
    pub device_class: Option<Seq<char>>,
    pub value_template: Option<Seq<char>>,
}

pub struct BinarySensorView {
    pub origin: OriginView,
    pub device: DeviceView,
    pub name: Seq<char>,
    pub obj_id: Seq<char>,
    pub unique_id: Seq<char>,
    pub state_topic: Seq<char>,
    pub availability_topic: Seq<char>,
    pub device_class: Option<Seq<char>>,
    pub icon: Option<Seq<char>>,
    pub payload_on: Seq<char>,
    pub payload_off: Seq<char>,
}

pub struct SwitchView {
    pub origin: OriginView,
    pub device: DeviceView,
    pub name: Seq<char>,
    pub obj_id: Seq<char>,
    pub unique_id: Seq<char>,
    pub state_topic: Seq<char>,
    pub availability_topic: Seq<char>,
    pub command_topic: Seq<char>,
    pub icon: Option<Seq<char>>,
    pub payload_on: Seq<char>,
    pub payload_off: Seq<char>,
    pub state_on: Seq<char>,
    pub state_off: Seq<char>,
}

pub struct DeviceTrackerView {
    pub origin: OriginView,
    pub device: DeviceView,
    pub name: Seq<char>,
    pub obj_id: Seq<char>,
    pub unique_id: Seq<char>,
    pub json_attributes_topic: Seq<char>,
    pub availability_topic: Seq<char>,
    pub source_type: Seq<char>,
}

pub enum DiscoveryConfigView {
    Sensor(SensorView),
    BinarySensor(BinarySensorView),
    Switch(SwitchView),
    DeviceTracker(DeviceTrackerView),
}

pub struct DiscoveryMessageView {
    pub topic: Seq<char>,
    pub config: DiscoveryConfigView,
}

impl View for Origin {
    type V = OriginView;

    open spec fn view(&self) -> OriginView {
        OriginView { name: self.name@, sw: self.sw@, url: self.url@ }
    }
}

impl View for Device {
    type V = DeviceView;

    open spec fn view(&self) -> DeviceView {
        DeviceView {
            name: self.name@,
            identifiers: self.identifiers@.map_values(|s: String| s@),
            model: self.model@,
            manufacturer: self.manufacturer@,
        }
    }
}

impl View for Sensor {
    type V = SensorView;

    open spec fn view(&self) -> SensorView {
        SensorView {
            origin: self.origin@,
            device: self.device@,
            name: self.name@,
            obj_id: self.obj_id@,
            unique_id: self.unique_id@,
            state_topic: self.state_topic@,
            availability_topic: self.availability_topic@,
            state_class: opt_text(self.state_class),
            unit_of_measurement: opt_text(self.unit_of_measurement),
            icon: opt_text(self.icon),
            device_class: opt_text(self.device_class),
            value_template: opt_text(self.value_template),
        }
    }
}

impl View for BinarySensor {
    type V = BinarySensorView;

    open spec fn view(&self) -> BinarySensorView {
        BinarySensorView {
            origin: self.origin@,
            device: self.device@,
            name: self.name@,
            obj_id: self.obj_id@,
            unique_id: self.unique_id@,
            state_topic: self.state_topic@,
            availability_topic: self.availability_topic@,
            device_class: opt_text(self.device_class),
            icon: opt_text(self.icon),
            payload_on: self.payload_on@,
            payload_off: self.payload_off@,
        }
    }
}

impl View for Switch {
    type V = SwitchView;

    open spec fn view(&self) -> SwitchView {
        SwitchView {
            origin: self.origin@,
            device: self.device@,
            name: self.name@,
            obj_id: self.obj_id@,
            unique_id: self.unique_id@,
            state_topic: self.state_topic@,
            availability_topic: self.availability_topic@,
            command_topic: self.command_topic@,
            icon: opt_text(self.icon),
            payload_on: self.payload_on@,
            payload_off: self.payload_off@,
            state_on: self.state_on@,
            state_off: self.state_off@,
        }
    }
}

impl View for DeviceTracker {
    type V = DeviceTrackerView;

    open spec fn view(&self) -> DeviceTrackerView {
        DeviceTrackerView {
            origin: self.origin@,
            device: self.device@,
            name: self.name@,
            obj_id: self.obj_id@,
            unique_id: self.unique_id@,
            json_attributes_topic: self.json_attributes_topic@,
            availability_topic: self.availability_topic@,
            source_type: self.source_type@,
        }
    }
}

impl View for DiscoveryConfig {
    type V = DiscoveryConfigView;

    open spec fn view(&self) -> DiscoveryConfigView {
        match self {
            DiscoveryConfig::Sensor(c) => DiscoveryConfigView::Sensor(c@),
            DiscoveryConfig::BinarySensor(c) => DiscoveryConfigView::BinarySensor(c@),
            DiscoveryConfig::Switch(c) => DiscoveryConfigView::Switch(c@),
            DiscoveryConfig::DeviceTracker(c) => DiscoveryConfigView::DeviceTracker(c@),
        }
    }
}

impl View for DiscoveryMessage {
    type V = DiscoveryMessageView;

    open spec fn view(&self) -> DiscoveryMessageView {
        DiscoveryMessageView { topic: self.topic@, config: self.config@ }
    }
}

/// The plain contents of a list of discovery messages.
pub open spec fn discovery_view(v: Seq<DiscoveryMessage>) -> Seq<DiscoveryMessageView> {
    v.map_values(|m: DiscoveryMessage| m@)
}

/// The prefix of every discovery topic.
pub open spec fn hass_discovery_topic() -> Seq<char> {
    "homeassistant"@
}

/// The name of this program.
pub open spec fn package_name() -> Seq<char> {
    "stromer2mqtt"@
}

/// The version of this program.
pub open spec fn package_version() -> Seq<char> {
    "0.1.0"@
}

/// The origin of every discovery message.
pub open spec fn origin_view() -> OriginView {
    OriginView {
        name: package_name(),
        sw: package_version(),
        url: "https://github.com/dirkvdb/stromer2mqtt"@,
    }
}

impl Origin {
    pub fn stromer2mqtt() -> (r: Origin)
        ensures
            r@ == origin_view(),
    {
        Origin {
            name: "stromer2mqtt".to_string(),
            sw: "0.1.0".to_string(),
            url: "https://github.com/dirkvdb/stromer2mqtt".to_string(),
        }
    }
}

/// The device of a bike with id `id`, name `name` and model `model`.
pub open spec fn device_view(id: Seq<char>, name: Seq<char>, model: Seq<char>) -> DeviceView {
    DeviceView {
        name: "Stromer "@ + name,
        identifiers: seq!["stromer_"@ + id],
        model: model,
        manufacturer: "Stromer"@,
    }
}

fn make_device(bike: &StromerBike) -> (d: Device)
    ensures
        d@ == device_view(bike@.id, bike@.name, bike@.model),
{
    let mut identifiers: Vec<String> = Vec::new();
    identifiers.push(join2("stromer_", bike.bike_id()));
    let d = Device {
        name: join2("Stromer ", bike.bike_name()),
        identifiers,
        model: bike.bike_model().to_string(),
        manufacturer: "Stromer".to_string(),
    };
    proof {
        assert(d@.identifiers =~= seq!["stromer_"@ + bike@.id]);
    }
    d
}

/// The definition of a sensor entity.
pub struct SensorDef {
    pub field: &'static str,
    pub name: &'static str,
    pub unit: Option<&'static str>,
    pub device_class: Option<&'static str>,
    pub state_class: Option<&'static str>,
    pub icon: Option<&'static str>,
}

pub struct SensorDefView {
    pub field: Seq<char>,
    pub name: Seq<char>,
    pub unit: Option<Seq<char>>,
    pub device_class: Option<Seq<char>>,
    pub state_class: Option<Seq<char>>,
    pub icon: Option<Seq<char>>,
}

/// The text of an optional static string.
pub open spec fn opt_str(o: Option<&str>) -> Option<Seq<char>> {
    match o {
        Some(s) => Some(s@),
        None => None,
    }
}

impl View for SensorDef {
    type V = SensorDefView;

    open spec fn view(&self) -> SensorDefView {
        SensorDefView {
            field: self.field@,
            name: self.name@,
            unit: opt_str(self.unit),
            device_class: opt_str(self.device_class),
            state_class: opt_str(self.state_class),
            icon: opt_str(self.icon),
        }
    }
}

/// The number of sensor entities.
pub const SENSOR_DEF_COUNT: usize = 28;

/// The number of binary sensor entities.
pub const BINARY_SENSOR_DEF_COUNT: usize = 3;

/// The number of switch entities.
pub const SWITCH_DEF_COUNT: usize = 2;

pub open spec fn sdef(
    field: Seq<char>,
    name: Seq<char>,
    unit: Option<Seq<char>>,
    device_class: Option<Seq<char>>,
    state_class: Option<Seq<char>>,
    icon: Option<Seq<char>>,
) -> SensorDefView {
    SensorDefView { field, name, unit, device_class, state_class, icon }
}

/// The sensor entities, in the order in which they are announced.
pub open spec fn sensor_defs() -> Seq<SensorDefView> {
    seq![
        sdef("assistance_level"@, "Assistance Level"@, Some("%"@), None, Some("measurement"@), Some("mdi:bike"@)),
        sdef("atmospheric_pressure"@, "Atmospheric Pressure"@, Some("bar"@), Some("pressure"@), Some("measurement"@), None),
        sdef("average_energy_consumption"@, "Average Energy Consumption"@, Some("Wh"@), Some("energy"@), Some("total"@), None),
        sdef("average_speed_total"@, "Average Speed Total"@, Some("km/h"@), None, Some("measurement"@), Some("mdi:speedometer"@)),
        sdef("average_speed_trip"@, "Average Speed Trip"@, Some("km/h"@), None, Some("measurement"@), Some("mdi:speedometer"@)),
        sdef("battery_soc"@, "Battery SOC"@, Some("%"@), Some("battery"@), Some("measurement"@), Some("mdi:battery"@)),
        sdef("battery_health"@, "Battery Health"@, Some("%"@), None, Some("measurement"@), Some("mdi:battery-heart-variant"@)),
        sdef("battery_temp"@, "Battery Temperature"@, Some("°C"@), Some("temperature"@), Some("measurement"@), None),
        sdef("bike_speed"@, "Bike Speed"@, Some("km/h"@), None, Some("measurement"@), Some("mdi:speedometer"@)),
        sdef("motor_temp"@, "Motor Temperature"@, Some("°C"@), Some("temperature"@), Some("measurement"@), None),
        sdef("power_on_cycles"@, "Power On Cycles"@, None, None, Some("total_increasing"@), Some("mdi:counter"@)),
        sdef("speed"@, "Speed"@, Some("km/h"@), None, Some("measurement"@), Some("mdi:speedometer"@)),
        sdef("total_distance"@, "Total Distance"@, Some("km"@), None, Some("total_increasing"@), Some("mdi:map-marker-distance"@)),
        sdef("total_energy_consumption"@, "Total Energy Consumption"@, Some("Wh"@), Some("energy"@), Some("total_increasing"@), None),
        sdef("total_time"@, "Total Time"@, Some("s"@), None, Some("total_increasing"@), Some("mdi:timer"@)),
        sdef("trip_distance"@, "Trip Distance"@, Some("km"@), None, Some("measurement"@), Some("mdi:map-marker-distance"@)),
        sdef("trip_time"@, "Trip Time"@, None, None, Some("measurement"@), Some("mdi:timer"@)),
        sdef("altitude"@, "Altitude"@, Some("m"@), Some("distance"@), Some("measurement"@), Some("mdi:elevation-rise"@)),
        sdef("rcvts"@, "Receive Timestamp"@, None, Some("timestamp"@), None, None),
        sdef("rcvts_pos"@, "Position Timestamp"@, None, Some("timestamp"@), None, None),
        sdef("timets"@, "Time Timestamp"@, None, Some("timestamp"@), None, None),
        sdef("suiversion"@, "SUI Version"@, None, None, None, Some("mdi:chip"@)),
        sdef("tntversion"@, "TNT Version"@, None, None, None, Some("mdi:chip"@)),
        sdef("next_maintenance_date"@, "Next Maintenance Date"@, None, None, None, Some("mdi:calendar-wrench"@)),
        sdef("next_maintenance_km"@, "Next Maintenance Distance"@, Some("km"@), None, Some("measurement"@), Some("mdi:map-marker-distance"@)),
        sdef("next_maintenance_interval"@, "Maintenance Interval"@, Some("km"@), None, None, Some("mdi:wrench-clock"@)),
        sdef("last_maintenance_reset_date"@, "Last Maintenance Date"@, None, None, None, Some("mdi:calendar-check"@)),
        sdef("last_maintenance_reset_km"@, "Last Maintenance Distance"@, Some("km"@), None, None, Some("mdi:map-marker-check"@)),
    ]
}

fn sd(
    field: &'static str,
    name: &'static str,
    unit: Option<&'static str>,
    device_class: Option<&'static str>,
    state_class: Option<&'static str>,
    icon: Option<&'static str>,
) -> (d: SensorDef)
    ensures
        d@ == sdef(field@, name@, opt_str(unit), opt_str(device_class), opt_str(state_class), opt_str(icon)),
{
    SensorDef { field, name, unit, device_class, state_class, icon }
}

/// The definition of sensor entity `i`.
pub fn sensor_def(i: usize) -> (d: SensorDef)
    requires
        i < SENSOR_DEF_COUNT,
    ensures
        d@ == sensor_defs()[i as int],
{
    match i {
        0 => sd("assistance_level", "Assistance Level", Some("%"), None, Some("measurement"), Some("mdi:bike")),
        1 => sd("atmospheric_pressure", "Atmospheric Pressure", Some("bar"), Some("pressure"), Some("measurement"), None),
        2 => sd("average_energy_consumption", "Average Energy Consumption", Some("Wh"), Some("energy"), Some("total"), None),
        3 => sd("average_speed_total", "Average Speed Total", Some("km/h"), None, Some("measurement"), Some("mdi:speedometer")),
        4 => sd("average_speed_trip", "Average Speed Trip", Some("km/h"), None, Some("measurement"), Some("mdi:speedometer")),
        5 => sd("battery_soc", "Battery SOC", Some("%"), Some("battery"), Some("measurement"), Some("mdi:battery")),
        6 => sd("battery_health", "Battery Health", Some("%"), None, Some("measurement"), Some("mdi:battery-heart-variant")),
        7 => sd("battery_temp", "Battery Temperature", Some("°C"), Some("temperature"), Some("measurement"), None),
        8 => sd("bike_speed", "Bike Speed", Some("km/h"), None, Some("measurement"), Some("mdi:speedometer")),
        9 => sd("motor_temp", "Motor Temperature", Some("°C"), Some("temperature"), Some("measurement"), None),
        10 => sd("power_on_cycles", "Power On Cycles", None, None, Some("total_increasing"), Some("mdi:counter")),
        11 => sd("speed", "Speed", Some("km/h"), None, Some("measurement"), Some("mdi:speedometer")),
        12 => sd("total_distance", "Total Distance", Some("km"), None, Some("total_increasing"), Some("mdi:map-marker-distance")),
        13 => sd("total_energy_consumption", "Total Energy Consumption", Some("Wh"), Some("energy"), Some("total_increasing"), None),
        14 => sd("total_time", "Total Time", Some("s"), None, Some("total_increasing"), Some("mdi:timer")),
        15 => sd("trip_distance", "Trip Distance", Some("km"), None, Some("measurement"), Some("mdi:map-marker-distance")),
        16 => sd("trip_time", "Trip Time", None, None, Some("measurement"), Some("mdi:timer")),
        17 => sd("altitude", "Altitude", Some("m"), Some("distance"), Some("measurement"), Some("mdi:elevation-rise")),
        18 => sd("rcvts", "Receive Timestamp", None, Some("timestamp"), None, None),
        19 => sd("rcvts_pos", "Position Timestamp", None, Some("timestamp"), None, None),
        20 => sd("timets", "Time Timestamp", None, Some("timestamp"), None, None),
        21 => sd("suiversion", "SUI Version", None, None, None, Some("mdi:chip")),
        22 => sd("tntversion", "TNT Version", None, None, None, Some("mdi:chip")),
        23 => sd("next_maintenance_date", "Next Maintenance Date", None, None, None, Some("mdi:calendar-wrench")),
        24 => sd("next_maintenance_km", "Next Maintenance Distance", Some("km"), None, Some("measurement"), Some("mdi:map-marker-distance")),
        25 => sd("next_maintenance_interval", "Maintenance Interval", Some("km"), None, None, Some("mdi:wrench-clock")),
        26 => sd("last_maintenance_reset_date", "Last Maintenance Date", None, None, None, Some("mdi:calendar-check")),
        _ => sd("last_maintenance_reset_km", "Last Maintenance Distance", Some("km"), None, None, Some("mdi:map-marker-check")),
    }
}

/// The definition of a binary sensor entity.
pub struct BinarySensorDefView {
    pub field: Seq<char>,
    pub name: Seq<char>,
    pub icon_on: Seq<char>,
    pub icon_off: Seq<char>,
}

/// The binary sensor entities, in the order in which they are announced.
pub open spec fn binary_sensor_defs() -> Seq<BinarySensorDefView> {
    seq![
        BinarySensorDefView { field: "light_on"@, name: "Light"@, icon_on: "mdi:lightbulb"@, icon_off: "mdi:lightbulb-off"@ },
        BinarySensorDefView { field: "lock_flag"@, name: "Lock"@, icon_on: "mdi:lock"@, icon_off: "mdi:lock-open"@ },
        BinarySensorDefView { field: "theft_flag"@, name: "Theft"@, icon_on: "mdi:alarm-light"@, icon_off: "mdi:shield-moon"@ },
    ]
}

/// Field, name and icon of binary sensor entity `i`.
fn binary_sensor_def(i: usize) -> (r: (&'static str, &'static str, &'static str))
    requires
        i < BINARY_SENSOR_DEF_COUNT,
    ensures
        r.0@ == binary_sensor_defs()[i as int].field,
        r.1@ == binary_sensor_defs()[i as int].name,
        r.2@ == binary_sensor_defs()[i as int].icon_on,
{
    match i {
        0 => ("light_on", "Light", "mdi:lightbulb"),
        1 => ("lock_flag", "Lock", "mdi:lock"),
        _ => ("theft_flag", "Theft", "mdi:alarm-light"),
    }
}

/// The definition of a switch entity.
pub struct SwitchDefView {
    pub field: Seq<char>,
    pub name: Seq<char>,
    pub icon: Seq<char>,
    pub command_action: Seq<char>,
}

/// The switch entities, in the order in which they are announced.
pub open spec fn switch_defs() -> Seq<SwitchDefView> {
    seq![
        SwitchDefView { field: "lock_flag"@, name: "Lock"@, icon: "mdi:lock"@, command_action: "lock"@ },
        SwitchDefView { field: "light_on"@, name: "Light"@, icon: "mdi:light-flood-down"@, command_action: "light"@ },
    ]
}

/// Field, name, icon and command of switch entity `i`.
fn switch_def(i: usize) -> (r: (&'static str, &'static str, &'static str, &'static str))
    requires
        i < SWITCH_DEF_COUNT,
    ensures
        r.0@ == switch_defs()[i as int].field,
        r.1@ == switch_defs()[i as int].name,
        r.2@ == switch_defs()[i as int].icon,
        r.3@ == switch_defs()[i as int].command_action,
{
    match i {
        0 => ("lock_flag", "Lock", "mdi:lock", "lock"),
        _ => ("light_on", "Light", "mdi:light-flood-down", "light"),
    }
}

/// The state topic of the bike's field `field` under `base`.
pub open spec fn state_topic_of(base: Seq<char>, id: Seq<char>, field: Seq<char>) -> Seq<char> {
    base + "stromer_"@ + id + "/"@ + field
}

/// The availability topic under `base`.
pub open spec fn availability_topic_of(base: Seq<char>) -> Seq<char> {
    base + "state"@
}

/// The command topic of the action `action` of the bike `id` under `base`.
pub open spec fn command_topic_of(base: Seq<char>, id: Seq<char>, action: Seq<char>) -> Seq<char> {
    base + "stromer_"@ + id + "/cmnd/"@ + action
}

/// The discovery topic of an entity of kind `kind` with id `unique_id`.
pub open spec fn discovery_topic_of(kind: Seq<char>, unique_id: Seq<char>) -> Seq<char> {
    hass_discovery_topic() + "/"@ + kind + "/"@ + unique_id + "/config"@
}

/// The discovery message of sensor entity `i`.
pub open spec fn sensor_message(
    id: Seq<char>,
    name: Seq<char>,
    model: Seq<char>,
    base: Seq<char>,
    i: int,
) -> DiscoveryMessageView {
    let def = sensor_defs()[i];
    let unique_id = "stromer_"@ + id + "_"@ + def.field;
    DiscoveryMessageView {
        topic: discovery_topic_of("sensor"@, unique_id),
        config: DiscoveryConfigView::Sensor(
            SensorView {
                origin: origin_view(),
                device: device_view(id, name, model),
                name: def.name,
                obj_id: unique_id,
                unique_id: unique_id,
                state_topic: state_topic_of(base, id, def.field),
                availability_topic: availability_topic_of(base),
                state_class: def.state_class,
                unit_of_measurement: def.unit,
                icon: def.icon,
                device_class: def.device_class,
                value_template: None,
            },
        ),
    }
}

/// The discovery message of binary sensor entity `i`.
pub open spec fn binary_sensor_message(
    id: Seq<char>,
    name: Seq<char>,
    model: Seq<char>,
    base: Seq<char>,
    i: int,
) -> DiscoveryMessageView {
    let def = binary_sensor_defs()[i];
    let unique_id = "stromer_"@ + id + "_"@ + def.field;
    DiscoveryMessageView {
        topic: discovery_topic_of("binary_sensor"@, unique_id),
        config: DiscoveryConfigView::BinarySensor(
            BinarySensorView {
                origin: origin_view(),
                device: device_view(id, name, model),
                name: def.name,
                obj_id: unique_id,
                unique_id: unique_id,
                state_topic: state_topic_of(base, id, def.field),
                availability_topic: availability_topic_of(base),
                device_class: None,
                icon: Some(def.icon_on),
                payload_on: "true"@,
                payload_off: "false"@,
            },
        ),
    }
}

/// The discovery message of switch entity `i`.
pub open spec fn switch_message(
    id: Seq<char>,
    name: Seq<char>,
    model: Seq<char>,
    base: Seq<char>,
    i: int,
) -> DiscoveryMessageView {
    let def = switch_defs()[i];
    let unique_id = "stromer_"@ + id + "_"@ + def.field + "_sw"@;
    DiscoveryMessageView {
        topic: discovery_topic_of("switch"@, unique_id),
        config: DiscoveryConfigView::Switch(
            SwitchView {
                origin: origin_view(),
                device: device_view(id, name, model),
                name: def.name,
                obj_id: unique_id,
                unique_id: unique_id,
                state_topic: state_topic_of(base, id, def.field),
                availability_topic: availability_topic_of(base),
                command_topic: command_topic_of(base, id, def.command_action),
                icon: Some(def.icon),
                payload_on: "ON"@,
                payload_off: "OFF"@,
                state_on: "true"@,
                state_off: "false"@,
            },
        ),
    }
}

/// The discovery message of the device tracker.
pub open spec fn device_tracker_message(
    id: Seq<char>,
    name: Seq<char>,
    model: Seq<char>,
    base: Seq<char>,
) -> DiscoveryMessageView {
    let unique_id = "stromer_"@ + id + "_location"@;
    DiscoveryMessageView {
        topic: discovery_topic_of("device_tracker"@, unique_id),
        config: DiscoveryConfigView::DeviceTracker(
            DeviceTrackerView {
                origin: origin_view(),
                device: device_view(id, name, model),
                name: "Location"@,
                obj_id: unique_id,
                unique_id: unique_id,
                json_attributes_topic: base + "stromer_"@ + id + "/position"@,
                availability_topic: availability_topic_of(base),
                source_type: "gps"@,
            },
        ),
    }
}

/// All discovery messages of a bike: the sensors, the binary sensors, the
/// switches and the device tracker, in this order.
pub open spec fn discovery_messages(
    id: Seq<char>,
    name: Seq<char>,
    model: Seq<char>,
    base: Seq<char>,
) -> Seq<DiscoveryMessageView> {
    Seq::new(SENSOR_DEF_COUNT as nat, |i: int| sensor_message(id, name, model, base, i)) + Seq::new(
        BINARY_SENSOR_DEF_COUNT as nat,
        |i: int| binary_sensor_message(id, name, model, base, i),
    ) + Seq::new(SWITCH_DEF_COUNT as nat, |i: int| switch_message(id, name, model, base, i))
        + seq![device_tracker_message(id, name, model, base)]
}

fn opt_string(o: Option<&str>) -> (r: Option<String>)
    ensures
        opt_text(r) == opt_str(o),
{
    match o {
        Some(s) => Some(s.to_string()),
        None => None,
    }
}

pub fn create_sensor_messages(bike: &StromerBike, base_topic: &str) -> (r: Vec<DiscoveryMessage>)
    ensures
        discovery_view(r@) == Seq::new(
            SENSOR_DEF_COUNT as nat,
            |i: int| sensor_message(bike@.id, bike@.name, bike@.model, base_topic@, i),
        ),
{
    let mut messages: Vec<DiscoveryMessage> = Vec::new();
    let bike_id = bike.bike_id();
    let mut i: usize = 0;
    while i < SENSOR_DEF_COUNT
        invariant
            i <= SENSOR_DEF_COUNT,
            bike_id@ == bike@.id,
            discovery_view(messages@) == Seq::new(
                i as nat,
                |k: int| sensor_message(bike@.id, bike@.name, bike@.model, base_topic@, k),
            ),
        decreases SENSOR_DEF_COUNT - i,
    {
        let def = sensor_def(i);
        let unique_id = join4("stromer_", bike_id, "_", def.field);
        let sensor = Sensor {
            origin: Origin::stromer2mqtt(),
            device: make_device(bike),
            name: def.name.to_string(),
            obj_id: unique_id.clone(),
            unique_id: unique_id.clone(),
            state_topic: join5(base_topic, "stromer_", bike_id, "/", def.field),
            availability_topic: join2(base_topic, "state"),
            state_class: opt_string(def.state_class),
            unit_of_measurement: opt_string(def.unit),
            icon: opt_string(def.icon),
            device_class: opt_string(def.device_class),
            value_template: None,
        };
        let topic = join4("homeassistant", "/sensor/", unique_id.as_str(), "/config");
        let ghost before = discovery_view(messages@);
        messages.push(DiscoveryMessage { topic, config: DiscoveryConfig::Sensor(sensor) });
        proof {
            assert("homeassistant"@ + "/sensor/"@ + unique_id@ + "/config"@ =~= discovery_topic_of(
                "sensor"@,
                unique_id@,
            )) by {
                reveal_strlit("/sensor/");
                reveal_strlit("/");
                reveal_strlit("sensor");
            }
            assert(discovery_view(messages@) =~= before.push(
                sensor_message(bike@.id, bike@.name, bike@.model, base_topic@, i as int),
            ));
            assert(discovery_view(messages@) =~= Seq::new(
                (i + 1) as nat,
                |k: int| sensor_message(bike@.id, bike@.name, bike@.model, base_topic@, k),
            ));
        }
        i = i + 1;
    }
    messages
}

pub fn create_binary_sensor_messages(bike: &StromerBike, base_topic: &str) -> (r: Vec<
    DiscoveryMessage,
>)
    ensures
        discovery_view(r@) == Seq::new(
            BINARY_SENSOR_DEF_COUNT as nat,
            |i: int| binary_sensor_message(bike@.id, bike@.name, bike@.model, base_topic@, i),
        ),
{
    let mut messages: Vec<DiscoveryMessage> = Vec::new();
    let bike_id = bike.bike_id();
    let mut i: usize = 0;
    while i < BINARY_SENSOR_DEF_COUNT
        invariant
            i <= BINARY_SENSOR_DEF_COUNT,
            bike_id@ == bike@.id,
            discovery_view(messages@) == Seq::new(
                i as nat,
                |k: int| binary_sensor_message(bike@.id, bike@.name, bike@.model, base_topic@, k),
            ),
        decreases BINARY_SENSOR_DEF_COUNT - i,
    {
        let (field, name, icon_on) = binary_sensor_def(i);
        let unique_id = join4("stromer_", bike_id, "_", field);
        let binary_sensor = BinarySensor {
            origin: Origin::stromer2mqtt(),
            device: make_device(bike),
            name: name.to_string(),
            obj_id: unique_id.clone(),
            unique_id: unique_id.clone(),
            state_topic: join5(base_topic, "stromer_", bike_id, "/", field),
            availability_topic: join2(base_topic, "state"),
            device_class: None,
            icon: Some(icon_on.to_string()),
            payload_on: "true".to_string(),
            payload_off: "false".to_string(),
        };
        let topic = join4("homeassistant", "/binary_sensor/", unique_id.as_str(), "/config");
        let ghost before = discovery_view(messages@);
        messages.push(
            DiscoveryMessage { topic, config: DiscoveryConfig::BinarySensor(binary_sensor) },
        );
        proof {
            assert("homeassistant"@ + "/binary_sensor/"@ + unique_id@ + "/config"@
                =~= discovery_topic_of("binary_sensor"@, unique_id@)) by {
                reveal_strlit("/binary_sensor/");
                reveal_strlit("/");
                reveal_strlit("binary_sensor");
            }
            assert(discovery_view(messages@) =~= before.push(
                binary_sensor_message(bike@.id, bike@.name, bike@.model, base_topic@, i as int),
            ));
            assert(discovery_view(messages@) =~= Seq::new(
                (i + 1) as nat,
                |k: int| binary_sensor_message(bike@.id, bike@.name, bike@.model, base_topic@, k),
            ));
        }
        i = i + 1;
    }
    messages
}

pub fn create_switch_messages(bike: &StromerBike, base_topic: &str) -> (r: Vec<DiscoveryMessage>)
    ensures
        discovery_view(r@) == Seq::new(
            SWITCH_DEF_COUNT as nat,
            |i: int| switch_message(bike@.id, bike@.name, bike@.model, base_topic@, i),
        ),
{
    let mut messages: Vec<DiscoveryMessage> = Vec::new();
    let bike_id = bike.bike_id();
    let mut i: usize = 0;
    while i < SWITCH_DEF_COUNT
        invariant
            i <= SWITCH_DEF_COUNT,
            bike_id@ == bike@.id,
            discovery_view(messages@) == Seq::new(
                i as nat,
                |k: int| switch_message(bike@.id, bike@.name, bike@.model, base_topic@, k),
            ),
        decreases SWITCH_DEF_COUNT - i,
    {
        let (field, name, icon, command_action) = switch_def(i);
        let mut unique_id = join4("stromer_", bike_id, "_", field);
        unique_id.append("_sw");
        let mut command_topic = join4(base_topic, "stromer_", bike_id, "/cmnd/");
        command_topic.append(command_action);
        let switch = Switch {
            origin: Origin::stromer2mqtt(),
            device: make_device(bike),
            name: name.to_string(),
            obj_id: unique_id.clone(),
            unique_id: unique_id.clone(),
            state_topic: join5(base_topic, "stromer_", bike_id, "/", field),
            availability_topic: join2(base_topic, "state"),
            command_topic,
            icon: Some(icon.to_string()),
            payload_on: "ON".to_string(),
            payload_off: "OFF".to_string(),
            state_on: "true".to_string(),
            state_off: "false".to_string(),
        };
        let topic = join4("homeassistant", "/switch/", unique_id.as_str(), "/config");
        let ghost before = discovery_view(messages@);
        messages.push(DiscoveryMessage { topic, config: DiscoveryConfig::Switch(switch) });
        proof {
            assert("homeassistant"@ + "/switch/"@ + unique_id@ + "/config"@ =~= discovery_topic_of(
                "switch"@,
                unique_id@,
            )) by {
                reveal_strlit("/switch/");
                reveal_strlit("/");
                reveal_strlit("switch");
            }
            assert(discovery_view(messages@) =~= before.push(
                switch_message(bike@.id, bike@.name, bike@.model, base_topic@, i as int),
            ));
            assert(discovery_view(messages@) =~= Seq::new(
                (i + 1) as nat,
                |k: int| switch_message(bike@.id, bike@.name, bike@.model, base_topic@, k),
            ));
        }
        i = i + 1;
    }
    messages
}

pub fn create_device_tracker_message(bike: &StromerBike, base_topic: &str) -> (r: DiscoveryMessage)
    ensures
        r@ == device_tracker_message(bike@.id, bike@.name, bike@.model, base_topic@),
{
    let bike_id = bike.bike_id();
    let unique_id = join3("stromer_", bike_id, "_location");
    let tracker = DeviceTracker {
        origin: Origin::stromer2mqtt(),
        device: make_device(bike),
        name: "Location".to_string(),
        obj_id: unique_id.clone(),
        unique_id: unique_id.clone(),
        json_attributes_topic: join4(base_topic, "stromer_", bike_id, "/position"),
        availability_topic: join2(base_topic, "state"),
        source_type: "gps".to_string(),
    };
    let topic = join4("homeassistant", "/device_tracker/", unique_id.as_str(), "/config");
    proof {
        assert("homeassistant"@ + "/device_tracker/"@ + unique_id@ + "/config"@ =~= discovery_topic_of(
            "device_tracker"@,
            unique_id@,
        )) by {
            reveal_strlit("/device_tracker/");
            reveal_strlit("/");
            reveal_strlit("device_tracker");
        }
    }
    DiscoveryMessage { topic, config: DiscoveryConfig::DeviceTracker(tracker) }
}

/// Generate all Home Assistant MQTT discovery configurations for the given
/// bike: one for each sensor, binary sensor and switch, and one for the device
/// tracker, each with the topic it is announced on.
pub fn create_discovery_messages(bike: &StromerBike, base_topic: &str) -> (r: Vec<DiscoveryMessage>)
    ensures
        discovery_view(r@) == discovery_messages(bike@.id, bike@.name, bike@.model, base_topic@),
{
    let mut messages = create_sensor_messages(bike, base_topic);
    let mut binary = create_binary_sensor_messages(bike, base_topic);
    let mut switches = create_switch_messages(bike, base_topic);
    let ghost a = discovery_view(messages@);
    let ghost b = discovery_view(binary@);
    let ghost c = discovery_view(switches@);
    messages.append(&mut binary);
    messages.append(&mut switches);
    let tracker = create_device_tracker_message(bike, base_topic);
    messages.push(tracker);
    proof {
        assert(discovery_view(messages@) =~= a + b + c + seq![
            device_tracker_message(bike@.id, bike@.name, bike@.model, base_topic@),
        ]);
    }
    messages
}

/// The topic that a discovered entity shows: the state topic of a sensor,
/// binary sensor or switch, the attributes topic of the device tracker.
pub open spec fn entity_state_topic(m: DiscoveryMessageView) -> Option<Seq<char>> {
    match m.config {
        DiscoveryConfigView::Sensor(c) => Some(c.state_topic),
        DiscoveryConfigView::BinarySensor(c) => Some(c.state_topic),
        DiscoveryConfigView::Switch(c) => Some(c.state_topic),
        DiscoveryConfigView::DeviceTracker(c) => Some(c.json_attributes_topic),
    }
}

proof fn lemma_state_topic_is_sensor_topic(base: Seq<char>, id: Seq<char>, k: int)
    requires
        0 <= k < SENSOR_COUNT,
    ensures
        state_topic_of(base, id, sensor_names()[k]) == base + sensor_topic(id, k),
{
    assert(state_topic_of(base, id, sensor_names()[k]) =~= base + sensor_topic(id, k));
}

/// Every entity that discovery announces shows a topic the bike publishes
/// under the base topic: each sensor, binary sensor and switch the topic of
/// one of the bike's sensors (the lock switch the `lock_flag` sensor, the
/// light switch the `light_on` sensor), the device tracker the position
/// topic.
pub proof fn law_discovery_shows_published_topics(
    id: Seq<char>,
    name: Seq<char>,
    model: Seq<char>,
    base: Seq<char>,
)
    ensures
        forall|i: int|
            #![trigger sensor_message(id, name, model, base, i)]
            0 <= i < SENSOR_DEF_COUNT ==> exists|k: int|
                0 <= k < SENSOR_COUNT && entity_state_topic(sensor_message(id, name, model, base, i))
                    == Some(base + #[trigger] sensor_topic(id, k)),
        forall|i: int|
            #![trigger binary_sensor_message(id, name, model, base, i)]
            0 <= i < BINARY_SENSOR_DEF_COUNT ==> exists|k: int|
                0 <= k < SENSOR_COUNT && entity_state_topic(
                    binary_sensor_message(id, name, model, base, i),
                ) == Some(base + #[trigger] sensor_topic(id, k)),
        forall|i: int|
            #![trigger switch_message(id, name, model, base, i)]
            0 <= i < SWITCH_DEF_COUNT ==> exists|k: int|
                0 <= k < SENSOR_COUNT && entity_state_topic(switch_message(id, name, model, base, i))
                    == Some(base + #[trigger] sensor_topic(id, k)),
        entity_state_topic(switch_message(id, name, model, base, 0)) == Some(
            base + sensor_topic(id, 22),
        ),
        sensor_names()[22] == "lock_flag"@,
        entity_state_topic(switch_message(id, name, model, base, 1)) == Some(
            base + sensor_topic(id, 21),
        ),
        sensor_names()[21] == "light_on"@,
        entity_state_topic(device_tracker_message(id, name, model, base)) == Some(
            base + "stromer_"@ + id + "/position"@,
        ),
{
    assert forall|i: int| #![trigger sensor_message(id, name, model, base, i)] 0 <= i < SENSOR_DEF_COUNT implies exists|k: int|
        0 <= k < SENSOR_COUNT && entity_state_topic(sensor_message(id, name, model, base, i))
            == Some(base + #[trigger] sensor_topic(id, k)) by {
        if i == 0 {
            lemma_state_topic_is_sensor_topic(base, id, 2);
            assert(entity_state_topic(sensor_message(id, name, model, base, 0)) == Some(base + sensor_topic(id, 2)));
        } else if i == 1 {
            lemma_state_topic_is_sensor_topic(base, id, 3);
            assert(entity_state_topic(sensor_message(id, name, model, base, 1)) == Some(base + sensor_topic(id, 3)));
        } else if i == 2 {
            lemma_state_topic_is_sensor_topic(base, id, 4);
            assert(entity_state_topic(sensor_message(id, name, model, base, 2)) == Some(base + sensor_topic(id, 4)));
        } else if i == 3 {
            lemma_state_topic_is_sensor_topic(base, id, 5);
            assert(entity_state_topic(sensor_message(id, name, model, base, 3)) == Some(base + sensor_topic(id, 5)));
        } else if i == 4 {
            lemma_state_topic_is_sensor_topic(base, id, 6);
            assert(entity_state_topic(sensor_message(id, name, model, base, 4)) == Some(base + sensor_topic(id, 6)));
        } else if i == 5 {
            lemma_state_topic_is_sensor_topic(base, id, 7);
            assert(entity_state_topic(sensor_message(id, name, model, base, 5)) == Some(base + sensor_topic(id, 7)));
        } else if i == 6 {
            lemma_state_topic_is_sensor_topic(base, id, 8);
            assert(entity_state_topic(sensor_message(id, name, model, base, 6)) == Some(base + sensor_topic(id, 8)));
        } else if i == 7 {
            lemma_state_topic_is_sensor_topic(base, id, 9);
            assert(entity_state_topic(sensor_message(id, name, model, base, 7)) == Some(base + sensor_topic(id, 9)));
        } else if i == 8 {
            lemma_state_topic_is_sensor_topic(base, id, 10);
            assert(entity_state_topic(sensor_message(id, name, model, base, 8)) == Some(base + sensor_topic(id, 10)));
        } else if i == 9 {
            lemma_state_topic_is_sensor_topic(base, id, 11);
            assert(entity_state_topic(sensor_message(id, name, model, base, 9)) == Some(base + sensor_topic(id, 11)));
        } else if i == 10 {
            lemma_state_topic_is_sensor_topic(base, id, 12);
            assert(entity_state_topic(sensor_message(id, name, model, base, 10)) == Some(base + sensor_topic(id, 12)));
        } else if i == 11 {
            lemma_state_topic_is_sensor_topic(base, id, 13);
            assert(entity_state_topic(sensor_message(id, name, model, base, 11)) == Some(base + sensor_topic(id, 13)));
        } else if i == 12 {
            lemma_state_topic_is_sensor_topic(base, id, 14);
            assert(entity_state_topic(sensor_message(id, name, model, base, 12)) == Some(base + sensor_topic(id, 14)));
        } else if i == 13 {
            lemma_state_topic_is_sensor_topic(base, id, 15);
            assert(entity_state_topic(sensor_message(id, name, model, base, 13)) == Some(base + sensor_topic(id, 15)));
        } else if i == 14 {
            lemma_state_topic_is_sensor_topic(base, id, 16);
            assert(entity_state_topic(sensor_message(id, name, model, base, 14)) == Some(base + sensor_topic(id, 16)));
        } else if i == 15 {
            lemma_state_topic_is_sensor_topic(base, id, 17);
            assert(entity_state_topic(sensor_message(id, name, model, base, 15)) == Some(base + sensor_topic(id, 17)));
        } else if i == 16 {
            lemma_state_topic_is_sensor_topic(base, id, 18);
            assert(entity_state_topic(sensor_message(id, name, model, base, 16)) == Some(base + sensor_topic(id, 18)));
        } else if i == 17 {
            lemma_state_topic_is_sensor_topic(base, id, 26);
            assert(entity_state_topic(sensor_message(id, name, model, base, 17)) == Some(base + sensor_topic(id, 26)));
        } else if i == 18 {
            lemma_state_topic_is_sensor_topic(base, id, 19);
            assert(entity_state_topic(sensor_message(id, name, model, base, 18)) == Some(base + sensor_topic(id, 19)));
        } else if i == 19 {
            lemma_state_topic_is_sensor_topic(base, id, 27);
            assert(entity_state_topic(sensor_message(id, name, model, base, 19)) == Some(base + sensor_topic(id, 27)));
        } else if i == 20 {
            lemma_state_topic_is_sensor_topic(base, id, 20);
            assert(entity_state_topic(sensor_message(id, name, model, base, 20)) == Some(base + sensor_topic(id, 20)));
        } else if i == 21 {
            lemma_state_topic_is_sensor_topic(base, id, 0);
            assert(entity_state_topic(sensor_message(id, name, model, base, 21)) == Some(base + sensor_topic(id, 0)));
        } else if i == 22 {
            lemma_state_topic_is_sensor_topic(base, id, 1);
            assert(entity_state_topic(sensor_message(id, name, model, base, 22)) == Some(base + sensor_topic(id, 1)));
        } else if i == 23 {
            lemma_state_topic_is_sensor_topic(base, id, 28);
            assert(entity_state_topic(sensor_message(id, name, model, base, 23)) == Some(base + sensor_topic(id, 28)));
        } else if i == 24 {
            lemma_state_topic_is_sensor_topic(base, id, 29);
            assert(entity_state_topic(sensor_message(id, name, model, base, 24)) == Some(base + sensor_topic(id, 29)));
        } else if i == 25 {
            lemma_state_topic_is_sensor_topic(base, id, 30);
            assert(entity_state_topic(sensor_message(id, name, model, base, 25)) == Some(base + sensor_topic(id, 30)));
        } else if i == 26 {
            lemma_state_topic_is_sensor_topic(base, id, 31);
            assert(entity_state_topic(sensor_message(id, name, model, base, 26)) == Some(base + sensor_topic(id, 31)));
        } else if i == 27 {
            lemma_state_topic_is_sensor_topic(base, id, 32);
            assert(entity_state_topic(sensor_message(id, name, model, base, 27)) == Some(base + sensor_topic(id, 32)));
        }
    }
    assert forall|i: int| #![trigger binary_sensor_message(id, name, model, base, i)] 0 <= i < BINARY_SENSOR_DEF_COUNT implies exists|k: int|
        0 <= k < SENSOR_COUNT && entity_state_topic(binary_sensor_message(id, name, model, base, i))
            == Some(base + #[trigger] sensor_topic(id, k)) by {
        if i == 0 {
            lemma_state_topic_is_sensor_topic(base, id, 21);
            assert(entity_state_topic(binary_sensor_message(id, name, model, base, 0)) == Some(base + sensor_topic(id, 21)));
        } else if i == 1 {
            lemma_state_topic_is_sensor_topic(base, id, 22);
            assert(entity_state_topic(binary_sensor_message(id, name, model, base, 1)) == Some(base + sensor_topic(id, 22)));
        } else if i == 2 {
            lemma_state_topic_is_sensor_topic(base, id, 23);
            assert(entity_state_topic(binary_sensor_message(id, name, model, base, 2)) == Some(base + sensor_topic(id, 23)));
        }
    }
    assert forall|i: int| #![trigger switch_message(id, name, model, base, i)] 0 <= i < SWITCH_DEF_COUNT implies exists|k: int|
        0 <= k < SENSOR_COUNT && entity_state_topic(switch_message(id, name, model, base, i))
            == Some(base + #[trigger] sensor_topic(id, k)) by {
        if i == 0 {
            lemma_state_topic_is_sensor_topic(base, id, 22);
            assert(entity_state_topic(switch_message(id, name, model, base, 0)) == Some(base + sensor_topic(id, 22)));
        } else if i == 1 {
            lemma_state_topic_is_sensor_topic(base, id, 21);
            assert(entity_state_topic(switch_message(id, name, model, base, 1)) == Some(base + sensor_topic(id, 21)));
        }
    }
    lemma_state_topic_is_sensor_topic(base, id, 22);
    lemma_state_topic_is_sensor_topic(base, id, 21);
}

} // verus!
