use stromer2mqtt::bike::StromerBike;
use stromer2mqtt::hassdiscovery::{
    create_discovery_messages, DiscoveryConfig, DiscoveryMessage, BINARY_SENSOR_DEF_COUNT,
    SENSOR_DEF_COUNT, SWITCH_DEF_COUNT,
};

fn make_test_bike() -> StromerBike {
    StromerBike::new("12345".into(), "MyBike".into(), "ST5".into(), None)
}

fn device_of(msg: &DiscoveryMessage) -> &stromer2mqtt::hassdiscovery::Device {
    match &msg.config {
        DiscoveryConfig::Sensor(s) => &s.device,
        DiscoveryConfig::BinarySensor(s) => &s.device,
        DiscoveryConfig::Switch(s) => &s.device,
        DiscoveryConfig::DeviceTracker(s) => &s.device,
    }
}

#[test]
fn test_discovery_message_count() {
    let bike = make_test_bike();
    let messages = create_discovery_messages(&bike, "stromer/");

    let sensor_count = messages
        .iter()
        .filter(|m| m.topic.contains("/sensor/") && !m.topic.contains("/binary_sensor/"))
        .count();
    let binary_sensor_count = messages
        .iter()
        .filter(|m| m.topic.contains("/binary_sensor/"))
        .count();
    let switch_count = messages
        .iter()
        .filter(|m| m.topic.contains("/switch/"))
        .count();
    let tracker_count = messages
        .iter()
        .filter(|m| m.topic.contains("/device_tracker/"))
        .count();

    assert_eq!(sensor_count, SENSOR_DEF_COUNT, "Expected {} sensors", SENSOR_DEF_COUNT);
    assert_eq!(
        binary_sensor_count, BINARY_SENSOR_DEF_COUNT,
        "Expected {} binary sensors",
        BINARY_SENSOR_DEF_COUNT
    );
    assert_eq!(switch_count, SWITCH_DEF_COUNT, "Expected {} switches", SWITCH_DEF_COUNT);
    assert_eq!(tracker_count, 1, "Expected 1 device tracker");

    assert_eq!(
        messages.len(),
        SENSOR_DEF_COUNT + BINARY_SENSOR_DEF_COUNT + SWITCH_DEF_COUNT + 1
    );
}

#[test]
fn test_discovery_topic_format() {
    let bike = make_test_bike();
    let messages = create_discovery_messages(&bike, "stromer/");

    for msg in &messages {
        assert!(
            msg.topic.starts_with("homeassistant/"),
            "Discovery topic should start with homeassistant/: {}",
            msg.topic
        );
        assert!(
            msg.topic.ends_with("/config"),
            "Discovery topic should end with /config: {}",
            msg.topic
        );
    }
}

#[test]
fn test_sensor_payload_contains_required_fields() {
    let bike = make_test_bike();
    let messages = create_discovery_messages(&bike, "stromer/");

    let battery_msg = messages
        .iter()
        .find(|m| m.topic.contains("stromer_12345_battery_soc/config"))
        .expect("Should have battery_soc sensor");

    match &battery_msg.config {
        DiscoveryConfig::Sensor(payload) => {
            assert_eq!(payload.name, "Battery SOC");
            assert_eq!(payload.state_topic, "stromer/stromer_12345/battery_soc");
            assert_eq!(payload.availability_topic, "stromer/state");
            assert_eq!(payload.unit_of_measurement.as_deref(), Some("%"));
            assert_eq!(payload.device_class.as_deref(), Some("battery"));
            assert_eq!(payload.state_class.as_deref(), Some("measurement"));
            assert!(!payload.origin.name.is_empty());
            assert!(!payload.origin.sw.is_empty());
        }
        _ => panic!("battery_soc should be a sensor"),
    }
}

#[test]
fn test_binary_sensor_payload() {
    let bike = make_test_bike();
    let messages = create_discovery_messages(&bike, "stromer/");

    let light_msg = messages
        .iter()
        .find(|m| m.topic.contains("/binary_sensor/") && m.topic.contains("light_on"))
        .expect("Should have light_on binary sensor");

    match &light_msg.config {
        DiscoveryConfig::BinarySensor(payload) => {
            assert_eq!(payload.name, "Light");
            assert_eq!(payload.payload_on, "true");
            assert_eq!(payload.payload_off, "false");
            assert_eq!(payload.icon.as_deref(), Some("mdi:lightbulb"));
        }
        _ => panic!("light_on should be a binary sensor"),
    }
}

#[test]
fn test_switch_payload() {
    let bike = make_test_bike();
    let messages = create_discovery_messages(&bike, "stromer/");

    let lock_sw = messages
        .iter()
        .find(|m| m.topic.contains("/switch/") && m.topic.contains("lock_flag"))
        .expect("Should have lock_flag switch");

    match &lock_sw.config {
        DiscoveryConfig::Switch(payload) => {
            assert_eq!(payload.name, "Lock");
            assert_eq!(payload.command_topic, "stromer/stromer_12345/cmnd/lock");
            assert_eq!(payload.payload_on, "ON");
            assert_eq!(payload.payload_off, "OFF");
            assert_eq!(payload.state_on, "true");
            assert_eq!(payload.state_off, "false");
            assert_eq!(payload.icon.as_deref(), Some("mdi:lock"));
        }
        _ => panic!("lock_flag should be a switch"),
    }
}

#[test]
fn test_device_tracker_payload() {
    let bike = make_test_bike();
    let messages = create_discovery_messages(&bike, "stromer/");

    let tracker_msg = messages
        .iter()
        .find(|m| m.topic.contains("/device_tracker/"))
        .expect("Should have device tracker");

    match &tracker_msg.config {
        DiscoveryConfig::DeviceTracker(payload) => {
            assert_eq!(payload.name, "Location");
            assert_eq!(payload.json_attributes_topic, "stromer/stromer_12345/position");
            assert_eq!(payload.source_type, "gps");
        }
        _ => panic!("the tracker should be a device tracker"),
    }
}

#[test]
fn test_device_info_in_payloads() {
    let bike = make_test_bike();
    let messages = create_discovery_messages(&bike, "stromer/");

    for msg in &messages {
        let device = device_of(msg);
        assert_eq!(device.manufacturer, "Stromer");
        assert_eq!(device.model, "ST5");
        assert!(
            device.identifiers.contains(&"stromer_12345".to_string()),
            "Device identifiers should contain stromer_12345"
        );
    }
}

// Further cases of the library.

#[test]
fn discovery_topics_and_ids() {
    let bike = make_test_bike();
    let messages = create_discovery_messages(&bike, "stromer/");
    assert_eq!(messages[0].topic, "homeassistant/sensor/stromer_12345_assistance_level/config");
    assert_eq!(
        messages[SENSOR_DEF_COUNT].topic,
        "homeassistant/binary_sensor/stromer_12345_light_on/config"
    );
    assert_eq!(
        messages[SENSOR_DEF_COUNT + BINARY_SENSOR_DEF_COUNT + 1].topic,
        "homeassistant/switch/stromer_12345_light_on_sw/config"
    );
    assert_eq!(
        messages[messages.len() - 1].topic,
        "homeassistant/device_tracker/stromer_12345_location/config"
    );
    match &messages[0].config {
        DiscoveryConfig::Sensor(s) => {
            assert_eq!(s.obj_id, "stromer_12345_assistance_level");
            assert_eq!(s.unique_id, "stromer_12345_assistance_level");
            assert_eq!(s.icon.as_deref(), Some("mdi:bike"));
            assert_eq!(s.device_class, None);
            assert_eq!(s.value_template, None);
            assert_eq!(s.origin.name, "stromer2mqtt");
            assert_eq!(s.origin.url, "https://github.com/dirkvdb/stromer2mqtt");
            assert_eq!(s.device.name, "Stromer MyBike");
        }
        _ => panic!("the first message should be a sensor"),
    }
}
