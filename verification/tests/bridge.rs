use stromer2mqtt::mqtt::command_subscription_topic;
use stromer2mqtt::bridge::{
    configured_bike, detected_bike, BikeCommand, BridgeError, BridgeState,
};
use stromer2mqtt::changes::Reading;
use stromer2mqtt::hassdiscovery::{DiscoveryConfig, SENSOR_DEF_COUNT};
use stromer2mqtt::stromerapi::{BikeDetectInfo, BikeIdValue, BikePosition, BikeStatus};

fn reading(x: f64) -> Reading {
    Reading::new(x.to_bits(), x.to_string())
}

fn empty_status() -> BikeStatus {
    BikeStatus {
        assistance_level: None,
        atmospheric_pressure: None,
        average_energy_consumption: None,
        average_speed_total: None,
        average_speed_trip: None,
        battery_soc: Some(reading(80.0)),
        battery_health: None,
        battery_temp: None,
        bike_speed: None,
        motor_temp: None,
        power_on_cycles: None,
        speed: None,
        total_distance: None,
        total_energy_consumption: None,
        total_time: None,
        trip_distance: None,
        trip_time: None,
        light_on: None,
        lock_flag: Some(true),
        theft_flag: None,
        rcvts: None,
        timets: None,
        suiversion: None,
        tntversion: None,
    }
}

fn position(lat: Option<f64>, lng: Option<f64>) -> BikePosition {
    BikePosition {
        latitude: lat.map(reading),
        longitude: lng.map(reading),
        altitude: None,
        rcvts: None,
    }
}

fn state(hass: bool) -> BridgeState {
    BridgeState::new(configured_bike("12345".into()), "stromer", hass)
}

#[test]
fn bike_selection() {
    let sel = configured_bike("42".into());
    assert_eq!(sel.bike_id, "42");
    assert!(sel.bike_name.is_empty() && sel.bike_model.is_empty() && sel.maintenance.is_none());

    assert!(matches!(detected_bike(vec![]), Err(BridgeError::NoBikesDetected)));
    let bikes = vec![
        BikeDetectInfo {
            bike_id: BikeIdValue::Number("137011".into()),
            nickname: "Mine".into(),
            bike_type: "ST3".into(),
            bike_model: None,
            maintenance_feature: None,
        },
        BikeDetectInfo {
            bike_id: BikeIdValue::Text("2".into()),
            nickname: "Other".into(),
            bike_type: "ST1".into(),
            bike_model: Some("ST1 X".into()),
            maintenance_feature: None,
        },
    ];
    let sel = detected_bike(bikes).ok().expect("a bike");
    assert_eq!(sel.bike_id, "137011");
    assert_eq!(sel.bike_name, "Mine");
    assert_eq!(sel.bike_model, "ST3");
}

#[test]
fn first_poll_announces_discovery_once() {
    let mut s = state(true);
    assert_eq!(s.base_topic(), "stromer/");
    let plan = s.after_update(empty_status(), position(Some(52.0), Some(4.0)));
    let discovery = plan.discovery.expect("discovery on the first poll");
    assert_eq!(discovery.len(), SENSOR_DEF_COUNT + 3 + 2 + 1);
    match &discovery[SENSOR_DEF_COUNT + 3].config {
        DiscoveryConfig::Switch(sw) => assert_eq!(sw.command_topic, "stromer/stromer_12345/cmnd/lock"),
        _ => panic!("expected the lock switch"),
    }
    let pos = plan.position.expect("position");
    assert_eq!(pos.topic, "stromer/stromer_12345/position");
    assert_eq!(pos.latitude.text, "52");
    assert!(pos.altitude.is_none());
    let topics: Vec<(String, String)> =
        plan.updates.iter().map(|d| (d.topic.clone(), d.payload.clone())).collect();
    assert_eq!(
        topics,
        vec![
            ("stromer/stromer_12345/battery_soc".to_string(), "80".to_string()),
            ("stromer/stromer_12345/lock_flag".to_string(), "true".to_string()),
            ("stromer/stromer_12345/latitude".to_string(), "52".to_string()),
            ("stromer/stromer_12345/longitude".to_string(), "4".to_string()),
        ]
    );
    s.after_discovery_publish(true);
    let plan = s.after_update(empty_status(), position(Some(52.0), None));
    assert!(plan.discovery.is_none());
    assert!(plan.position.is_none());
    assert!(plan.updates.is_empty());
}

#[test]
fn discovery_off_announces_nothing() {
    let mut s = state(false);
    let plan = s.after_update(empty_status(), position(None, None));
    assert!(plan.discovery.is_none());
    assert_eq!(plan.updates.len(), 2);
}

#[test]
fn reset_then_poll_republishes() {
    let mut s = state(false);
    let _ = s.after_update(empty_status(), position(None, None));
    s.reset_status();
    let plan = s.after_update(empty_status(), position(None, None));
    assert_eq!(plan.updates.len(), 2);
}

#[test]
fn commands() {
    let s = state(true);
    assert!(matches!(
        s.parse_command("stromer/stromer_12345/cmnd/lock", " on "),
        Ok(BikeCommand::Lock(true))
    ));
    assert!(matches!(
        s.parse_command("stromer/stromer_12345/cmnd/lock", "OFF"),
        Ok(BikeCommand::Lock(false))
    ));
    match s.parse_command("stromer/stromer_12345/cmnd/light", "On") {
        Ok(BikeCommand::Light(mode)) => assert_eq!(mode, "on"),
        _ => panic!("expected the light on"),
    }
    match s.parse_command("stromer/stromer_12345/cmnd/light", "off\n") {
        Ok(BikeCommand::Light(mode)) => assert_eq!(mode, "off"),
        _ => panic!("expected the light off"),
    }
    match s.parse_command("stromer/stromer_12345/cmnd/lock", "maybe") {
        Err(BridgeError::InvalidLockPayload(p)) => assert_eq!(p, "MAYBE"),
        _ => panic!("expected an invalid lock payload"),
    }
    match s.parse_command("stromer/stromer_12345/cmnd/light", "x") {
        Err(BridgeError::InvalidLightPayload(p)) => assert_eq!(p, "X"),
        _ => panic!("expected an invalid light payload"),
    }
    match s.parse_command("stromer/stromer_12345/cmnd/horn", "ON") {
        Err(BridgeError::UnknownCommandAction(a)) => assert_eq!(a, "horn"),
        _ => panic!("expected an unknown action"),
    }
    match s.parse_command("other/stromer_12345/cmnd/lock", "ON") {
        Err(BridgeError::UnexpectedCommandPath(t)) => assert_eq!(t, "other/stromer_12345/cmnd/lock"),
        _ => panic!("expected a topic outside the base"),
    }
    match s.parse_command("stromer/stromer_12345/set/lock", "ON") {
        Err(BridgeError::InvalidCommandTopic(p)) => assert_eq!(p, "stromer_12345/set/lock"),
        _ => panic!("expected an invalid command topic"),
    }
    assert!(matches!(
        s.parse_command("stromer/a/b/cmnd/lock", "ON"),
        Err(BridgeError::InvalidCommandTopic(_))
    ));
}

#[test]
fn command_payload_loses_unicode_white_space() {
    let s = state(true);
    assert!(matches!(
        s.parse_command("stromer/stromer_12345/cmnd/lock", "\u{a0}\ton\u{3000}\r\n"),
        Ok(BikeCommand::Lock(true))
    ));
    match s.parse_command("stromer/stromer_12345/cmnd/lock", " o n ") {
        Err(BridgeError::InvalidLockPayload(p)) => assert_eq!(p, "O N"),
        _ => panic!("inner white space stays"),
    }
}

#[test]
fn command_for_another_bike_is_refused() {
    let s = state(true);
    match s.parse_command("stromer/stromer_999/cmnd/lock", "ON") {
        Err(BridgeError::InvalidCommandTopic(p)) => assert_eq!(p, "stromer_999/cmnd/lock"),
        _ => panic!("a command for another bike must not be taken"),
    }
    match s.parse_command("stromer/12345/cmnd/lock", "ON") {
        Err(BridgeError::InvalidCommandTopic(p)) => assert_eq!(p, "12345/cmnd/lock"),
        _ => panic!("the segment must be stromer_ and the bike id"),
    }
    assert!(matches!(
        s.parse_command("stromer/stromer_12345/cmnd/lock", "ON"),
        Ok(BikeCommand::Lock(true))
    ));
}

#[test]
fn subscribed_topics_are_commands_for_the_bike() {
    let s = state(true);
    let filter = command_subscription_topic(&"stromer".to_string(), "12345");
    assert!(filter.ends_with('+'));
    let topic = format!("{}light", &filter[..filter.len() - 1]);
    assert!(matches!(
        s.parse_command(&topic, "off"),
        Ok(BikeCommand::Light(_))
    ));
}

#[test]
fn failed_discovery_publish_is_not_announced_again() {
    let mut s = state(true);
    let plan = s.after_update(empty_status(), position(None, None));
    assert!(plan.discovery.is_some());
    s.after_discovery_publish(false);
    let plan = s.after_update(empty_status(), position(None, None));
    assert!(plan.discovery.is_none());
}

#[test]
fn poll_outcome_gives_availability() {
    let mut s = state(false);
    let _ = s.after_update(empty_status(), position(None, None));
    let base = "stromer".to_string();
    let online = s.after_poll_outcome(true, &base);
    assert_eq!(online.topic, "stromer/state");
    assert_eq!(online.payload, "online");
    assert!(online.retain);
    let plan = s.after_update(empty_status(), position(None, None));
    assert!(plan.updates.is_empty());
    let offline = s.after_poll_outcome(false, &base);
    assert_eq!(offline.topic, "stromer/state");
    assert_eq!(offline.payload, "offline");
    assert!(offline.retain);
    // the failed poll reset the sensors, so the next poll publishes again
    let plan = s.after_update(empty_status(), position(None, None));
    assert_eq!(plan.updates.len(), 2);
}
