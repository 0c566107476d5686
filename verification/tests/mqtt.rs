use std::cmp::Ordering;
use stromer2mqtt::mqtt::{
    availability_message, command_subscription_topic, connection_settings, from_mqtt_string,
    handle_mqtt_event, state_topic, EventOutcome, MqttConfig, MqttData, MqttError, MqttEvent, Qos,
};

fn config(user: &str) -> MqttConfig {
    MqttConfig {
        server: "192.168.1.2".into(),
        port: 1883,
        client_id: "stromer2mqtt".into(),
        user: user.into(),
        password: "pw".into(),
        base_topic: "home/stromer".into(),
    }
}

#[test]
fn mqtt_data_new() {
    let d = MqttData::new("a/b", "1");
    assert_eq!(d, MqttData { topic: "a/b".into(), payload: "1".into() });
}

#[test]
fn state_and_command_topics() {
    assert_eq!(state_topic(&"stromer".to_string()), "stromer/state");
    assert_eq!(
        command_subscription_topic(&"stromer".to_string(), "12345"),
        "stromer/stromer_12345/cmnd/+"
    );
    let online = availability_message(&"stromer".to_string(), true);
    assert_eq!(online.topic, "stromer/state");
    assert_eq!(online.payload, "online");
    assert_eq!(online.qos, Qos::AtLeastOnce);
    assert!(online.retain);
    let offline = availability_message(&"stromer".to_string(), false);
    assert_eq!(offline.payload, "offline");
    assert!(offline.retain);
}

#[test]
fn connection_settings_of_config() {
    let s = connection_settings(config("mqttuser"));
    assert_eq!(s.client_id, "stromer2mqtt");
    assert_eq!(s.server, "192.168.1.2");
    assert_eq!(s.port, 1883);
    assert!(s.clean_start);
    assert_eq!(s.keep_alive_secs, 180);
    assert_eq!(s.last_will.topic, "home/stromer/state");
    assert_eq!(s.last_will.payload, "offline");
    assert_eq!(s.last_will.qos, Qos::AtLeastOnce);
    assert!(s.last_will.retain);
    assert_eq!(s.credentials, Some(("mqttuser".to_string(), "pw".to_string())));
    assert_eq!(s.request_capacity, 1000);
    assert_eq!(connection_settings(config("")).credentials, None);
}

#[test]
fn mqtt_events() {
    assert!(matches!(
        handle_mqtt_event(MqttEvent::ConnAck { success: true, session_present: false }),
        Ok(EventOutcome::Subscribe)
    ));
    assert!(matches!(
        handle_mqtt_event(MqttEvent::ConnAck { success: true, session_present: true }),
        Ok(EventOutcome::SessionResumed)
    ));
    assert!(matches!(
        handle_mqtt_event(MqttEvent::ConnAck { success: false, session_present: false }),
        Ok(EventOutcome::ConnectionRefused)
    ));
    match handle_mqtt_event(MqttEvent::Publish {
        topic: b"stromer/stromer_1/cmnd/lock".to_vec(),
        payload: "ON \u{e9}".as_bytes().to_vec(),
    }) {
        Ok(EventOutcome::Message(m)) => {
            assert_eq!(m.topic, "stromer/stromer_1/cmnd/lock");
            assert_eq!(m.payload, "ON \u{e9}");
        }
        _ => panic!("expected a message"),
    }
    assert!(matches!(
        handle_mqtt_event(MqttEvent::Publish { topic: vec![0xff], payload: vec![] }),
        Err(MqttError::InvalidUtf8)
    ));
    assert!(matches!(handle_mqtt_event(MqttEvent::Outgoing), Ok(EventOutcome::Nothing)));
    assert!(matches!(handle_mqtt_event(MqttEvent::OtherIncoming), Ok(EventOutcome::Nothing)));
    assert!(from_mqtt_string(vec![0xc3, 0x28]).is_err());
}

#[test]
fn messages_are_ordered_by_topic() {
    let a = MqttData::new("stromer/a", "x");
    let b = MqttData::new("stromer/b", "a");
    assert!(a < b);
    assert!(b > a);
    assert_eq!(
        MqttData::new("t", "1").partial_cmp(&MqttData::new("t", "2")),
        Some(Ordering::Equal)
    );
    assert!(MqttData::new("ab", "") > MqttData::new("a", ""));
    assert!(MqttData::new("", "") < MqttData::new("a", ""));
    assert!(MqttData::new("\u{e9}", "") > MqttData::new("z", ""));
}
