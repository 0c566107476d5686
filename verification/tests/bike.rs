use stromer2mqtt::bike::StromerBike;
use stromer2mqtt::changes::{Reading, TrackedField};
use stromer2mqtt::stromerapi::{BikePosition, BikeStatus, MaintenanceInfo};

fn reading(x: f64) -> Reading {
    Reading::new(x.to_bits(), x.to_string())
}

fn make_full_status() -> BikeStatus {
    BikeStatus {
        assistance_level: Some(reading(50.0)),
        atmospheric_pressure: Some(reading(1.013)),
        average_energy_consumption: Some(reading(12.5)),
        average_speed_total: Some(reading(22.3)),
        average_speed_trip: Some(reading(18.7)),
        battery_soc: Some(reading(85.0)),
        battery_health: Some(reading(97.0)),
        battery_temp: Some(reading(23.5)),
        bike_speed: Some(reading(0.0)),
        motor_temp: Some(reading(31.2)),
        power_on_cycles: Some(142),
        speed: Some(reading(0.0)),
        total_distance: Some(reading(3456.7)),
        total_energy_consumption: Some(reading(1234.5)),
        total_time: Some(123456),
        trip_distance: Some(reading(15.3)),
        trip_time: Some(3600),
        light_on: Some(false),
        lock_flag: Some(true),
        theft_flag: Some(false),
        rcvts: Some(1700000000),
        timets: Some(1700000100),
        suiversion: Some("4.9.2".to_string()),
        tntversion: Some("3.7.1".to_string()),
    }
}

fn make_bike() -> StromerBike {
    StromerBike::new("12345".into(), "MyBike".into(), "ST5".into(), None)
}

fn make_position() -> BikePosition {
    BikePosition {
        latitude: Some(reading(47.3769)),
        longitude: Some(reading(8.5417)),
        altitude: Some(reading(10.0)),
        rcvts: Some(1700000000),
    }
}

#[test]
fn test_update_status_returns_all_fields() {
    let mut bike = make_bike();
    bike.update_status(make_full_status());

    let topics = bike.topics_that_need_updating();

    // All 24 status fields should be present
    assert_eq!(topics.len(), 24);

    for topic in &topics {
        assert!(
            topic.topic.starts_with("stromer_12345/"),
            "Topic should start with stromer_12345/: {}",
            topic.topic
        );
    }

    let battery = topics.iter().find(|t| t.topic.ends_with("/battery_soc"));
    assert!(battery.is_some());
    assert_eq!(battery.expect("battery_soc topic").payload, "85");

    let lock = topics.iter().find(|t| t.topic.ends_with("/lock_flag"));
    assert!(lock.is_some());
    assert_eq!(lock.expect("lock_flag topic").payload, "true");
}

#[test]
fn test_second_update_with_same_data_returns_empty() {
    let mut bike = make_bike();
    bike.update_status(make_full_status());

    let _ = bike.topics_that_need_updating();

    bike.update_status(make_full_status());
    let topics = bike.topics_that_need_updating();
    assert!(
        topics.is_empty(),
        "Should return empty vec when data hasn't changed, got {} topics",
        topics.len()
    );
}

#[test]
fn test_second_update_with_one_changed_field() {
    let mut bike = make_bike();
    bike.update_status(make_full_status());

    let _ = bike.topics_that_need_updating();

    let mut status = make_full_status();
    status.battery_soc = Some(reading(42.0));
    bike.update_status(status);

    let topics = bike.topics_that_need_updating();
    assert_eq!(topics.len(), 1);
    assert_eq!(topics[0].topic, "stromer_12345/battery_soc");
    assert_eq!(topics[0].payload, "42");
}

#[test]
fn test_update_position() {
    let mut bike = make_bike();
    bike.update_position(make_position());

    let topics = bike.topics_that_need_updating();
    assert_eq!(topics.len(), 4);

    let lat = topics.iter().find(|t| t.topic.ends_with("/latitude"));
    assert!(lat.is_some());
    assert_eq!(lat.expect("latitude topic").payload, "47.3769");

    let lng = topics.iter().find(|t| t.topic.ends_with("/longitude"));
    assert!(lng.is_some());
    assert_eq!(lng.expect("longitude topic").payload, "8.5417");

    let alt = topics.iter().find(|t| t.topic.ends_with("/altitude"));
    assert!(alt.is_some());
    assert_eq!(alt.expect("altitude topic").payload, "10");

    // BikePosition::rcvts maps to rcvts_pos topic
    let rcvts = topics.iter().find(|t| t.topic.ends_with("/rcvts_pos"));
    assert!(rcvts.is_some());
    assert_eq!(rcvts.expect("rcvts_pos topic").payload, "1700000000");
}

#[test]
fn test_reset_causes_all_fields_to_republish() {
    let mut bike = make_bike();
    bike.update_status(make_full_status());
    bike.update_position(make_position());

    let _ = bike.topics_that_need_updating();

    // Reset marks all fields as modified, with no values
    bike.reset();

    let topics = bike.topics_that_need_updating();
    assert!(
        topics.is_empty(),
        "After reset, all values are None so no topics should be returned"
    );
}

#[test]
fn test_accessors() {
    let bike = make_bike();
    assert_eq!(bike.bike_id(), "12345");
    assert_eq!(bike.bike_name(), "MyBike");
    assert_eq!(bike.bike_model(), "ST5");
}

#[test]
fn test_update_maintenance() {
    let m = MaintenanceInfo {
        next_maintenance_date: Some("20261113".to_string()),
        next_maintenance_interval: Some(reading(1000.0)),
        next_maintenance_km: Some(reading(1000.0)),
        last_maintenance_reset_date: None,
        last_maintenance_reset_km: None,
    };

    let mut bike = StromerBike::new("12345".into(), "MyBike".into(), "ST5".into(), Some(m));
    let topics = bike.topics_that_need_updating();

    let next_date = topics
        .iter()
        .find(|t| t.topic.ends_with("/next_maintenance_date"));
    assert!(next_date.is_some());
    assert_eq!(next_date.unwrap().payload, "20261113");

    let next_km = topics
        .iter()
        .find(|t| t.topic.ends_with("/next_maintenance_km"));
    assert!(next_km.is_some());
    assert_eq!(next_km.unwrap().payload, "1000");

    let interval = topics
        .iter()
        .find(|t| t.topic.ends_with("/next_maintenance_interval"));
    assert!(interval.is_some());
    assert_eq!(interval.unwrap().payload, "1000");

    let last_date = topics
        .iter()
        .find(|t| t.topic.ends_with("/last_maintenance_reset_date"));
    assert!(last_date.is_none());

    let last_km = topics
        .iter()
        .find(|t| t.topic.ends_with("/last_maintenance_reset_km"));
    assert!(last_km.is_none());
}

#[test]
fn test_tracked_field_set_and_get() {
    let mut field: TrackedField<Reading> = TrackedField::new();
    assert!(!field.is_modified());
    assert_eq!(field.get_and_reset(), None);

    field.set(reading(42.0));
    assert!(field.is_modified());
    assert_eq!(field.get_and_reset(), Some("42".to_string()));
    assert!(!field.is_modified());
}

#[test]
fn test_tracked_field_no_change_on_same_value() {
    let mut field: TrackedField<Reading> = TrackedField::new();
    field.set(reading(42.0));
    let _ = field.get_and_reset();

    field.set(reading(42.0));
    assert!(!field.is_modified());
}

#[test]
fn test_tracked_field_set_option_none() {
    let mut field: TrackedField<Reading> = TrackedField::new();
    field.set_option(None);
    assert!(!field.is_modified());
}

#[test]
fn test_tracked_field_reset() {
    let mut field: TrackedField<Reading> = TrackedField::new();
    field.set(reading(42.0));
    let _ = field.get_and_reset();

    field.reset();
    assert!(field.is_modified());
    assert_eq!(field.get_and_reset(), None);
}

// Further cases of the library.

#[test]
fn tracked_field_zero_signs_are_equal() {
    let mut field: TrackedField<Reading> = TrackedField::new();
    field.set(reading(0.0));
    assert_eq!(field.get_and_reset(), Some("0".to_string()));
    field.set(reading(-0.0));
    assert!(!field.is_modified());
}

#[test]
fn tracked_field_nan_is_always_new() {
    let mut field: TrackedField<Reading> = TrackedField::new();
    field.set(reading(f64::NAN));
    let _ = field.get_and_reset();
    field.set(reading(f64::NAN));
    assert!(field.is_modified());
    assert_eq!(field.get_and_reset(), Some("NaN".to_string()));
}

#[test]
fn tracked_field_integer_and_text_rendering() {
    let mut count: TrackedField<u64> = TrackedField::new();
    count.set(0);
    assert_eq!(count.get_and_reset(), Some("0".to_string()));
    count.set(u64::MAX);
    assert_eq!(count.get_and_reset(), Some("18446744073709551615".to_string()));

    let mut stamp: TrackedField<i64> = TrackedField::new();
    stamp.set(-1700000000);
    assert_eq!(stamp.get_and_reset(), Some("-1700000000".to_string()));
    stamp.set(i64::MIN);
    assert_eq!(stamp.get_and_reset(), Some("-9223372036854775808".to_string()));

    let mut flag: TrackedField<bool> = TrackedField::new();
    flag.set(false);
    assert_eq!(flag.get_and_reset(), Some("false".to_string()));

    let mut text: TrackedField<String> = TrackedField::new();
    text.set("4.9.2".to_string());
    assert_eq!(text.get_and_reset(), Some("4.9.2".to_string()));
    text.set("4.9.2".to_string());
    assert!(!text.is_modified());
}

#[test]
fn bike_second_read_is_empty() {
    let mut bike = make_bike();
    bike.update_position(make_position());
    assert_eq!(bike.topics_that_need_updating().len(), 4);
    assert!(bike.topics_that_need_updating().is_empty());
}

#[test]
fn bike_topics_in_sensor_order() {
    let mut bike = make_bike();
    bike.update_status(make_full_status());
    bike.update_position(make_position());
    let topics = bike.topics_that_need_updating();
    assert_eq!(topics.len(), 28);
    assert_eq!(topics[0].topic, "stromer_12345/suiversion");
    assert_eq!(topics[0].payload, "4.9.2");
    assert_eq!(topics[12].topic, "stromer_12345/power_on_cycles");
    assert_eq!(topics[12].payload, "142");
    assert_eq!(topics[19].topic, "stromer_12345/rcvts");
    assert_eq!(topics[27].topic, "stromer_12345/rcvts_pos");
}

#[test]
fn bike_value_after_reset_is_published_again() {
    let mut bike = make_bike();
    bike.update_position(make_position());
    let _ = bike.topics_that_need_updating();
    bike.reset();
    bike.update_position(make_position());
    assert_eq!(bike.topics_that_need_updating().len(), 4);
}

#[test]
fn tracked_field_modified_since_last_read() {
    let mut field: TrackedField<u64> = TrackedField::new();
    assert!(!field.is_modified());
    field.set(7);
    field.set(7);
    assert!(field.is_modified());
    let _ = field.get_and_reset();
    field.set(7);
    field.set_option(None);
    assert!(!field.is_modified());
    field.set_option(Some(8));
    assert!(field.is_modified());
    let _ = field.get_and_reset();
    field.reset();
    assert!(field.is_modified());
    assert_eq!(field.get_and_reset(), None);
    assert!(!field.is_modified());
}
