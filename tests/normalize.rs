use homiegraf::normalize::{normalize, state_code, synonym, Reading};
use homiegraf::point::{build_point, build_points, point_for, PropertyChange};
use homiegraf::vocabulary::{
    current_mode_to_value, humidifier_mode_to_value, in_current_mode, in_humidifier_mode,
    in_target_fan_mode, in_target_mode, in_zone_priority, target_fan_mode_to_value,
    target_mode_to_value, zone_priority_to_value, Vocabulary,
};

fn read(raw: &str) -> Reading<f32> {
    normalize(raw, raw.parse::<f32>().ok())
}

fn change(device: &str, node: &str, property: &str, value: &str) -> PropertyChange<f32> {
    PropertyChange {
        device_id: device.to_string(),
        node_id: node.to_string(),
        property_id: property.to_string(),
        value: value.to_string(),
        parsed: value.parse::<f32>().ok(),
        fresh: false,
    }
}

#[test]
fn every_token_normalizes_to_its_first_vocabulary_code() {
    let order = Vocabulary::precedence();
    for (k, v) in order.iter().enumerate() {
        for (token, code) in v.entries() {
            let earlier = order[..k].iter().any(|u| u.contains(token));
            if !earlier {
                assert_eq!(read(token), Reading::Coded(code), "token {}", token);
            }
        }
    }
}

#[test]
fn shared_token_takes_the_first_vocabulary() {
    assert_eq!(read("auto"), Reading::Coded(10));
    assert_eq!(Vocabulary::TargetMode.code("auto"), Some(20));
    assert_eq!(Vocabulary::TargetFanMode.code("auto"), Some(10));
}

#[test]
fn numbers_round_trip() {
    for raw in ["21.5", "-3", "0", "1e3", "0.1", "72.25"] {
        let f: f32 = raw.parse().unwrap();
        assert_eq!(read(raw), Reading::Measured(f));
    }
}

#[test]
fn boolean_words() {
    assert_eq!(read("true"), Reading::Coded(10));
    assert_eq!(read("open"), Reading::Coded(10));
    assert_eq!(read("false"), Reading::Coded(0));
    assert_eq!(read("closed"), Reading::Coded(0));
    assert_eq!(synonym("True"), None);
}

#[test]
fn gibberish_is_unrecognized() {
    assert_eq!(read("gibberish"), Reading::Unrecognized);
    assert_eq!(read(""), Reading::Unrecognized);
    assert_eq!(state_code("gibberish"), None);
}

#[test]
fn cross_vocabulary_codes() {
    assert_eq!(read("heating_with_aux"), Reading::Coded(50));
    assert_eq!(read("h2"), Reading::Coded(22));
    assert_eq!(read("eheat"), Reading::Coded(50));
    assert_eq!(read("c2"), Reading::Coded(25));
    assert_eq!(read("comfort"), Reading::Coded(20));
}

#[test]
fn intermittent_fan_mode_has_a_code() {
    assert!(in_target_fan_mode("intermittent"));
    assert_eq!(target_fan_mode_to_value("intermittent"), Some(30));
    assert_eq!(read("intermittent"), Reading::Coded(30));
}

#[test]
fn membership_agrees_with_codes() {
    for s in ["lockout", "h3", "auto", "manual", "off", "economy", "continuous", "nope", ""] {
        assert_eq!(in_current_mode(s), current_mode_to_value(s).is_some());
        assert_eq!(in_humidifier_mode(s), humidifier_mode_to_value(s).is_some());
        assert_eq!(in_target_mode(s), target_mode_to_value(s).is_some());
        assert_eq!(in_target_fan_mode(s), target_fan_mode_to_value(s).is_some());
        assert_eq!(in_zone_priority(s), zone_priority_to_value(s).is_some());
    }
    assert_eq!(current_mode_to_value("waiting"), Some(80));
    assert_eq!(humidifier_mode_to_value("manual"), Some(20));
    assert_eq!(zone_priority_to_value("economy"), Some(10));
    assert_eq!(target_mode_to_value("cool"), Some(30));
    assert!(!in_current_mode("heat"));
}

#[test]
fn points_keep_their_identifiers() {
    let changes = vec![
        change("thermostat", "hvac", "mode", "h1"),
        change("valve", "zone", "state", "open"),
        change("", "", "", "12.5"),
    ];
    let points = build_points(&changes);
    assert_eq!(points.len(), 3);
    for (p, c) in points.iter().zip(changes.iter()) {
        assert_eq!(p.device_id, c.device_id);
        assert_eq!(p.node_id, c.node_id);
        assert_eq!(p.property_id, c.property_id);
    }
    assert_eq!(points[0].value, Reading::Coded(21));
    assert_eq!(points[1].value, Reading::Coded(10));
    assert_eq!(points[2].value, Reading::Measured(12.5));
}

#[test]
fn point_for_one_change() {
    let p = point_for(&change("d", "n", "p", "gibberish"));
    assert_eq!(p.value, Reading::Unrecognized);
    assert_eq!(p.device_id, "d");
    let q = build_point(Reading::Coded(40), String::new(), "n".to_string(), "p".to_string());
    assert_eq!(q.device_id, "");
    assert_eq!(q.value, Reading::<f32>::Coded(40));
    assert_eq!(Reading::Measured(4.5f32).duplicate(), Reading::Measured(4.5));
    let copy = q.duplicate();
    assert_eq!(copy.node_id, "n");
    assert_eq!(copy.value, Reading::Coded(40));
}
