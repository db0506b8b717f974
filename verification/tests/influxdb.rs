use matter_influx::attribute_values::AttributeValues;
use matter_influx::influxdb::{make_point, report_point};
use matter_influx::matter::{
    known_cluster_values, AttributePath, AttributeValue, ClusterValue, ClusterValueDetails,
};


/// The parts of a cluster value as the library holds it.
fn parts(value: ClusterValue) -> (u8, i128, u64) {
    match value {
        ClusterValue::Boolean(b) => (0, b as i128, 0),
        ClusterValue::Fraction { numerator, denominator } => (1, numerator, denominator),
        ClusterValue::Float { bits } => (2, bits as i128, 0),
    }
}

fn tags_of(tags: &[(&'static str, String)]) -> Vec<(String, String)> {
    tags.iter().map(|(k, v)| (k.to_string(), v.clone())).collect()
}

fn pairs(tags: &[(&str, &str)]) -> Vec<(String, String)> {
    tags.iter().map(|(k, v)| (k.to_string(), v.to_string())).collect()
}

#[test]
fn point_for_a_temperature() {
    let details = ClusterValueDetails {
        name: "Temperature",
        value: ClusterValue::Fraction { numerator: 2150, denominator: 100 },
        unit: Some("°C"),
    };
    let point = make_point(
        42,
        &Some("Kitchen".to_string()),
        1_700_000_000_123,
        &AttributePath { endpoint: 1, cluster: 0x0402, attribute: 0 },
        &details,
    );
    assert_eq!(point.measurement, "float");
    assert_eq!(point.timestamp, 1_700_000_000_123);
    assert_eq!(
        tags_of(&point.tags),
        pairs(&[
            ("device_id", "42"),
            ("endpoint_id", "1"),
            ("cluster_id", "0402"),
            ("attribute_id", "0000"),
            ("property_name", "Temperature"),
            ("device_name", "Kitchen"),
            ("unit", "°C"),
        ])
    );
    assert_eq!(parts(point.value), parts(details.value));
    assert_eq!(point.value_int, None);
}

#[test]
fn point_for_a_switch_without_label() {
    let details = ClusterValueDetails { name: "On", value: ClusterValue::Boolean(true), unit: None };
    let point = make_point(
        7,
        &None,
        5,
        &AttributePath { endpoint: 65535, cluster: 0x0006, attribute: 0 },
        &details,
    );
    assert_eq!(point.measurement, "boolean");
    assert_eq!(point.value_int, Some(1));
    assert_eq!(
        tags_of(&point.tags),
        pairs(&[
            ("device_id", "7"),
            ("endpoint_id", "65535"),
            ("cluster_id", "0006"),
            ("attribute_id", "0000"),
            ("property_name", "On"),
        ])
    );
    let off = ClusterValueDetails { name: "On", value: ClusterValue::Boolean(false), unit: None };
    let point = make_point(7, &None, 5, &AttributePath { endpoint: 0, cluster: 6, attribute: 0 }, &off);
    assert_eq!(point.value_int, Some(0));
}

#[test]
fn timestamp_keeps_the_low_bits() {
    let details = ClusterValueDetails { name: "On", value: ClusterValue::Boolean(true), unit: None };
    let millis: u128 = (1u128 << 64) + 17;
    let point = make_point(1, &None, millis, &AttributePath { endpoint: 0, cluster: 6, attribute: 0 }, &details);
    assert_eq!(point.timestamp, millis as i64);
}

#[test]
fn reports_of_unknown_attributes_write_nothing() {
    let none = report_point(
        1,
        &None,
        0,
        &AttributePath { endpoint: 0, cluster: 0x0006, attribute: 0 },
        &AttributeValue::Other,
        &AttributeValues::new(),
    );
    assert!(none.is_none());
    let some = report_point(
        1,
        &None,
        0,
        &AttributePath { endpoint: 0, cluster: 0x002F, attribute: 0x000C },
        &AttributeValue::Uint(200),
        &AttributeValues::new(),
    );
    let (details, point) = some.unwrap();
    assert_eq!(details.name, "Battery level");
    assert_eq!(parts(point.value), (1, 200, 2));
    assert_eq!(point.tags[2], ("cluster_id", "002f".to_string()));
    assert_eq!(point.tags[3], ("attribute_id", "000c".to_string()));
}

#[test]
fn logged_values_are_those_shown() {
    let unchanging = AttributeValues::from_pairs(vec![(
        AttributePath { endpoint: 1, cluster: 0x040D, attribute: 0x0008 },
        AttributeValue::Uint(1),
    )]);
    let reports = vec![
        (AttributePath { endpoint: 1, cluster: 0x040D, attribute: 0 }, AttributeValue::Float { bits: 3 }),
        (AttributePath { endpoint: 1, cluster: 0x040D, attribute: 0 }, AttributeValue::Int(3)),
        (AttributePath { endpoint: 2, cluster: 0x040D, attribute: 0 }, AttributeValue::Float { bits: 3 }),
        (AttributePath { endpoint: 1, cluster: 0x0405, attribute: 0 }, AttributeValue::Uint(4000)),
    ];
    let shown = known_cluster_values(&reports, &unchanging);
    let logged: Vec<_> = reports
        .iter()
        .filter_map(|(p, v)| report_point(9, &None, 0, p, v, &unchanging))
        .collect();
    assert_eq!(shown.len(), 2);
    assert_eq!(logged.len(), shown.len());
    for (s, (details, point)) in shown.iter().zip(logged.iter()) {
        assert_eq!(s.name, details.name);
        assert_eq!(parts(s.value), parts(point.value));
        assert!(point.tags.contains(&("property_name", s.name.to_string())));
    }
}
