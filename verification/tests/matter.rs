use matter_influx::attribute_values::AttributeValues;
use matter_influx::matter::{
    changing_attributes, known_cluster_values, unchanging_attributes, AttributePath,
    AttributeValue, ClusterValue, ClusterValueDetails, MeasurementUnit, ReadPath,
};


/// The parts of a cluster value as the library holds it.
fn parts(value: ClusterValue) -> (u8, i128, u64) {
    match value {
        ClusterValue::Boolean(b) => (0, b as i128, 0),
        ClusterValue::Fraction { numerator, denominator } => (1, numerator, denominator),
        ClusterValue::Float { bits } => (2, bits as i128, 0),
    }
}

fn path(endpoint: u16, cluster: u32, attribute: u32) -> AttributePath {
    AttributePath { endpoint, cluster, attribute }
}

fn units_on(endpoint: u16, pm25_unit: u64, co2_unit: u64) -> AttributeValues {
    AttributeValues::from_pairs(vec![
        (path(endpoint, 0x042A, 0x0008), AttributeValue::Uint(pm25_unit)),
        (path(endpoint, 0x040D, 0x0008), AttributeValue::Uint(co2_unit)),
    ])
}

#[test]
fn measurement_unit_from_uint_decodes_each_code() {
    let expected = [
        MeasurementUnit::Ppm,
        MeasurementUnit::Ppb,
        MeasurementUnit::Ppt,
        MeasurementUnit::Mgm3,
        MeasurementUnit::Ugm3,
        MeasurementUnit::Ngm3,
        MeasurementUnit::Pm3,
        MeasurementUnit::Bqm3,
    ];
    for (code, unit) in expected.iter().enumerate() {
        assert_eq!(MeasurementUnit::from_uint(code as u64), Some(*unit));
        assert_eq!(u16::from(*unit), code as u16);
    }
    assert_eq!(MeasurementUnit::from_uint(8), None);
    assert_eq!(MeasurementUnit::from_uint(u64::MAX), None);
}

#[test]
fn measurement_unit_short_symbols() {
    assert_eq!(MeasurementUnit::Ppm.short(), "PPM");
    assert_eq!(MeasurementUnit::Ppb.short(), "PPB");
    assert_eq!(MeasurementUnit::Ppt.short(), "PPT");
    assert_eq!(MeasurementUnit::Mgm3.short(), "mg/m³");
    assert_eq!(MeasurementUnit::Ugm3.short(), "μg/m³");
    assert_eq!(MeasurementUnit::Ngm3.short(), "ng/m³");
    assert_eq!(MeasurementUnit::Pm3.short(), "P/m³");
    assert_eq!(MeasurementUnit::Bqm3.short(), "Bq/m³");
}

#[test]
fn unit_code_round_trip() {
    for code in 0..8u64 {
        let unit = MeasurementUnit::from_uint(code).unwrap();
        assert_eq!(u64::from(u16::from(unit)), code);
    }
}

#[test]
fn attribute_values_keep_the_last_value_of_a_path() {
    let values = AttributeValues::from_pairs(vec![
        (path(1, 2, 3), AttributeValue::Uint(1)),
        (path(1, 2, 4), AttributeValue::Bool(true)),
        (path(1, 2, 3), AttributeValue::Int(-5)),
    ]);
    assert_eq!(values.get(&path(1, 2, 3)), Some(AttributeValue::Int(-5)));
    assert_eq!(values.get(&path(1, 2, 4)), Some(AttributeValue::Bool(true)));
    assert_eq!(values.get(&path(2, 2, 3)), None);
}

#[test]
fn attribute_values_insert_then_get() {
    let mut values = AttributeValues::new();
    assert_eq!(values.get(&path(0, 0, 0)), None);
    values.insert(path(0, 0, 0), AttributeValue::Other);
    values.insert(path(0, 0, 1), AttributeValue::Float { bits: 3 });
    values.insert(path(0, 0, 0), AttributeValue::Uint(9));
    assert_eq!(values.get(&path(0, 0, 0)), Some(AttributeValue::Uint(9)));
    assert_eq!(values.get(&path(0, 0, 1)), Some(AttributeValue::Float { bits: 3 }));
}

#[test]
fn on_off_is_a_boolean() {
    let details = ClusterValueDetails::for_attribute_value(
        &path(1, 0x0006, 0x0000),
        &AttributeValue::Bool(true),
        &AttributeValues::new(),
    )
    .unwrap();
    assert_eq!(details.name, "On");
    assert_eq!(parts(details.value), (0, 1, 0));
    assert_eq!(details.unit, None);
    assert!(ClusterValueDetails::for_attribute_value(
        &path(1, 0x0006, 0x0000),
        &AttributeValue::Uint(1),
        &AttributeValues::new(),
    )
    .is_none());
}

#[test]
fn battery_level_is_in_half_percent() {
    let details = ClusterValueDetails::for_attribute_value(
        &path(3, 0x002F, 0x000C),
        &AttributeValue::Uint(151),
        &AttributeValues::new(),
    )
    .unwrap();
    assert_eq!(details.name, "Battery level");
    assert_eq!(parts(details.value), (1, 151, 2));
    assert_eq!(details.unit, Some("%"));
}

#[test]
fn temperature_is_in_hundredths_of_a_degree() {
    let details = ClusterValueDetails::for_attribute_value(
        &path(1, 0x0402, 0x0000),
        &AttributeValue::Int(-1234),
        &AttributeValues::new(),
    )
    .unwrap();
    assert_eq!(details.name, "Temperature");
    assert_eq!(parts(details.value), (1, -1234, 100));
    assert_eq!(details.unit, Some("°C"));
}

#[test]
fn humidity_is_in_hundredths_of_a_percent() {
    let details = ClusterValueDetails::for_attribute_value(
        &path(1, 0x0405, 0x0000),
        &AttributeValue::Uint(u64::MAX),
        &AttributeValues::new(),
    )
    .unwrap();
    assert_eq!(details.name, "Humidity");
    assert_eq!(parts(details.value), (1, u64::MAX as i128, 100));
    assert_eq!(details.unit, Some("%"));
}

#[test]
fn concentrations_take_the_unit_of_their_endpoint() {
    let unchanging = units_on(2, 4, 0);
    let pm25 = ClusterValueDetails::for_attribute_value(
        &path(2, 0x042A, 0x0000),
        &AttributeValue::Float { bits: 0x4120_0000 },
        &unchanging,
    )
    .unwrap();
    assert_eq!(pm25.name, "PM2.5");
    assert_eq!(parts(pm25.value), (2, 0x4120_0000, 0));
    assert_eq!(pm25.unit, Some("μg/m³"));
    let co2 = ClusterValueDetails::for_attribute_value(
        &path(2, 0x040D, 0x0000),
        &AttributeValue::Float { bits: 1 },
        &unchanging,
    )
    .unwrap();
    assert_eq!(co2.name, "CO₂");
    assert_eq!(co2.unit, Some("PPM"));
    // No unit is known on another endpoint.
    assert!(ClusterValueDetails::for_attribute_value(
        &path(3, 0x040D, 0x0000),
        &AttributeValue::Float { bits: 1 },
        &unchanging,
    )
    .is_none());
}

#[test]
fn concentrations_without_a_known_unit_are_not_shown() {
    let unknown_code = units_on(1, 8, 99);
    assert!(ClusterValueDetails::for_attribute_value(
        &path(1, 0x042A, 0x0000),
        &AttributeValue::Float { bits: 1 },
        &unknown_code,
    )
    .is_none());
    let not_a_number = AttributeValues::from_pairs(vec![(
        path(1, 0x042A, 0x0008),
        AttributeValue::Int(0),
    )]);
    assert!(ClusterValueDetails::for_attribute_value(
        &path(1, 0x042A, 0x0000),
        &AttributeValue::Float { bits: 1 },
        &not_a_number,
    )
    .is_none());
    // A concentration must be a float.
    assert!(ClusterValueDetails::for_attribute_value(
        &path(1, 0x042A, 0x0000),
        &AttributeValue::Uint(1),
        &units_on(1, 0, 0),
    )
    .is_none());
}

#[test]
fn unknown_attributes_are_not_shown() {
    assert!(ClusterValueDetails::for_attribute_value(
        &path(1, 0x0006, 0x0001),
        &AttributeValue::Bool(true),
        &AttributeValues::new(),
    )
    .is_none());
    assert!(ClusterValueDetails::for_attribute_value(
        &path(1, 0x9999, 0x0000),
        &AttributeValue::Other,
        &AttributeValues::new(),
    )
    .is_none());
}

#[test]
fn known_cluster_values_keep_order_and_drop_unknown() {
    let changing = vec![
        (path(1, 0x0402, 0x0000), AttributeValue::Int(2000)),
        (path(1, 0x0006, 0x0000), AttributeValue::Uint(1)),
        (path(1, 0x0006, 0x0000), AttributeValue::Bool(false)),
        (path(1, 0x042A, 0x0000), AttributeValue::Float { bits: 5 }),
    ];
    let shown = known_cluster_values(&changing, &units_on(1, 3, 3));
    assert_eq!(shown.len(), 3);
    assert_eq!(shown[0].name, "Temperature");
    assert_eq!(shown[1].name, "On");
    assert_eq!(parts(shown[1].value), (0, 0, 0));
    assert_eq!(shown[2].name, "PM2.5");
    assert_eq!(shown[2].unit, Some("mg/m³"));
}

#[test]
fn read_paths_name_the_known_attributes() {
    let any = |cluster: u32, attribute: u32| ReadPath {
        endpoint: None,
        cluster: Some(cluster),
        attribute: Some(attribute),
    };
    assert_eq!(unchanging_attributes(), vec![any(0x042A, 0x0008), any(0x040D, 0x0008)]);
    assert_eq!(
        changing_attributes(),
        vec![
            any(0x0006, 0x0000),
            any(0x002F, 0x000C),
            any(0x0402, 0x0000),
            any(0x0405, 0x0000),
            any(0x042A, 0x0000),
            any(0x040D, 0x0000),
        ]
    );
}

#[test]
fn cluster_value_texts() {
    assert_eq!(ClusterValue::Boolean(true).datatype_str(), "boolean");
    assert_eq!(ClusterValue::Float { bits: 0 }.datatype_str(), "float");
    assert_eq!(
        ClusterValue::Fraction { numerator: 1, denominator: 2 }.datatype_str(),
        "float"
    );
    assert_eq!(ClusterValue::Boolean(true).fixed_text(), Some("on"));
    assert_eq!(ClusterValue::Boolean(false).fixed_text(), Some("off"));
    assert_eq!(ClusterValue::Float { bits: 0 }.fixed_text(), None);
}

#[test]
fn details_lines() {
    let temperature = ClusterValueDetails {
        name: "Temperature",
        value: ClusterValue::Fraction { numerator: 2150, denominator: 100 },
        unit: Some("°C"),
    };
    assert_eq!(temperature.describe("21.5"), "Temperature: 21.5 °C");
    let on = ClusterValueDetails { name: "On", value: ClusterValue::Boolean(true), unit: None };
    assert_eq!(on.describe(on.value.fixed_text().unwrap()), "On: on");
}

#[test]
fn only_the_unit_paths_of_unchanging_values_matter() {
    let plain = units_on(1, 5, 5);
    let mut cluttered = units_on(1, 5, 5);
    cluttered.insert(path(1, 0x042A, 0x0009), AttributeValue::Uint(1));
    cluttered.insert(path(2, 0x042A, 0x0008), AttributeValue::Uint(1));
    cluttered.insert(path(1, 0x0006, 0x0000), AttributeValue::Bool(false));
    for (p, v) in [
        (path(1, 0x042A, 0x0000), AttributeValue::Float { bits: 9 }),
        (path(1, 0x040D, 0x0000), AttributeValue::Float { bits: 9 }),
        (path(1, 0x0006, 0x0000), AttributeValue::Bool(true)),
    ] {
        let a = ClusterValueDetails::for_attribute_value(&p, &v, &plain).unwrap();
        let b = ClusterValueDetails::for_attribute_value(&p, &v, &cluttered).unwrap();
        assert_eq!((a.name, parts(a.value), a.unit), (b.name, parts(b.value), b.unit));
    }
}

#[test]
fn every_changing_attribute_can_be_shown() {
    let values = [
        AttributeValue::Bool(true),
        AttributeValue::Uint(1),
        AttributeValue::Int(1),
        AttributeValue::Uint(1),
        AttributeValue::Float { bits: 1 },
        AttributeValue::Float { bits: 1 },
    ];
    let unchanging = units_on(4, 0, 1);
    for (read_path, value) in changing_attributes().iter().zip(values) {
        let p = path(4, read_path.cluster.unwrap(), read_path.attribute.unwrap());
        assert!(ClusterValueDetails::for_attribute_value(&p, &value, &unchanging).is_some());
    }
}

#[test]
fn units_are_ordered_by_their_codes() {
    let units: Vec<MeasurementUnit> = (0..8).map(|c| MeasurementUnit::from_uint(c).unwrap()).collect();
    for a in &units {
        for b in &units {
            assert_eq!(a < b, u16::from(*a) < u16::from(*b));
            assert_eq!(a == b, u16::from(*a) == u16::from(*b));
            assert_eq!(a.partial_cmp(b), Some(a.cmp(b)));
        }
    }
    assert!(MeasurementUnit::Ppm < MeasurementUnit::Bqm3);
}

