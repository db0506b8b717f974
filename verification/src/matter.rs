use matter_clusters::clusters::{
    carbon_dioxide_concentration_measurement, on_off, pm25_concentration_measurement, power_source,
    relative_humidity_measurement, temperature_measurement,
};
use crate::attribute_values::AttributeValues;
pub use crate::unit::{unit_for_code, unit_symbol, MeasurementUnit};
use vstd::prelude::*;

verus! {

/// The address of an attribute on a node.
#[derive(Clone, Copy, Debug, PartialEq, Eq, Structural, Hash, PartialOrd, Ord)]
pub struct AttributePath {
    pub endpoint: u16,
    pub cluster: u32,
    pub attribute: u32,
}

/// A path to read, where `None` in a component stands for every value of it.
#[derive(Clone, Copy, Debug, PartialEq, Eq, Structural, Hash, PartialOrd, Ord)]
pub struct ReadPath {
    pub endpoint: Option<u16>,
    pub cluster: Option<u32>,
    pub attribute: Option<u32>,
}

/// A value read from an attribute. A single-precision float is held by its IEEE 754 bit
/// pattern; values of the other kinds that the Matter codec knows (doubles, strings, octet
/// strings, structures, lists, null) are not interpreted here and all stand as `Other`.
#[derive(Clone, Copy, Debug, PartialEq, Eq, Structural)]
pub enum AttributeValue {
    Bool(bool),
    Uint(u64),
    Int(i64),
    Float { bits: u32 },
    Other,
}

/// The ID of the On/Off cluster.
pub open spec fn on_off_cluster_id() -> u32 { 0x0006 }
/// The ID of the OnOff attribute.
pub open spec fn on_off_attribute_id() -> u32 { 0x0000 }
/// The ID of the Power Source cluster.
pub open spec fn power_source_cluster_id() -> u32 { 0x002F }
/// The ID of the BatPercentRemaining attribute.
pub open spec fn battery_percent_attribute_id() -> u32 { 0x000C }
/// The ID of the Temperature Measurement cluster.
pub open spec fn temperature_cluster_id() -> u32 { 0x0402 }
/// The ID of the Relative Humidity Measurement cluster.
pub open spec fn humidity_cluster_id() -> u32 { 0x0405 }
/// The ID of the PM2.5 Concentration Measurement cluster.
pub open spec fn pm25_cluster_id() -> u32 { 0x042A }
/// The ID of the Carbon Dioxide Concentration Measurement cluster.
pub open spec fn co2_cluster_id() -> u32 { 0x040D }
/// The ID of the MeasuredValue attribute of the measurement clusters.
pub open spec fn measured_value_attribute_id() -> u32 { 0x0000 }
/// The ID of the MeasurementUnit attribute of the concentration measurement clusters.
pub open spec fn measurement_unit_attribute_id() -> u32 { 0x0008 }

/// The constants `on_off::CLUSTER_ID` and `on_off::attribute_id::ON_OFF` of matter-clusters,
/// which its source defines as 0x0006 and 0x0000.
#[verifier::external_body]
fn on_off_ids() -> (ids: (u32, u32))
    ensures
        ids == (on_off_cluster_id(), on_off_attribute_id()),
{
    (on_off::CLUSTER_ID, on_off::attribute_id::ON_OFF)
}

/// The constants `power_source::CLUSTER_ID` and
/// `power_source::attribute_id::BAT_PERCENT_REMAINING` of matter-clusters, which its source
/// defines as 0x002F and 0x000C.
#[verifier::external_body]
fn power_source_ids() -> (ids: (u32, u32))
    ensures
        ids == (power_source_cluster_id(), battery_percent_attribute_id()),
{
    (power_source::CLUSTER_ID, power_source::attribute_id::BAT_PERCENT_REMAINING)
}

/// The constants `temperature_measurement::CLUSTER_ID` and
/// `temperature_measurement::attribute_id::MEASURED_VALUE` of matter-clusters, which its
/// source defines as 0x0402 and 0x0000.
#[verifier::external_body]
fn temperature_ids() -> (ids: (u32, u32))
    ensures
        ids == (temperature_cluster_id(), measured_value_attribute_id()),
{
    (temperature_measurement::CLUSTER_ID, temperature_measurement::attribute_id::MEASURED_VALUE)
}

/// The constants `relative_humidity_measurement::CLUSTER_ID` and
/// `relative_humidity_measurement::attribute_id::MEASURED_VALUE` of matter-clusters, which its
/// source defines as 0x0405 and 0x0000.
#[verifier::external_body]
fn humidity_ids() -> (ids: (u32, u32))
    ensures
        ids == (humidity_cluster_id(), measured_value_attribute_id()),
{
    (
        relative_humidity_measurement::CLUSTER_ID,
        relative_humidity_measurement::attribute_id::MEASURED_VALUE,
    )
}

/// The constants `pm25_concentration_measurement::CLUSTER_ID`,
/// `pm25_concentration_measurement::attribute_id::MEASURED_VALUE` and
/// `pm25_concentration_measurement::attribute_id::MEASUREMENT_UNIT` of matter-clusters, which
/// its source defines as 0x042A, 0x0000 and 0x0008.
#[verifier::external_body]
fn pm25_ids() -> (ids: (u32, u32, u32))
    ensures
        ids == (pm25_cluster_id(), measured_value_attribute_id(), measurement_unit_attribute_id()),
{
    (
        pm25_concentration_measurement::CLUSTER_ID,
        pm25_concentration_measurement::attribute_id::MEASURED_VALUE,
        pm25_concentration_measurement::attribute_id::MEASUREMENT_UNIT,
    )
}

/// The constants `carbon_dioxide_concentration_measurement::CLUSTER_ID`,
/// `carbon_dioxide_concentration_measurement::attribute_id::MEASURED_VALUE` and
/// `carbon_dioxide_concentration_measurement::attribute_id::MEASUREMENT_UNIT` of
/// matter-clusters, which its source defines as 0x040D, 0x0000 and 0x0008.
#[verifier::external_body]
fn co2_ids() -> (ids: (u32, u32, u32))
    ensures
        ids == (co2_cluster_id(), measured_value_attribute_id(), measurement_unit_attribute_id()),
{
    (
        carbon_dioxide_concentration_measurement::CLUSTER_ID,
        carbon_dioxide_concentration_measurement::attribute_id::MEASURED_VALUE,
        carbon_dioxide_concentration_measurement::attribute_id::MEASUREMENT_UNIT,
    )
}


/// Whether `read_path` covers `path`: each of its components is a wildcard or equal to the
/// path's.
pub open spec fn read_path_covers(read_path: ReadPath, path: AttributePath) -> bool {
    &&& (read_path.endpoint matches Some(e) ==> e == path.endpoint)
    &&& (read_path.cluster matches Some(c) ==> c == path.cluster)
    &&& (read_path.attribute matches Some(a) ==> a == path.attribute)
}

/// The read path for one attribute of one cluster, on every endpoint.
pub open spec fn any_endpoint(cluster: u32, attribute: u32) -> ReadPath {
    ReadPath { endpoint: None, cluster: Some(cluster), attribute: Some(attribute) }
}

/// The attributes that are read once and not expected to change: the measurement units of the
/// PM2.5 and carbon dioxide concentration clusters.
pub open spec fn unchanging_read_paths() -> Seq<ReadPath> {
    seq![
        any_endpoint(pm25_cluster_id(), measurement_unit_attribute_id()),
        any_endpoint(co2_cluster_id(), measurement_unit_attribute_id()),
    ]
}

/// The attributes that are supported and expected to change.
pub open spec fn changing_read_paths() -> Seq<ReadPath> {
    seq![
        any_endpoint(on_off_cluster_id(), on_off_attribute_id()),
        any_endpoint(power_source_cluster_id(), battery_percent_attribute_id()),
        any_endpoint(temperature_cluster_id(), measured_value_attribute_id()),
        any_endpoint(humidity_cluster_id(), measured_value_attribute_id()),
        any_endpoint(pm25_cluster_id(), measured_value_attribute_id()),
        any_endpoint(co2_cluster_id(), measured_value_attribute_id()),
    ]
}

fn read_path_for(cluster: u32, attribute: u32) -> (path: ReadPath)
    ensures
        path == any_endpoint(cluster, attribute),
{
    ReadPath { endpoint: None, cluster: Some(cluster), attribute: Some(attribute) }
}

/// Paths for attributes which should be read once, but aren't expected to change.
pub fn unchanging_attributes() -> (paths: Vec<ReadPath>)
    ensures
        paths@ == unchanging_read_paths(),
{
    let (pm25, _, pm25_unit) = pm25_ids();
    let (co2, _, co2_unit) = co2_ids();
    let mut paths = Vec::new();
    paths.push(read_path_for(pm25, pm25_unit));
    paths.push(read_path_for(co2, co2_unit));
    paths
}

/// Paths for attributes which are supported and expected to change.
pub fn changing_attributes() -> (paths: Vec<ReadPath>)
    ensures
        paths@ == changing_read_paths(),
{
    let (on_off_cluster, on_off_attribute) = on_off_ids();
    let (power_source, battery) = power_source_ids();
    let (temperature, temperature_value) = temperature_ids();
    let (humidity, humidity_value) = humidity_ids();
    let (pm25, pm25_value, _) = pm25_ids();
    let (co2, co2_value, _) = co2_ids();
    let mut paths = Vec::new();
    paths.push(read_path_for(on_off_cluster, on_off_attribute));
    paths.push(read_path_for(power_source, battery));
    paths.push(read_path_for(temperature, temperature_value));
    paths.push(read_path_for(humidity, humidity_value));
    paths.push(read_path_for(pm25, pm25_value));
    paths.push(read_path_for(co2, co2_value));
    paths
}

/// A value read from some cluster and interpreted, ready to display or store.
///
/// Numbers are held exactly as the device reported them: a fraction is the number
/// `numerator / denominator`, and a float is the single-precision number with the IEEE 754 bit pattern
/// `bits`. Values are not compared with `==` or `<`: as numbers they compare as the floats they
/// stand for, which this library does not hold.
#[derive(Clone, Copy, Debug)]
pub enum ClusterValue {
    Boolean(bool),
    Fraction { numerator: i128, denominator: u64 },
    Float { bits: u32 },
}

/// The InfluxDB measurement name under which a value of this kind is stored.
pub open spec fn value_datatype(value: ClusterValue) -> Seq<char> {
    match value {
        ClusterValue::Boolean(_) => "boolean"@,
        _ => "float"@,
    }
}

/// The fixed text that stands for `value` on the dashboard, where it has one: "on" or "off" for
/// a boolean. A number has none: its text is the decimal form of the float.
pub open spec fn value_fixed_text(value: ClusterValue) -> Option<Seq<char>> {
    match value {
        ClusterValue::Boolean(true) => Some("on"@),
        ClusterValue::Boolean(false) => Some("off"@),
        _ => None,
    }
}

impl ClusterValue {
    /// The name of the kind of value, under which it is stored in InfluxDB.
    pub fn datatype_str(self) -> (name: &'static str)
        ensures
            name@ == value_datatype(self),
    {
        match self {
            ClusterValue::Boolean(_) => "boolean",
            _ => "float",
        }
    }

    /// The text shown for a boolean value; `None` for a number, whose text is its float's.
    pub fn fixed_text(self) -> (text: Option<&'static str>)
        ensures
            value_fixed_text(self) == match text {
                Some(t) => Some(t@),
                None => None::<Seq<char>>,
            },
            text is Some <==> self is Boolean,
    {
        match self {
            ClusterValue::Boolean(true) => Some("on"),
            ClusterValue::Boolean(false) => Some("off"),
            _ => None,
        }
    }
}

/// The value read from some cluster and parsed, ready to display.
#[derive(Clone, Copy, Debug)]
pub struct ClusterValueDetails {
    pub name: &'static str,
    pub value: ClusterValue,
    pub unit: Option<&'static str>,
}

/// What a [`ClusterValueDetails`] says: a name, a value and maybe a unit.
pub struct DetailsView {
    pub name: Seq<char>,
    pub value: ClusterValue,
    pub unit: Option<Seq<char>>,
}

impl View for ClusterValueDetails {
    type V = DetailsView;

    open spec fn view(&self) -> DetailsView {
        DetailsView {
            name: self.name@,
            value: self.value,
            unit: match self.unit {
                Some(unit) => Some(unit@),
                None => None,
            },
        }
    }
}

/// The line shown for `details` when its value reads `value_text`: the name, a colon and the
/// value, then the unit after a space where there is one.
pub open spec fn details_line(details: DetailsView, value_text: Seq<char>) -> Seq<char> {
    let line = details.name + ": "@ + value_text;
    match details.unit {
        Some(unit) => line + " "@ + unit,
        None => line,
    }
}

impl ClusterValueDetails {
    /// The line shown for the details, given the text of the value: for a boolean the text of
    /// [`ClusterValue::fixed_text`], for a number the decimal form of its float.
    pub fn describe(&self, value_text: &str) -> (line: String)
        ensures
            line@ == details_line(self@, value_text@),
    {
        let mut line = String::from_str(self.name);
        line.append(": ");
        line.append(value_text);
        match self.unit {
            Some(unit) => {
                line.append(" ");
                line.append(unit);
            },
            None => {},
        }
        line
    }
}

/// The details named `name` of the value `value`, in the unit `unit` where there is one.
pub open spec fn details(name: Seq<char>, value: ClusterValue, unit: Option<Seq<char>>) -> Option<
    DetailsView,
> {
    Some(DetailsView { name, value, unit })
}

/// The unit that `unchanging` gives for the measurement cluster `cluster` on `endpoint`: the
/// one that its MeasurementUnit attribute holds, when that is an unsigned integer that
/// encodes a unit.
pub open spec fn configured_unit(
    unchanging: Map<AttributePath, AttributeValue>,
    endpoint: u16,
    cluster: u32,
) -> Option<MeasurementUnit> {
    let unit_path = AttributePath {
        endpoint,
        cluster,
        attribute: measurement_unit_attribute_id(),
    };
    if unchanging.contains_key(unit_path) {
        match unchanging[unit_path] {
            AttributeValue::Uint(code) => unit_for_code(code as int),
            _ => None,
        }
    } else {
        None
    }
}

/// How the value `value` read from `path` is shown, given the values `unchanging` read once:
/// the OnOff attribute as a boolean; the battery level in halves of a percent; temperature in
/// hundredths of a degree Celsius; relative humidity in hundredths of a percent; PM2.5 and CO₂
/// concentrations as floats, in the unit that their MeasurementUnit attribute on the same
/// endpoint names. Any other path, a value of another kind, or a concentration without a
/// known unit, is not shown.
pub open spec fn details_for(
    path: AttributePath,
    value: AttributeValue,
    unchanging: Map<AttributePath, AttributeValue>,
) -> Option<DetailsView> {
    let is = |cluster: u32, attribute: u32| path.cluster == cluster && path.attribute == attribute;
    match value {
        AttributeValue::Bool(on) => if is(on_off_cluster_id(), on_off_attribute_id()) {
            details("On"@, ClusterValue::Boolean(on), None)
        } else {
            None
        },
        AttributeValue::Uint(raw) => if is(power_source_cluster_id(), battery_percent_attribute_id()) {
            details("Battery level"@, ClusterValue::Fraction { numerator: raw as i128, denominator: 2 }, Some("%"@))
        } else if is(humidity_cluster_id(), measured_value_attribute_id()) {
            details("Humidity"@, ClusterValue::Fraction { numerator: raw as i128, denominator: 100 }, Some("%"@))
        } else {
            None
        },
        AttributeValue::Int(raw) => if is(temperature_cluster_id(), measured_value_attribute_id()) {
            details("Temperature"@, ClusterValue::Fraction { numerator: raw as i128, denominator: 100 }, Some("°C"@))
        } else {
            None
        },
        AttributeValue::Float { bits } => if is(pm25_cluster_id(), measured_value_attribute_id())
            && configured_unit(unchanging, path.endpoint, pm25_cluster_id()) is Some {
            details(
                "PM2.5"@,
                ClusterValue::Float { bits },
                Some(unit_symbol(configured_unit(unchanging, path.endpoint, pm25_cluster_id())->0)),
            )
        } else if is(co2_cluster_id(), measured_value_attribute_id())
            && configured_unit(unchanging, path.endpoint, co2_cluster_id()) is Some {
            details(
                "CO₂"@,
                ClusterValue::Float { bits },
                Some(unit_symbol(configured_unit(unchanging, path.endpoint, co2_cluster_id())->0)),
            )
        } else {
            None
        },
        AttributeValue::Other => None,
    }
}

/// The view of an optional details value.
pub open spec fn option_details_view(details: Option<ClusterValueDetails>) -> Option<DetailsView> {
    match details {
        Some(d) => Some(d@),
        None => None,
    }
}

/// The unit held for a concentration cluster on `endpoint`, if `unchanging` holds a known one.
fn unit_of(unchanging: &AttributeValues, endpoint: u16, cluster: u32, attribute: u32) -> (unit:
    Option<MeasurementUnit>)
    requires
        attribute == measurement_unit_attribute_id(),
    ensures
        unit == configured_unit(unchanging@, endpoint, cluster),
{
    match unchanging.get(&AttributePath { endpoint, cluster, attribute }) {
        Some(AttributeValue::Uint(code)) => MeasurementUnit::from_uint(code),
        _ => None,
    }
}

impl ClusterValueDetails {
    /// Interprets the value `value` read from the attribute at `path`, given the values of the
    /// unchanging attributes of the same node.
    pub fn for_attribute_value(
        path: &AttributePath,
        value: &AttributeValue,
        unchanging_values: &AttributeValues,
    ) -> (details: Option<Self>)
        ensures
            option_details_view(details) == details_for(*path, *value, unchanging_values@),
            details matches Some(d) ==> match *value {
                AttributeValue::Bool(on) => d.value == ClusterValue::Boolean(on) && d.unit is None,
                AttributeValue::Uint(raw) => d.unit is Some && (d.value == ClusterValue::Fraction {
                    numerator: raw as i128,
                    denominator: 2,
                } || d.value == ClusterValue::Fraction { numerator: raw as i128, denominator: 100 }),
                AttributeValue::Int(raw) => d.unit is Some && d.value == ClusterValue::Fraction {
                    numerator: raw as i128,
                    denominator: 100,
                },
                AttributeValue::Float { bits } => d.unit is Some && d.value == ClusterValue::Float {
                    bits,
                },
                AttributeValue::Other => false,
            },
    {
        proof {
            lemma_details_keep_the_reading(*path, *value, unchanging_values@);
        }
        let endpoint = path.endpoint;
        let (on_off_cluster, on_off_attribute) = on_off_ids();
        let (power_source, battery) = power_source_ids();
        let (temperature, temperature_value) = temperature_ids();
        let (humidity, humidity_value) = humidity_ids();
        let (pm25, pm25_value, pm25_unit) = pm25_ids();
        let (co2, co2_value, co2_unit) = co2_ids();
        let is = |cluster: u32, attribute: u32| -> (b: bool)
            ensures
                b == (path.cluster == cluster && path.attribute == attribute),
            { path.cluster == cluster && path.attribute == attribute };
        match *value {
            AttributeValue::Bool(on) => if is(on_off_cluster, on_off_attribute) {
                Some(ClusterValueDetails { name: "On", value: ClusterValue::Boolean(on), unit: None })
            } else {
                None
            },
            AttributeValue::Uint(raw) => if is(power_source, battery) {
                Some(
                    ClusterValueDetails {
                        name: "Battery level",
                        value: ClusterValue::Fraction { numerator: raw as i128, denominator: 2 },
                        unit: Some("%"),
                    },
                )
            } else if is(humidity, humidity_value) {
                Some(
                    ClusterValueDetails {
                        name: "Humidity",
                        value: ClusterValue::Fraction { numerator: raw as i128, denominator: 100 },
                        unit: Some("%"),
                    },
                )
            } else {
                None
            },
            AttributeValue::Int(raw) => if is(temperature, temperature_value) {
                Some(
                    ClusterValueDetails {
                        name: "Temperature",
                        value: ClusterValue::Fraction { numerator: raw as i128, denominator: 100 },
                        unit: Some("°C"),
                    },
                )
            } else {
                None
            },
            AttributeValue::Float { bits } => if is(pm25, pm25_value) {
                match unit_of(unchanging_values, endpoint, pm25, pm25_unit) {
                    Some(unit) => Some(
                        ClusterValueDetails {
                            name: "PM2.5",
                            value: ClusterValue::Float { bits },
                            unit: Some(unit.short()),
                        },
                    ),
                    None => None,
                }
            } else if is(co2, co2_value) {
                match unit_of(unchanging_values, endpoint, co2, co2_unit) {
                    Some(unit) => Some(
                        ClusterValueDetails {
                            name: "CO₂",
                            value: ClusterValue::Float { bits },
                            unit: Some(unit.short()),
                        },
                    ),
                    None => None,
                }
            } else {
                None
            },
            AttributeValue::Other => None,
        }
    }
}

/// The details of those of the values read, in order, that are shown.
pub open spec fn known_values(
    values: Seq<(AttributePath, AttributeValue)>,
    unchanging: Map<AttributePath, AttributeValue>,
) -> Seq<DetailsView>
    decreases values.len(),
{
    if values.len() == 0 {
        Seq::empty()
    } else {
        let shown = known_values(values.drop_last(), unchanging);
        match details_for(values.last().0, values.last().1, unchanging) {
            Some(d) => shown.push(d),
            None => shown,
        }
    }
}

/// Interprets, in order, those of the values read from the changing attributes that are known,
/// given the values read from the unchanging ones.
pub fn known_cluster_values(
    changing_values: &Vec<(AttributePath, AttributeValue)>,
    unchanging_values: &AttributeValues,
) -> (details: Vec<ClusterValueDetails>)
    ensures
        details@.map_values(|d: ClusterValueDetails| d@) == known_values(
            changing_values@,
            unchanging_values@,
        ),
        details@.len() <= changing_values@.len(),
        forall|i: int|
            0 <= i < details@.len() ==> exists|j: int|
                0 <= j < changing_values@.len() && details_for(
                    #[trigger] changing_values@[j].0,
                    changing_values@[j].1,
                    unchanging_values@,
                ) == Some(#[trigger] details@[i]@),
{
    proof {
        lemma_known_values_come_from_reads(changing_values@, unchanging_values@);
    }
    let mut details: Vec<ClusterValueDetails> = Vec::new();
    let mut i: usize = 0;
    while i < changing_values.len()
        invariant
            i <= changing_values@.len(),
            details@.map_values(|d: ClusterValueDetails| d@) == known_values(
                changing_values@.take(i as int),
                unchanging_values@,
            ),
        decreases changing_values@.len() - i,
    {
        let (path, value) = &changing_values[i];
        let found = ClusterValueDetails::for_attribute_value(path, value, unchanging_values);
        proof {
            assert(changing_values@.take(i + 1).drop_last() =~= changing_values@.take(i as int));
        }
        match found {
            Some(d) => {
                details.push(d);
                proof {
                    assert(details@.map_values(|d: ClusterValueDetails| d@) =~= known_values(
                        changing_values@.take(i as int),
                        unchanging_values@,
                    ).push(d@));
                }
            },
            None => {},
        }
        i = i + 1;
    }
    proof {
        assert(changing_values@.take(changing_values@.len() as int) =~= changing_values@);
        let shown = known_values(changing_values@, unchanging_values@);
        assert forall|i: int| 0 <= i < details@.len() implies exists|j: int|
            0 <= j < changing_values@.len() && details_for(
                #[trigger] changing_values@[j].0,
                changing_values@[j].1,
                unchanging_values@,
            ) == Some(#[trigger] details@[i]@) by {
            assert(details@.map_values(|d: ClusterValueDetails| d@)[i] == details@[i]@);
            assert(shown[i] == details@[i]@);
        }
    }
    details
}


/// Every value that is shown was read from an attribute that the changing read paths cover:
/// what is subscribed to is all that is interpreted.
pub proof fn lemma_shown_values_are_subscribed(
    path: AttributePath,
    value: AttributeValue,
    unchanging: Map<AttributePath, AttributeValue>,
)
    requires
        details_for(path, value, unchanging) is Some,
    ensures
        exists|i: int|
            0 <= i < changing_read_paths().len() && read_path_covers(
                #[trigger] changing_read_paths()[i],
                path,
            ),
{
    let paths = changing_read_paths();
    if path.cluster == on_off_cluster_id() {
        assert(read_path_covers(paths[0], path));
    } else if path.cluster == power_source_cluster_id() {
        assert(read_path_covers(paths[1], path));
    } else if path.cluster == temperature_cluster_id() {
        assert(read_path_covers(paths[2], path));
    } else if path.cluster == humidity_cluster_id() {
        assert(read_path_covers(paths[3], path));
    } else if path.cluster == pm25_cluster_id() {
        assert(read_path_covers(paths[4], path));
    } else {
        assert(read_path_covers(paths[5], path));
    }
}

/// How a value is shown depends on the values read once only through the attributes that the
/// unchanging read paths cover: two sets of unchanging values that agree there give the same
/// details.
pub proof fn lemma_units_come_from_unchanging_paths(
    path: AttributePath,
    value: AttributeValue,
    unchanging: Map<AttributePath, AttributeValue>,
    other: Map<AttributePath, AttributeValue>,
)
    requires
        forall|p: AttributePath|
            (exists|i: int|
                0 <= i < unchanging_read_paths().len() && read_path_covers(
                    #[trigger] unchanging_read_paths()[i],
                    p,
                )) ==> (unchanging.contains_key(p) == other.contains_key(p) && (
            unchanging.contains_key(p) ==> unchanging[p] == other[p])),
    ensures
        details_for(path, value, unchanging) == details_for(path, value, other),
{
    let paths = unchanging_read_paths();
    let pm25_unit = AttributePath {
        endpoint: path.endpoint,
        cluster: pm25_cluster_id(),
        attribute: measurement_unit_attribute_id(),
    };
    let co2_unit = AttributePath {
        endpoint: path.endpoint,
        cluster: co2_cluster_id(),
        attribute: measurement_unit_attribute_id(),
    };
    assert(read_path_covers(paths[0], pm25_unit));
    assert(read_path_covers(paths[1], co2_unit));
}


/// Only a boolean has a fixed text: a number, whatever its form, is shown as its value.
pub proof fn lemma_only_booleans_have_fixed_text(value: ClusterValue)
    ensures
        value_fixed_text(value) is Some <==> value is Boolean,
        value == ClusterValue::Boolean(true) ==> value_fixed_text(value) == Some("on"@),
        value == ClusterValue::Boolean(false) ==> value_fixed_text(value) == Some("off"@),
{
}

/// What is shown keeps the reading as the device reported it: a boolean as itself and without
/// a unit; an unsigned reading as that number over 2 or 100, and a signed one over 100, with a
/// unit; a float with exactly the bits read, with a unit. No value of another kind is shown.
pub proof fn lemma_details_keep_the_reading(
    path: AttributePath,
    value: AttributeValue,
    unchanging: Map<AttributePath, AttributeValue>,
)
    ensures
        details_for(path, value, unchanging) matches Some(d) ==> match value {
            AttributeValue::Bool(on) => d.value == ClusterValue::Boolean(on) && d.unit is None,
            AttributeValue::Uint(raw) => d.unit is Some && (d.value == ClusterValue::Fraction {
                numerator: raw as i128,
                denominator: 2,
            } || d.value == ClusterValue::Fraction { numerator: raw as i128, denominator: 100 }),
            AttributeValue::Int(raw) => d.unit is Some && d.value == ClusterValue::Fraction {
                numerator: raw as i128,
                denominator: 100,
            },
            AttributeValue::Float { bits } => d.unit is Some && d.value == ClusterValue::Float {
                bits,
            },
            AttributeValue::Other => false,
        },
{
}

/// A float read from the MeasuredValue attribute of the PM2.5 or the CO₂ concentration cluster
/// is shown, with exactly the bits read, whenever the MeasurementUnit attribute of the same
/// cluster on the same endpoint holds the code of a unit; the unit shown is that unit's symbol.
pub proof fn lemma_concentrations_are_shown(
    endpoint: u16,
    cluster: u32,
    bits: u32,
    unchanging: Map<AttributePath, AttributeValue>,
    code: u64,
)
    requires
        cluster == 0x042A || cluster == 0x040D,
        unchanging.contains_key(AttributePath { endpoint, cluster, attribute: 0x0008 }),
        unchanging[AttributePath { endpoint, cluster, attribute: 0x0008 }] == AttributeValue::Uint(
            code,
        ),
        code < 8,
    ensures
        ({
            let shown = details_for(
                AttributePath { endpoint, cluster, attribute: 0x0000 },
                AttributeValue::Float { bits },
                unchanging,
            );
            &&& shown is Some
            &&& shown->0.value == ClusterValue::Float { bits }
            &&& shown->0.unit == Some(unit_symbol(unit_for_code(code as int)->0))
            &&& cluster == 0x042A ==> shown->0.name == "PM2.5"@
            &&& cluster == 0x040D ==> shown->0.name == "CO₂"@
        }),
{
}

/// Listing the values read is filtering and mapping them through `details_for`: reading one
/// more value appends exactly its details where it is shown, and nothing where it is not.
pub proof fn lemma_known_values_push(
    values: Seq<(AttributePath, AttributeValue)>,
    value: (AttributePath, AttributeValue),
    unchanging: Map<AttributePath, AttributeValue>,
)
    ensures
        details_for(value.0, value.1, unchanging) matches Some(d) ==> known_values(
            values.push(value),
            unchanging,
        ) == known_values(values, unchanging).push(d),
        details_for(value.0, value.1, unchanging) is None ==> known_values(
            values.push(value),
            unchanging,
        ) == known_values(values, unchanging),
{
    assert(values.push(value).drop_last() =~= values);
}

/// Every value listed is exactly the details of some value read, unit included, and no more
/// values are listed than were read.
pub proof fn lemma_known_values_come_from_reads(
    values: Seq<(AttributePath, AttributeValue)>,
    unchanging: Map<AttributePath, AttributeValue>,
)
    ensures
        known_values(values, unchanging).len() <= values.len(),
        forall|i: int|
            0 <= i < known_values(values, unchanging).len() ==> exists|j: int|
                0 <= j < values.len() && details_for(#[trigger] values[j].0, values[j].1, unchanging)
                    == Some(#[trigger] known_values(values, unchanging)[i]),
    decreases values.len(),
{
    if values.len() > 0 {
        let init = values.drop_last();
        lemma_known_values_come_from_reads(init, unchanging);
        let shown = known_values(values, unchanging);
        let before = known_values(init, unchanging);
        assert forall|i: int| 0 <= i < shown.len() implies exists|j: int|
            0 <= j < values.len() && details_for(#[trigger] values[j].0, values[j].1, unchanging)
                == Some(#[trigger] shown[i]) by {
            if i < before.len() {
                let j = choose|j: int|
                    0 <= j < init.len() && details_for(#[trigger] init[j].0, init[j].1, unchanging)
                        == Some(#[trigger] before[i]);
                assert(values[j] == init[j]);
                assert(shown[i] == before[i]);
            } else {
                let j = values.len() - 1;
                assert(details_for(values[j].0, values[j].1, unchanging) == Some(shown[i]));
            }
        }
    }
}


/// Each reading is named for its cluster and shown in that cluster's unit: the OnOff attribute
/// as "On" with no unit; the battery level, in halves, as "Battery level" in percent; relative
/// humidity, in hundredths, as "Humidity" in percent; temperature, in hundredths, as
/// "Temperature" in degrees Celsius. Each of these is shown whenever its value is of the kind
/// the cluster reports, whatever the values read once.
pub proof fn lemma_measurements_are_shown(
    endpoint: u16,
    value: AttributeValue,
    unchanging: Map<AttributePath, AttributeValue>,
)
    ensures
        value matches AttributeValue::Bool(on) ==> details_for(
            AttributePath { endpoint, cluster: 0x0006, attribute: 0x0000 },
            value,
            unchanging,
        ) == Some(DetailsView { name: "On"@, value: ClusterValue::Boolean(on), unit: None }),
        value matches AttributeValue::Uint(raw) ==> details_for(
            AttributePath { endpoint, cluster: 0x002F, attribute: 0x000C },
            value,
            unchanging,
        ) == Some(
            DetailsView {
                name: "Battery level"@,
                value: ClusterValue::Fraction { numerator: raw as i128, denominator: 2 },
                unit: Some("%"@),
            },
        ),
        value matches AttributeValue::Uint(raw) ==> details_for(
            AttributePath { endpoint, cluster: 0x0405, attribute: 0x0000 },
            value,
            unchanging,
        ) == Some(
            DetailsView {
                name: "Humidity"@,
                value: ClusterValue::Fraction { numerator: raw as i128, denominator: 100 },
                unit: Some("%"@),
            },
        ),
        value matches AttributeValue::Int(raw) ==> details_for(
            AttributePath { endpoint, cluster: 0x0402, attribute: 0x0000 },
            value,
            unchanging,
        ) == Some(
            DetailsView {
                name: "Temperature"@,
                value: ClusterValue::Fraction { numerator: raw as i128, denominator: 100 },
                unit: Some("°C"@),
            },
        ),
{
}

/// The line shown for a reading is its name, a colon and a space, the value's text, and then,
/// where the reading has a unit, a space and the unit; nothing else.
pub proof fn lemma_details_line_parts(details: DetailsView, value_text: Seq<char>)
    ensures
        ({
            let line = details_line(details, value_text);
            let head = details.name + ": "@ + value_text;
            &&& line.subrange(0, head.len() as int) == head
            &&& details.unit matches Some(u) ==> line.len() == head.len() + 1 + u.len()
                && line.subrange(head.len() + 1int, line.len() as int) == u && line[head.len() as int]
                == ' '
            &&& details.unit is None ==> line == head
        }),
{
    reveal_strlit(" ");
    let line = details_line(details, value_text);
    let head = details.name + ": "@ + value_text;
    assert(line.subrange(0, head.len() as int) =~= head);
    match details.unit {
        Some(u) => {
            assert(line.subrange(head.len() + 1int, line.len() as int) =~= u);
        },
        None => {},
    }
}

} // verus!
