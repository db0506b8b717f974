use crate::attribute_values::AttributeValues;
use crate::matter::{
    details_for, known_values, value_datatype, AttributePath, AttributeValue, ClusterValue,
    ClusterValueDetails, DetailsView,
};
use crate::text::{decimal_string, decimal_text, hex_string_4, hex_text, zero_padded};
use vstd::prelude::*;

verus! {

/// An InfluxDB point for one attribute value: the measurement it is stored under, its
/// timestamp in milliseconds since the Unix epoch, its tags in the order they are added, the
/// value itself under the field `value`, and, for a boolean, the same as 1 or 0 under the
/// field `value_int`.
pub struct PointData {
    pub measurement: &'static str,
    pub timestamp: i64,
    pub tags: Vec<(&'static str, String)>,
    pub value: ClusterValue,
    pub value_int: Option<i64>,
}

/// What a [`PointData`] holds, with its texts as character sequences.
pub struct PointView {
    pub measurement: Seq<char>,
    pub timestamp: i64,
    pub tags: Seq<(Seq<char>, Seq<char>)>,
    pub value: ClusterValue,
    pub value_int: Option<i64>,
}

impl View for PointData {
    type V = PointView;

    open spec fn view(&self) -> PointView {
        PointView {
            measurement: self.measurement@,
            timestamp: self.timestamp,
            tags: self.tags@.map_values(|tag: (&'static str, String)| (tag.0@, tag.1@)),
            value: self.value,
            value_int: self.value_int,
        }
    }
}

/// The tags of the point for `details` of the attribute at `path` of the node `node_id`
/// labelled `label`: the node's ID and the endpoint in decimal, the cluster and attribute IDs
/// in hexadecimal of at least four digits, the name of the value, then the node's label and
/// the value's unit where there are any.
pub open spec fn point_tags(
    node_id: u64,
    label: Option<Seq<char>>,
    path: AttributePath,
    details: DetailsView,
) -> Seq<(Seq<char>, Seq<char>)> {
    let tags = seq![
        ("device_id"@, decimal_text(node_id as nat)),
        ("endpoint_id"@, decimal_text(path.endpoint as nat)),
        ("cluster_id"@, zero_padded(hex_text(path.cluster as nat), 4)),
        ("attribute_id"@, zero_padded(hex_text(path.attribute as nat), 4)),
        ("property_name"@, details.name),
    ];
    let tags = match label {
        Some(label) => tags.push(("device_name"@, label)),
        None => tags,
    };
    match details.unit {
        Some(unit) => tags.push(("unit"@, unit)),
        None => tags,
    }
}

/// The point for `details` of the attribute at `path` of the node `node_id` labelled `label`,
/// at `timestamp_millis` milliseconds since the Unix epoch (kept, as by `as i64`, to its low
/// 64 bits).
pub open spec fn point_for(
    node_id: u64,
    label: Option<Seq<char>>,
    timestamp_millis: u128,
    path: AttributePath,
    details: DetailsView,
) -> PointView {
    PointView {
        measurement: value_datatype(details.value),
        timestamp: timestamp_millis as i64,
        tags: point_tags(node_id, label, path, details),
        value: details.value,
        value_int: match details.value {
            ClusterValue::Boolean(on) => Some(if on { 1i64 } else { 0i64 }),
            _ => None,
        },
    }
}

/// The view of an optional label.
pub open spec fn label_view(label: Option<String>) -> Option<Seq<char>> {
    match label {
        Some(l) => Some(l@),
        None => None,
    }
}

fn push_tag(tags: &mut Vec<(&'static str, String)>, name: &'static str, value: String)
    ensures
        final(tags)@.map_values(|tag: (&'static str, String)| (tag.0@, tag.1@)) == old(
            tags,
        )@.map_values(|tag: (&'static str, String)| (tag.0@, tag.1@)).push((name@, value@)),
{
    tags.push((name, value));
    proof {
        assert(final(tags)@.map_values(|tag: (&'static str, String)| (tag.0@, tag.1@)) =~= old(
            tags,
        )@.map_values(|tag: (&'static str, String)| (tag.0@, tag.1@)).push((name@, value@)));
    }
}

/// Constructs an InfluxDB point for an attribute value.
pub fn make_point(
    node_id: u64,
    label: &Option<String>,
    timestamp_millis: u128,
    path: &AttributePath,
    value_details: &ClusterValueDetails,
) -> (point: PointData)
    ensures
        point@ == point_for(node_id, label_view(*label), timestamp_millis, *path, value_details@),
        tags_say(point@.tags, node_id, label_view(*label), *path, value_details@),
        point@.timestamp == timestamp_millis as i64,
        point@.value == value_details.value,
{
    proof {
        lemma_point_tags(node_id, label_view(*label), *path, value_details@);
    }
    let mut tags: Vec<(&'static str, String)> = Vec::new();
    push_tag(&mut tags, "device_id", decimal_string(node_id));
    push_tag(&mut tags, "endpoint_id", decimal_string(path.endpoint as u64));
    push_tag(&mut tags, "cluster_id", hex_string_4(path.cluster));
    push_tag(&mut tags, "attribute_id", hex_string_4(path.attribute));
    push_tag(&mut tags, "property_name", String::from_str(value_details.name));
    match label {
        Some(label) => push_tag(&mut tags, "device_name", label.clone()),
        None => {},
    }
    match value_details.unit {
        Some(unit) => push_tag(&mut tags, "unit", String::from_str(unit)),
        None => {},
    }
    let value_int = match value_details.value {
        ClusterValue::Boolean(on) => Some(if on { 1i64 } else { 0i64 }),
        _ => None,
    };
    let point = PointData {
        measurement: value_details.value.datatype_str(),
        timestamp: #[verifier::truncate] (timestamp_millis as i64),
        tags,
        value: value_details.value,
        value_int,
    };
    proof {
        assert(point@.tags =~= point_tags(node_id, label_view(*label), *path, value_details@));
    }
    point
}

/// The point that a report of `value` at `path` from the node `node_id` labelled `label` is
/// stored as, at `timestamp_millis` milliseconds since the Unix epoch, given the node's
/// unchanging values: none where the value is not shown.
pub open spec fn report_point_for(
    node_id: u64,
    label: Option<Seq<char>>,
    timestamp_millis: u128,
    path: AttributePath,
    value: AttributeValue,
    unchanging: Map<AttributePath, AttributeValue>,
) -> Option<PointView> {
    match details_for(path, value, unchanging) {
        Some(details) => Some(point_for(node_id, label, timestamp_millis, path, details)),
        None => None,
    }
}

/// Decides what a subscription's report of `value` at `path` is stored as: the details that are
/// logged and the point that is written, or nothing where the value is not shown.
pub fn report_point(
    node_id: u64,
    label: &Option<String>,
    timestamp_millis: u128,
    path: &AttributePath,
    value: &AttributeValue,
    unchanging_values: &AttributeValues,
) -> (point: Option<(ClusterValueDetails, PointData)>)
    ensures
        match point {
            Some((details, point)) => report_point_for(
                node_id,
                label_view(*label),
                timestamp_millis,
                *path,
                *value,
                unchanging_values@,
            ) == Some(point@) && details_for(*path, *value, unchanging_values@) == Some(details@),
            None => details_for(*path, *value, unchanging_values@) is None,
        },
{
    match ClusterValueDetails::for_attribute_value(path, value, unchanging_values) {
        Some(details) => {
            let point = make_point(node_id, label, timestamp_millis, path, &details);
            Some((details, point))
        },
        None => None,
    }
}


/// A point carries the field `value_int` exactly when it is stored under the measurement
/// `boolean`, and then that field is 1 for on and 0 for off.
pub proof fn lemma_value_int_only_for_booleans(
    node_id: u64,
    label: Option<Seq<char>>,
    timestamp_millis: u128,
    path: AttributePath,
    details: DetailsView,
)
    ensures
        ({
            let point = point_for(node_id, label, timestamp_millis, path, details);
            &&& point.value_int is Some <==> point.measurement == "boolean"@
            &&& point.value == ClusterValue::Boolean(true) ==> point.value_int == Some(1i64)
            &&& point.value == ClusterValue::Boolean(false) ==> point.value_int == Some(0i64)
            &&& point.value == details.value
            &&& point.timestamp == timestamp_millis as i64
        }),
{
    reveal_strlit("boolean");
    reveal_strlit("float");
    assert("boolean"@[0] != "float"@[0]);
}

/// A value reported by a subscription is written to InfluxDB exactly when the dashboard shows
/// it as the last value of a read, and the point stores the value, unit and name shown.
pub proof fn lemma_logged_values_are_shown(
    node_id: u64,
    label: Option<Seq<char>>,
    timestamp_millis: u128,
    path: AttributePath,
    value: AttributeValue,
    unchanging: Map<AttributePath, AttributeValue>,
    earlier: Seq<(AttributePath, AttributeValue)>,
)
    ensures
        ({
            let shown = known_values(earlier.push((path, value)), unchanging);
            let before = known_values(earlier, unchanging);
            match report_point_for(node_id, label, timestamp_millis, path, value, unchanging) {
                Some(point) => shown.len() == before.len() + 1 && point.value == shown.last().value
                    && point.measurement == value_datatype(shown.last().value) && point.tags.contains(
                    ("property_name"@, shown.last().name),
                ),
                None => shown == before,
            }
        }),
{
    let all = earlier.push((path, value));
    assert(all.drop_last() =~= earlier);
    match details_for(path, value, unchanging) {
        Some(d) => {
            let tags = point_tags(node_id, label, path, d);
            assert(tags[4] == ("property_name"@, d.name));
        },
        None => {},
    }
}


/// Whether the tags `tags` name the node `node_id` and the endpoint in decimal, the cluster and
/// attribute in hexadecimal of at least four digits, the value's property name, the node's label
/// exactly when it has one, and the value's unit exactly when it has one.
pub open spec fn tags_say(
    tags: Seq<(Seq<char>, Seq<char>)>,
    node_id: u64,
    label: Option<Seq<char>>,
    path: AttributePath,
    details: DetailsView,
) -> bool {
    &&& tags.contains(("device_id"@, decimal_text(node_id as nat)))
    &&& tags.contains(("endpoint_id"@, decimal_text(path.endpoint as nat)))
    &&& tags.contains(("cluster_id"@, zero_padded(hex_text(path.cluster as nat), 4)))
    &&& tags.contains(("attribute_id"@, zero_padded(hex_text(path.attribute as nat), 4)))
    &&& tags.contains(("property_name"@, details.name))
    &&& (label matches Some(l) ==> tags.contains(("device_name"@, l)))
    &&& (label is None ==> forall|i: int| 0 <= i < tags.len() ==> #[trigger] tags[i].0 != "device_name"@)
    &&& (details.unit matches Some(u) ==> tags.contains(("unit"@, u)))
    &&& (details.unit is None ==> forall|i: int| 0 <= i < tags.len() ==> #[trigger] tags[i].0 != "unit"@)
}

/// A point's tags name its node and property; they carry the node's label whenever it has one,
/// whatever the unit, and the value's unit whenever it has one, whatever the label; and there is
/// no label or unit tag where there is no label or unit.
pub proof fn lemma_point_tags(
    node_id: u64,
    label: Option<Seq<char>>,
    path: AttributePath,
    details: DetailsView,
)
    ensures
        tags_say(point_tags(node_id, label, path, details), node_id, label, path, details),
{
    reveal_strlit("device_id");
    reveal_strlit("endpoint_id");
    reveal_strlit("cluster_id");
    reveal_strlit("attribute_id");
    reveal_strlit("property_name");
    reveal_strlit("device_name");
    reveal_strlit("unit");
    let tags = point_tags(node_id, label, path, details);
    assert(tags[0] == ("device_id"@, decimal_text(node_id as nat)));
    assert(tags[1] == ("endpoint_id"@, decimal_text(path.endpoint as nat)));
    assert(tags[2] == ("cluster_id"@, zero_padded(hex_text(path.cluster as nat), 4)));
    assert(tags[3] == ("attribute_id"@, zero_padded(hex_text(path.attribute as nat), 4)));
    assert(tags[4] == ("property_name"@, details.name));
    assert("device_id"@.len() != "device_name"@.len());
    assert("endpoint_id"@[0] != "device_name"@[0]);
    assert("cluster_id"@.len() != "device_name"@.len());
    assert("attribute_id"@.len() != "device_name"@.len());
    assert("property_name"@.len() != "device_name"@.len());
    assert("unit"@.len() != "device_name"@.len());
    assert("device_id"@.len() != "unit"@.len());
    assert("endpoint_id"@.len() != "unit"@.len());
    assert("cluster_id"@.len() != "unit"@.len());
    assert("attribute_id"@.len() != "unit"@.len());
    assert("property_name"@.len() != "unit"@.len());
    assert("device_name"@.len() != "unit"@.len());
    match label {
        Some(l) => {
            assert(tags[5] == ("device_name"@, l));
        },
        None => {},
    }
    match details.unit {
        Some(u) => {
            assert(tags[tags.len() - 1] == ("unit"@, u));
        },
        None => {},
    }
}

} // verus!
