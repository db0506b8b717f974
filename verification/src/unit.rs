use core::cmp::Ordering;
use vstd::prelude::*;
use vstd::std_specs::cmp::{PartialOrdSpec, PartialOrdSpecImpl};

verus! {

/// The measurement unit attribute for a ConcentrationMeasurement cluster.
#[derive(Clone, Copy, Debug, PartialEq, Eq, Structural, Hash, Ord)]
pub enum MeasurementUnit {
    Ppm,
    Ppb,
    Ppt,
    Mgm3,
    Ugm3,
    Ngm3,
    Pm3,
    Bqm3,
}

/// The number that encodes `unit` in the MeasurementUnit attribute.
pub open spec fn unit_code(unit: MeasurementUnit) -> nat {
    match unit {
        MeasurementUnit::Ppm => 0,
        MeasurementUnit::Ppb => 1,
        MeasurementUnit::Ppt => 2,
        MeasurementUnit::Mgm3 => 3,
        MeasurementUnit::Ugm3 => 4,
        MeasurementUnit::Ngm3 => 5,
        MeasurementUnit::Pm3 => 6,
        MeasurementUnit::Bqm3 => 7,
    }
}

/// The unit that the attribute value `value` encodes, if any.
pub open spec fn unit_for_code(value: int) -> Option<MeasurementUnit> {
    if value == 0 {
        Some(MeasurementUnit::Ppm)
    } else if value == 1 {
        Some(MeasurementUnit::Ppb)
    } else if value == 2 {
        Some(MeasurementUnit::Ppt)
    } else if value == 3 {
        Some(MeasurementUnit::Mgm3)
    } else if value == 4 {
        Some(MeasurementUnit::Ugm3)
    } else if value == 5 {
        Some(MeasurementUnit::Ngm3)
    } else if value == 6 {
        Some(MeasurementUnit::Pm3)
    } else if value == 7 {
        Some(MeasurementUnit::Bqm3)
    } else {
        None
    }
}

/// The short symbol shown for `unit`.
pub open spec fn unit_symbol(unit: MeasurementUnit) -> Seq<char> {
    match unit {
        MeasurementUnit::Ppm => "PPM"@,
        MeasurementUnit::Ppb => "PPB"@,
        MeasurementUnit::Ppt => "PPT"@,
        MeasurementUnit::Mgm3 => "mg/m³"@,
        MeasurementUnit::Ugm3 => "μg/m³"@,
        MeasurementUnit::Ngm3 => "ng/m³"@,
        MeasurementUnit::Pm3 => "P/m³"@,
        MeasurementUnit::Bqm3 => "Bq/m³"@,
    }
}

impl MeasurementUnit {
    /// Decodes the value of a MeasurementUnit attribute.
    pub fn from_uint(value: u64) -> (unit: Option<Self>)
        ensures
            unit == unit_for_code(value as int),
            unit is Some <==> value < 8,
    {
        match value {
            0 => Some(Self::Ppm),
            1 => Some(Self::Ppb),
            2 => Some(Self::Ppt),
            3 => Some(Self::Mgm3),
            4 => Some(Self::Ugm3),
            5 => Some(Self::Ngm3),
            6 => Some(Self::Pm3),
            7 => Some(Self::Bqm3),
            _ => None,
        }
    }

    /// The short symbol of the unit, as displayed after a value.
    pub fn short(self) -> (symbol: &'static str)
        ensures
            symbol@ == unit_symbol(self),
    {
        match self {
            Self::Ppm => "PPM",
            Self::Ppb => "PPB",
            Self::Ppt => "PPT",
            Self::Mgm3 => "mg/m³",
            Self::Ugm3 => "μg/m³",
            Self::Ngm3 => "ng/m³",
            Self::Pm3 => "P/m³",
            Self::Bqm3 => "Bq/m³",
        }
    }
}

impl From<MeasurementUnit> for u16 {
    fn from(value: MeasurementUnit) -> (code: u16) {
        match value {
            MeasurementUnit::Ppm => 0,
            MeasurementUnit::Ppb => 1,
            MeasurementUnit::Ppt => 2,
            MeasurementUnit::Mgm3 => 3,
            MeasurementUnit::Ugm3 => 4,
            MeasurementUnit::Ngm3 => 5,
            MeasurementUnit::Pm3 => 6,
            MeasurementUnit::Bqm3 => 7,
        }
    }
}

impl vstd::std_specs::convert::FromSpecImpl<MeasurementUnit> for u16 {
    open spec fn obeys_from_spec() -> bool {
        true
    }

    open spec fn from_spec(v: MeasurementUnit) -> u16 {
        unit_code(v) as u16
    }
}

/// Decoding a unit's number gives back the unit, and every number that decodes to a unit is
/// that unit's number.
pub proof fn lemma_unit_code_round_trip(unit: MeasurementUnit, value: int)
    ensures
        unit_for_code(unit_code(unit) as int) == Some(unit),
        unit_for_code(value) == Some(unit) ==> value == unit_code(unit),
        unit_code(unit) < 8,
{
}


/// Units are ordered by the numbers that encode them, as the declaration order gives them.
impl PartialOrd for MeasurementUnit {
    fn partial_cmp(&self, other: &Self) -> (order: Option<Ordering>) {
        let a = u16::from(*self);
        let b = u16::from(*other);
        if a < b {
            Some(Ordering::Less)
        } else if a == b {
            Some(Ordering::Equal)
        } else {
            Some(Ordering::Greater)
        }
    }
}

impl PartialOrdSpecImpl for MeasurementUnit {
    open spec fn obeys_partial_cmp_spec() -> bool {
        true
    }

    open spec fn partial_cmp_spec(&self, other: &Self) -> Option<Ordering> {
        if unit_code(*self) < unit_code(*other) {
            Some(Ordering::Less)
        } else if unit_code(*self) == unit_code(*other) {
            Some(Ordering::Equal)
        } else {
            Some(Ordering::Greater)
        }
    }
}

/// Units compare as the numbers that encode them: one is less than another exactly when its
/// number is, and two are equal exactly when their numbers are; the numbers run from 0 for
/// parts per million to 7 for becquerels per cubic metre.
pub proof fn lemma_unit_order(a: MeasurementUnit, b: MeasurementUnit)
    ensures
        PartialOrdSpec::partial_cmp_spec(&a, &b) == Some(Ordering::Less) <==> unit_code(a) < unit_code(b),
        PartialOrdSpec::partial_cmp_spec(&a, &b) == Some(Ordering::Equal) <==> a == b,
        PartialOrdSpec::partial_cmp_spec(&a, &b) == Some(Ordering::Greater) <==> unit_code(a) > unit_code(b),
        a == b <==> unit_code(a) == unit_code(b),
        unit_code(MeasurementUnit::Ppm) == 0,
        unit_code(MeasurementUnit::Ppb) == 1,
        unit_code(MeasurementUnit::Ppt) == 2,
        unit_code(MeasurementUnit::Mgm3) == 3,
        unit_code(MeasurementUnit::Ugm3) == 4,
        unit_code(MeasurementUnit::Ngm3) == 5,
        unit_code(MeasurementUnit::Pm3) == 6,
        unit_code(MeasurementUnit::Bqm3) == 7,
        unit_code(a) <= 7,
{
}

} // verus!
