//! Units of distance for geo fields.

use vstd::prelude::*;

verus! {

/// A unit of measure for distance.
#[derive(Clone, Copy, Debug, PartialEq, Eq, Structural)]
pub enum DistanceUnit {
    Inches,
    Yards,
    Miles,
    Kilometers,
    Meters,
    Centimeters,
    Millimeters,
}

pub open spec fn unit_text(u: DistanceUnit) -> Seq<char> {
    match u {
        DistanceUnit::Inches => "in"@,
        DistanceUnit::Yards => "yd"@,
        DistanceUnit::Miles => "mi"@,
        DistanceUnit::Kilometers => "km"@,
        DistanceUnit::Meters => "m"@,
        DistanceUnit::Centimeters => "cm"@,
        DistanceUnit::Millimeters => "mm"@,
    }
}

impl DistanceUnit {
    /// The suffix that follows a distance's value in its text.
    pub fn suffix(&self) -> (r: &'static str)
        ensures
            r@ == unit_text(*self),
    {
        match self {
            DistanceUnit::Inches => "in",
            DistanceUnit::Yards => "yd",
            DistanceUnit::Miles => "mi",
            DistanceUnit::Kilometers => "km",
            DistanceUnit::Meters => "m",
            DistanceUnit::Centimeters => "cm",
            DistanceUnit::Millimeters => "mm",
        }
    }
}

} // verus!
