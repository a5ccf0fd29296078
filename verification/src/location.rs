//! Locations, and the records that have one.

use crate::decimal::{copy_of, decimal_ref_view, decimal_view, Decimal};
use vstd::prelude::*;

verus! {

/// Type alias for latitude values.
pub type Latitude<'a> = Option<&'a Decimal>;

/// Type alias for longitude values.
pub type Longitude<'a> = Option<&'a Decimal>;

/// Type alias for elevation values.
pub type Elevation = Option<i32>;

/// Contains the latitude, longitude and elevation of a location. A value is
/// `None` where it is not available or unknown.
#[derive(Clone, Debug)]
pub struct Location {
    latitude_deg: Option<Decimal>,
    longitude_deg: Option<Decimal>,
    elevation_ft: Elevation,
}

/// What a [`Location`] holds.
pub ghost struct LocationView {
    pub latitude_deg: Option<Seq<char>>,
    pub longitude_deg: Option<Seq<char>>,
    pub elevation_ft: Option<i32>,
}

impl View for Location {
    type V = LocationView;

    closed spec fn view(&self) -> LocationView {
        LocationView {
            latitude_deg: decimal_view(self.latitude_deg),
            longitude_deg: decimal_view(self.longitude_deg),
            elevation_ft: self.elevation_ft,
        }
    }
}

impl Location {
    /// The latitude in decimal degrees (positive for north).
    pub fn latitude_deg(&self) -> (v: Latitude<'_>)
        ensures
            decimal_ref_view(v) == self@.latitude_deg,
    {
        self.latitude_deg.as_ref()
    }

    /// The longitude in decimal degrees (positive for east).
    pub fn longitude_deg(&self) -> (v: Longitude<'_>)
        ensures
            decimal_ref_view(v) == self@.longitude_deg,
    {
        self.longitude_deg.as_ref()
    }

    /// The elevation above mean sea level in feet (negative below it).
    pub fn elevation_ft(&self) -> (v: Elevation)
        ensures
            v == self@.elevation_ft,
    {
        self.elevation_ft
    }
}

/// The location of an item: its latitude, its longitude and its elevation,
/// each as the item has it.
impl<T: ContainsLocation> From<T> for Location {
    fn from(item: T) -> (l: Location)
        ensures
            l@ == item.location_of(),
    {
        item.extract_location()
    }
}

/// The conversion is stated over views, in the `ensures` of `from`: a
/// location is made at run time only, so no specification value stands for
/// the result itself.
impl<T: ContainsLocation> vstd::std_specs::convert::FromSpecImpl<T> for Location {
    open spec fn obeys_from_spec() -> bool {
        false
    }

    open spec fn from_spec(item: T) -> Location {
        arbitrary()
    }
}

/// Trait to indicate that the type contains location information.
pub trait ContainsLocation {
    /// The location that the item holds.
    spec fn location_of(&self) -> LocationView;

    /// The latitude of `self` in decimal degrees (positive for north).
    fn latitude_deg(&self) -> (v: Latitude<'_>)
        ensures
            decimal_ref_view(v) == self.location_of().latitude_deg,
    ;

    /// The longitude of `self` in decimal degrees (positive for east).
    fn longitude_deg(&self) -> (v: Longitude<'_>)
        ensures
            decimal_ref_view(v) == self.location_of().longitude_deg,
    ;

    /// The elevation of `self` above mean sea level in feet (negative below it).
    fn elevation_ft(&self) -> (v: Elevation)
        ensures
            v == self.location_of().elevation_ft,
    ;

    /// Extracts location information from `self`.
    fn extract_location(&self) -> (l: Location)
        ensures
            l@ == self.location_of(),
    {
        Location {
            latitude_deg: copy_of(self.latitude_deg()),
            longitude_deg: copy_of(self.longitude_deg()),
            elevation_ft: self.elevation_ft(),
        }
    }
}

} // verus!
