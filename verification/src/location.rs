use vstd::prelude::*;

use crate::error::Error;

verus! {

/// A latitude/longitude pair in microdegrees (one millionth of a degree):
/// the plain-integer representation of the coordinates a native result
/// object reports.
#[derive(Copy, Clone, Debug, PartialEq, Eq, Structural)]
pub struct Coordinates {
    /// Latitude in microdegrees, positive north of the equator.
    pub latitude: i64,
    /// Longitude in microdegrees, positive east of the prime meridian.
    pub longitude: i64,
}

/// The plain-value form of a native location result object. Each field
/// mirrors one of the native object's independently-failable accessors:
/// `None` stands for an accessor that fails on this result.
#[derive(Copy, Clone, Debug, PartialEq, Eq, Structural)]
pub struct NativeFix {
    /// Latitude in microdegrees, if the native accessor succeeds.
    pub latitude: Option<i64>,
    /// Longitude in microdegrees, if the native accessor succeeds.
    pub longitude: Option<i64>,
    /// Altitude in millimeters above the reference ellipsoid.
    pub altitude: Option<i64>,
    /// Direction of travel in millidegrees clockwise from due north.
    pub bearing: Option<i64>,
    /// Instantaneous speed in millimeters per second.
    pub speed: Option<i64>,
    /// Acquisition time in milliseconds since the Unix epoch.
    pub timestamp: Option<i64>,
}

/// Data about the device's whereabouts: a short-lived, borrowed view of one
/// native result, valid only for the duration of a single callback
/// invocation and never stored past it.
pub struct Location<'a> {
    fix: &'a NativeFix,
}

impl<'a> Location<'a> {
    /// The native result this snapshot views.
    pub closed spec fn fix(&self) -> NativeFix {
        *self.fix
    }

    /// Wraps one native result for the duration of a single delivery.
    pub fn new(fix: &'a NativeFix) -> (loc: Location<'a>)
        ensures
            loc.fix() == *fix,
    {
        Location { fix }
    }

    /// The coordinates of the fix: available exactly when the native result
    /// reports both latitude and longitude.
    pub fn coordinates(&self) -> (r: Result<Coordinates, Error>)
        ensures
            r == spec_coordinates(self.fix()),
    {
        match (self.fix.latitude, self.fix.longitude) {
            (Some(latitude), Some(longitude)) => Ok(Coordinates { latitude, longitude }),
            _ => Err(Error::Unknown),
        }
    }

    /// The altitude of the fix in millimeters, when the native result
    /// reports one.
    pub fn altitude(&self) -> (r: Result<i64, Error>)
        ensures
            r == spec_field(self.fix().altitude),
    {
        match self.fix.altitude {
            Some(v) => Ok(v),
            None => Err(Error::Unknown),
        }
    }

    /// The direction in which the device is travelling, in millidegrees
    /// clockwise from due north, when the native result reports one.
    pub fn bearing(&self) -> (r: Result<i64, Error>)
        ensures
            r == spec_field(self.fix().bearing),
    {
        match self.fix.bearing {
            Some(v) => Ok(v),
            None => Err(Error::Unknown),
        }
    }

    /// The instantaneous speed of the device in millimeters per second,
    /// when the native result reports one.
    pub fn speed(&self) -> (r: Result<i64, Error>)
        ensures
            r == spec_field(self.fix().speed),
    {
        match self.fix.speed {
            Some(v) => Ok(v),
            None => Err(Error::Unknown),
        }
    }

    /// The time at which the fix was acquired, in milliseconds since the
    /// Unix epoch, when the native result reports one.
    pub fn time(&self) -> (r: Result<i64, Error>)
        ensures
            r == spec_field(self.fix().timestamp),
    {
        match self.fix.timestamp {
            Some(v) => Ok(v),
            None => Err(Error::Unknown),
        }
    }
}

/// What a fix's coordinate accessor returns: both components, or the error
/// a partial native result degrades to.
pub open spec fn spec_coordinates(fix: NativeFix) -> Result<Coordinates, Error> {
    if fix.latitude is Some && fix.longitude is Some {
        Ok(Coordinates { latitude: fix.latitude->0, longitude: fix.longitude->0 })
    } else {
        Err(Error::Unknown)
    }
}

/// What a single-field accessor returns: the value the native result
/// reports, or the error a failing native accessor degrades to.
pub open spec fn spec_field(field: Option<i64>) -> Result<i64, Error> {
    match field {
        Some(v) => Ok(v),
        None => Err(Error::Unknown),
    }
}

/// Wraps the outcome of fetching one position from the native service into
/// a location snapshot, passing a fetch failure through unchanged.
pub fn get_location<'a>(fetched: Result<&'a NativeFix, Error>) -> (r: Result<
    Location<'a>,
    Error,
>)
    ensures
        fetched matches Ok(fix) ==> r matches Ok(loc) && loc.fix() == *fix,
        fetched matches Err(e) ==> r matches Err(re) && re == e,
{
    match fetched {
        Ok(fix) => Ok(Location::new(fix)),
        Err(e) => Err(e),
    }
}

} // verus!
