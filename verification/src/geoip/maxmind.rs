//! Locations out of a database of cities.
use crate::geoip::{Coords, ResolutionError};
use vstd::prelude::*;

verus! {

/// What the record of a city says of where the city is. Either angle may be
/// missing from a record.
pub struct CityLocation {
    pub latitude: Option<s2::s1::Deg>,
    pub longitude: Option<s2::s1::Deg>,
}

/// The location that a lookup gave, or the reason why it gave none: no record
/// at all, a record without a latitude, or one with a latitude and without a
/// longitude.
pub open spec fn located(found: Option<CityLocation>) -> Result<
    (s2::s1::Deg, s2::s1::Deg),
    ResolutionError,
> {
    match found {
        None => Err(ResolutionError::NoLocation),
        Some(location) => match location.latitude {
            None => Err(ResolutionError::NoLatitude),
            Some(latitude) => match location.longitude {
                None => Err(ResolutionError::NoLongitude),
                Some(longitude) => Ok((latitude, longitude)),
            },
        },
    }
}

/// The location of an address from what the database holds for it.
pub fn coords_of_city(found: Option<CityLocation>) -> (r: Result<Coords, ResolutionError>)
    ensures
        match r {
            Ok(coords) => coords.wf() && located(found) == Ok::<
                (s2::s1::Deg, s2::s1::Deg),
                ResolutionError,
            >((coords.latitude(), coords.longitude())),
            Err(e) => located(found) == Err::<(s2::s1::Deg, s2::s1::Deg), ResolutionError>(e),
        },
{
    match found {
        None => Err(ResolutionError::NoLocation),
        Some(location) => match location.latitude {
            None => Err(ResolutionError::NoLatitude),
            Some(latitude) => match location.longitude {
                None => Err(ResolutionError::NoLongitude),
                Some(longitude) => Ok(Coords::new(latitude, longitude)),
            },
        },
    }
}

} // verus!
