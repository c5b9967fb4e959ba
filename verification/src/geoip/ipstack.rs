//! Locations from the ipstack service.
use crate::geoip::Coords;
use vstd::prelude::*;

verus! {

/// Where the service is asked; the address to look up follows.
pub const ENDPOINT: &'static str = "http://api.ipstack.com/";

/// What the service answers for an address.
pub struct IpStackRecord {
    pub ip: String,
    pub typ: String,
    pub continent_code: String,
    pub continent_name: String,
    pub latitude: s2::s1::Deg,
    pub longitude: s2::s1::Deg,
}

impl IpStackRecord {
    /// The location that the answer gives.
    pub fn coords(&self) -> (coords: Coords)
        ensures
            coords.wf(),
            coords.latitude() == self.latitude,
            coords.longitude() == self.longitude,
    {
        Coords::new(self.latitude, self.longitude)
    }
}

/// Where to ask for the location of `ip`: the endpoint followed by the
/// address as it is.
pub fn request_url(ip: &str) -> (url: String)
    ensures
        url@ == ENDPOINT@ + ip@,
{
    let mut url = ENDPOINT.to_owned();
    url.append(ip);
    url
}

} // verus!
