use rsyslog_ssh_geoip_pipeline::geoip::ipstack::{request_url, IpStackRecord, ENDPOINT};
use rsyslog_ssh_geoip_pipeline::geoip::maxmind::{coords_of_city, CityLocation};
use rsyslog_ssh_geoip_pipeline::geoip::ResolutionError;
use s2::s1::Deg;

#[test]
fn city_with_both_angles_is_located() {
    let found = Some(CityLocation { latitude: Some(Deg(37.7749)), longitude: Some(Deg(-122.4194)) });
    let coords = coords_of_city(found).ok().unwrap();
    assert_eq!(coords.lat(), Deg(37.7749));
    assert_eq!(coords.long(), Deg(-122.4194));
}

#[test]
fn address_without_a_record_has_no_location() {
    assert_eq!(coords_of_city(None).err(), Some(ResolutionError::NoLocation));
}

#[test]
fn city_without_a_latitude() {
    let found = Some(CityLocation { latitude: None, longitude: Some(Deg(2.0)) });
    assert_eq!(coords_of_city(found).err(), Some(ResolutionError::NoLatitude));
}

#[test]
fn city_without_a_longitude() {
    let found = Some(CityLocation { latitude: Some(Deg(48.0)), longitude: None });
    assert_eq!(coords_of_city(found).err(), Some(ResolutionError::NoLongitude));
}

#[test]
fn city_without_either_angle_lacks_the_latitude_first() {
    let found = Some(CityLocation { latitude: None, longitude: None });
    assert_eq!(coords_of_city(found).err(), Some(ResolutionError::NoLatitude));
}

#[test]
fn url_is_the_endpoint_and_the_address() {
    assert_eq!(ENDPOINT, "http://api.ipstack.com/");
    assert_eq!(request_url("8.8.8.8"), "http://api.ipstack.com/8.8.8.8");
    assert_eq!(request_url("2001:db8::1"), "http://api.ipstack.com/2001:db8::1");
    assert_eq!(request_url(""), "http://api.ipstack.com/");
}

#[test]
fn answer_of_the_service_gives_the_location() {
    let answer = IpStackRecord {
        ip: "8.8.8.8".to_string(),
        typ: "ipv4".to_string(),
        continent_code: "NA".to_string(),
        continent_name: "North America".to_string(),
        latitude: Deg(37.7749),
        longitude: Deg(-122.4194),
    };
    let coords = answer.coords();
    assert_eq!(coords.lat(), Deg(37.7749));
    assert_eq!(coords.long(), Deg(-122.4194));
}
