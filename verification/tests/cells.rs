use rsyslog_ssh_geoip_pipeline::geoip::cell::{
    cell_for_level, token_at_level, valid_cell, MAX_LEVEL,
};
use rsyslog_ssh_geoip_pipeline::geoip::EncodeError;
use s2::cellid::CellID;
use s2::latlng::LatLng;

const A_LEAF: u64 = 0x8085_8080_0fc3_c1e9;

fn leaf_of(lat: f64, long: f64) -> u64 {
    CellID::from(LatLng::from_degrees(lat, long)).0
}

#[test]
fn max_level_is_thirty() {
    assert_eq!(MAX_LEVEL, 30);
    assert_eq!(MAX_LEVEL, s2::cellid::MAX_LEVEL);
}

#[test]
fn leaf_of_a_point_is_a_valid_cell() {
    assert!(valid_cell(leaf_of(37.7749, -122.4194)));
    assert!(valid_cell(leaf_of(0.0, 0.0)));
    assert!(valid_cell(leaf_of(-90.0, 180.0)));
}

#[test]
fn zero_is_no_cell() {
    assert!(!valid_cell(0));
}

#[test]
fn highest_bit_alone_is_no_cell() {
    assert!(!valid_cell(0x8000_0000_0000_0000));
}

#[test]
fn faces_six_and_seven_are_no_cells() {
    assert!(!valid_cell(0xc000_0000_0000_0001));
    assert!(!valid_cell(0xe000_0000_0000_0001));
    assert!(!valid_cell(u64::MAX));
}

#[test]
fn marker_at_odd_position_is_no_cell() {
    assert!(!valid_cell(0x2));
    assert!(!valid_cell(0x1000_0000_0000_0008));
}

#[test]
fn face_cells_are_valid() {
    for face in 0..6u64 {
        assert!(valid_cell((face << 61) | (1 << 60)));
    }
}

#[test]
fn validity_agrees_with_s2() {
    let samples: [u64; 10] = [
        1,
        3,
        4,
        0x10,
        0x1555_5555_5555_5555,
        0x2aaa_aaaa_aaaa_aaaa,
        0x8085_8080_0fc3_c1e9,
        0x8085_8000_0000_0000,
        0xbfff_ffff_ffff_ffff,
        0x7fff_ffff_ffff_ffff,
    ];
    for id in samples {
        assert_eq!(valid_cell(id), CellID(id).is_valid(), "{:#x}", id);
    }
}

#[test]
fn ancestor_agrees_with_s2_at_every_level() {
    let leaves = [
        leaf_of(37.7749, -122.4194),
        leaf_of(48.8566, 2.3522),
        leaf_of(-33.8688, 151.2093),
        leaf_of(0.0, 0.0),
        leaf_of(90.0, 0.0),
    ];
    for leaf in leaves {
        for level in 0..=30usize {
            let expected = CellID(leaf).parent(level as u64).0;
            assert_eq!(cell_for_level(leaf, level), Ok(expected));
        }
    }
}

#[test]
fn ancestor_of_a_leaf_at_level_four() {
    assert_eq!(cell_for_level(A_LEAF, 4), Ok(0x8090_0000_0000_0000));
}

#[test]
fn ancestor_of_a_leaf_at_level_zero_is_its_face() {
    assert_eq!(cell_for_level(A_LEAF, 0), Ok(0x9000_0000_0000_0000));
}

#[test]
fn leaf_at_level_thirty_is_itself() {
    assert_eq!(cell_for_level(A_LEAF, 30), Ok(A_LEAF));
}

#[test]
fn coarse_cell_is_not_refined() {
    let level_four = 0x8090_0000_0000_0000u64;
    assert_eq!(cell_for_level(level_four, 10), Ok(level_four));
    assert_eq!(cell_for_level(level_four, 30), Ok(level_four));
    assert_eq!(cell_for_level(level_four, 4), Ok(level_four));
    assert_eq!(cell_for_level(level_four, 3), Ok(0x80c0_0000_0000_0000));
}

#[test]
fn level_above_thirty_is_refused() {
    assert_eq!(cell_for_level(A_LEAF, 31), Err(EncodeError::InvalidPrecision));
    assert_eq!(cell_for_level(A_LEAF, usize::MAX), Err(EncodeError::InvalidPrecision));
    assert_eq!(token_at_level(A_LEAF, 31), Err(EncodeError::InvalidPrecision));
}

#[test]
fn level_is_looked_at_before_the_cell() {
    assert_eq!(cell_for_level(0, 31), Err(EncodeError::InvalidPrecision));
    assert_eq!(token_at_level(0, 31), Err(EncodeError::InvalidPrecision));
}

#[test]
fn identifier_that_names_no_cell_is_refused() {
    assert_eq!(cell_for_level(0, 4), Err(EncodeError::InvalidCell));
    assert_eq!(cell_for_level(0x8000_0000_0000_0000, 4), Err(EncodeError::InvalidCell));
    assert_eq!(token_at_level(0, 4), Err(EncodeError::InvalidCell));
    assert_eq!(token_at_level(u64::MAX, 30), Err(EncodeError::InvalidCell));
}

#[test]
fn token_of_a_leaf_has_sixteen_digits() {
    assert_eq!(token_at_level(A_LEAF, 30), Ok("808580800fc3c1e9".to_string()));
}

#[test]
fn token_drops_trailing_zeros() {
    assert_eq!(token_at_level(A_LEAF, 4), Ok("809".to_string()));
    assert_eq!(token_at_level(A_LEAF, 0), Ok("9".to_string()));
    assert_eq!(token_at_level(A_LEAF, 12), Ok("8085809".to_string()));
}

#[test]
fn token_keeps_leading_zeros() {
    let leaf = 0x0000_0000_0000_0001u64;
    assert_eq!(token_at_level(leaf, 30), Ok("0000000000000001".to_string()));
    assert_eq!(token_at_level(leaf, 0), Ok("1".to_string()));
    assert_eq!(token_at_level(leaf, 2), Ok("01".to_string()));
}

#[test]
fn token_agrees_with_s2_at_every_level() {
    let leaf = leaf_of(51.5074, -0.1278);
    for level in 0..=30usize {
        let expected = CellID(leaf).parent(level as u64).to_token();
        assert_eq!(token_at_level(leaf, level), Ok(expected));
    }
}
