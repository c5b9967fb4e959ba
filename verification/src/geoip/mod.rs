//! Locations and the two ways of writing one down as a short token.
pub mod cell;
pub mod ipstack;
pub mod maxmind;

use crate::geoip::cell::{
    ancestor, is_leaf, lemma_leaf_at_level, token_at_level, token_at_level_spec, token_text,
    MAX_LEVEL,
};
use vstd::prelude::*;

verus! {

/// An angle in degrees, as the `s2` crate holds it. Nothing is read from it
/// here: a latitude or longitude is carried to the encoders as it came.
#[verifier::external_type_specification]
#[verifier::external_body]
pub struct ExDeg(s2::s1::Deg);

/// Why a location could not be turned into a spatial token.
#[derive(Debug, Clone, Copy, PartialEq, Eq, Structural)]
pub enum EncodeError {
    /// The latitude is outside [-90, 90] or the longitude outside [-180, 180].
    InvalidCoordinateRange,
    /// The precision is not one that the encoding offers.
    InvalidPrecision,
    /// The identifier names no cell of the hierarchy.
    InvalidCell,
}

/// Why no location was found for an address.
#[derive(Debug, Clone, Copy, PartialEq, Eq, Structural)]
pub enum ResolutionError {
    /// The text is no address.
    InvalidAddress,
    /// Nothing is known of where the address is.
    NoLocation,
    /// The place that is known for the address has no latitude.
    NoLatitude,
    /// The place that is known for the address has no longitude.
    NoLongitude,
    /// The source of locations could not be reached or answered what could
    /// not be read.
    Backend,
}

/// The ways of writing a location down as a token.
#[derive(Debug, Clone, Copy, PartialEq, Eq, Structural)]
pub enum SpatialEncoding {
    /// A geohash; the precision is the number of its characters.
    Geohash,
    /// A cell of the S2 hierarchy; the precision is the level of the cell.
    S2Cell,
}

/// What `geohash::encode` reports, one variant for each of the crate's own.
enum GeohashFailure {
    InvalidHashCharacter,
    InvalidCoordinateRange,
    InvalidLength,
    InvalidHash,
}

/// The longest geohash that can be asked for.
pub const MAX_GEOHASH_LENGTH: usize = 12;

/// The geohash of a point at full length, twelve characters, or `None` where
/// the latitude is not within [-90, 90] or the longitude not within
/// [-180, 180]. It stands for what `geohash::encode` computes from the two
/// numbers: the bits of both, interleaved and written in base 32.
pub uninterp spec fn geohash_digits(lat: s2::s1::Deg, long: s2::s1::Deg) -> Option<Seq<char>>;

/// Whether `c` belongs to the alphabet of geohashes: the digits and the
/// lower-case letters without `a`, `i`, `l` and `o`.
pub open spec fn is_geohash_char(c: char) -> bool {
    ('0' <= c <= '9') || ('b' <= c <= 'h') || c == 'j' || c == 'k' || c == 'm' || c == 'n' || (
    'p' <= c <= 'z')
}

/// The first `len` of `digits`.
pub open spec fn first_digits(digits: Seq<char>, len: usize) -> Seq<char> {
    Seq::new(len as nat, |i: int| digits[i])
}

/// The geohash of a point at a length: a coordinate out of range is refused
/// first, then a length outside 1 to 12; otherwise the geohash is the first
/// `len` characters of the full one.
pub open spec fn geohash_text(lat: s2::s1::Deg, long: s2::s1::Deg, len: usize) -> Result<
    Seq<char>,
    EncodeError,
> {
    match geohash_digits(lat, long) {
        None => Err(EncodeError::InvalidCoordinateRange),
        Some(digits) => if 1 <= len <= MAX_GEOHASH_LENGTH {
            Ok(first_digits(digits, len))
        } else {
            Err(EncodeError::InvalidPrecision)
        },
    }
}

/// A shorter geohash of a location is the beginning of every longer one:
/// more characters refine a token and never change what was there.
pub proof fn law_geohash_refines(
    lat: s2::s1::Deg,
    long: s2::s1::Deg,
    shorter: usize,
    longer: usize,
)
    requires
        1 <= shorter <= longer <= MAX_GEOHASH_LENGTH,
        geohash_digits(lat, long) is Some,
    ensures
        geohash_text(lat, long, shorter) matches Ok(short) && geohash_text(lat, long, longer)
            matches Ok(long_text) && short.is_prefix_of(long_text),
{
    let digits = geohash_digits(lat, long)->Some_0;
    assert(first_digits(digits, shorter) =~= first_digits(digits, longer).subrange(
        0,
        shorter as int,
    ));
}

/// `geohash::encode` on the point with `x` the longitude and `y` the
/// latitude. It refuses a coordinate out of range, then a length outside 1 to
/// 12, and else returns `len` characters of the geohash alphabet: the leading
/// ones of the twelve that it would return for the same point at full length.
#[verifier::external_body]
fn geohash_encode(lat: s2::s1::Deg, long: s2::s1::Deg, len: usize) -> (r: Result<
    String,
    GeohashFailure,
>)
    ensures
        match r {
            Ok(text) => geohash_digits(lat, long) matches Some(digits) && digits.len() == 12 && (
            forall|i: int| 0 <= i < 12 ==> is_geohash_char(#[trigger] digits[i])) && 1 <= len
                <= MAX_GEOHASH_LENGTH && text@ == first_digits(digits, len),
            Err(e) => if geohash_digits(lat, long) is None {
                e is InvalidCoordinateRange
            } else {
                e is InvalidLength && !(1 <= len <= MAX_GEOHASH_LENGTH)
            },
        },
{
    match geohash::encode(geohash::Coord { x: long.0, y: lat.0 }, len) {
        Ok(text) => Ok(text),
        Err(geohash::GeohashError::InvalidHashCharacter(_)) => Err(
            GeohashFailure::InvalidHashCharacter,
        ),
        Err(geohash::GeohashError::InvalidCoordinateRange(_)) => Err(
            GeohashFailure::InvalidCoordinateRange,
        ),
        Err(geohash::GeohashError::InvalidLength(_)) => Err(GeohashFailure::InvalidLength),
        Err(geohash::GeohashError::InvalidHash(_)) => Err(GeohashFailure::InvalidHash),
    }
}

/// `s2::cellid::CellID::from` on the `s2::latlng::LatLng` of the two angles:
/// a leaf cell. Which leaf it is rests on the sine and cosine of the
/// platform, whose last bits are not fixed, so no more is said of it.
#[verifier::external_body]
fn leaf_cell_at(lat: s2::s1::Deg, long: s2::s1::Deg) -> (id: u64)
    ensures
        is_leaf(id),
{
    s2::cellid::CellID::from(s2::latlng::LatLng::new(lat.into(), long.into())).0
}

/// A location: its latitude and longitude in degrees, and the leaf cell of
/// the S2 hierarchy that was found for it.
#[derive(Debug, Clone, Copy, PartialEq)]
pub struct Coords {
    lat: s2::s1::Deg,
    long: s2::s1::Deg,
    leaf: u64,
}

impl Coords {
    /// The leaf is one: a cell of the finest level.
    #[verifier::type_invariant]
    pub closed spec fn wf(self) -> bool {
        is_leaf(self.leaf)
    }

    pub closed spec fn latitude(self) -> s2::s1::Deg {
        self.lat
    }

    pub closed spec fn longitude(self) -> s2::s1::Deg {
        self.long
    }

    pub closed spec fn leaf_cell(self) -> u64 {
        self.leaf
    }

    /// What `wf` says of the leaf.
    pub proof fn lemma_leaf(self)
        requires
            self.wf(),
        ensures
            is_leaf(self.leaf_cell()),
    {
    }

    /// The location at a latitude and a longitude.
    pub fn new(lat: s2::s1::Deg, long: s2::s1::Deg) -> (coords: Coords)
        ensures
            coords.wf(),
            coords.latitude() == lat,
            coords.longitude() == long,
    {
        let leaf = leaf_cell_at(lat, long);
        Coords { lat, long, leaf }
    }

    /// The latitude of the location.
    pub fn lat(&self) -> (lat: s2::s1::Deg)
        ensures
            lat == self.latitude(),
    {
        self.lat
    }

    /// The longitude of the location.
    pub fn long(&self) -> (long: s2::s1::Deg)
        ensures
            long == self.longitude(),
    {
        self.long
    }

    /// The leaf cell that holds the location.
    pub fn leaf(&self) -> (id: u64)
        ensures
            id == self.leaf_cell(),
            is_leaf(id),
    {
        proof {
            use_type_invariant(self);
        }
        self.leaf
    }
}

/// The geohash of a location with `precision` characters.
pub fn geohash_from_coords(coords: Coords, precision: usize) -> (r: Result<String, EncodeError>)
    ensures
        match r {
            Ok(token) => geohash_text(coords.latitude(), coords.longitude(), precision) == Ok::<
                Seq<char>,
                EncodeError,
            >(token@) && token@.len() == precision && forall|i: int|
                0 <= i < token@.len() ==> is_geohash_char(#[trigger] token@[i]),
            Err(e) => geohash_text(coords.latitude(), coords.longitude(), precision) == Err::<
                Seq<char>,
                EncodeError,
            >(e),
        },
{
    match geohash_encode(coords.lat, coords.long, precision) {
        Ok(token) => Ok(token),
        Err(GeohashFailure::InvalidCoordinateRange) => Err(EncodeError::InvalidCoordinateRange),
        Err(_) => Err(EncodeError::InvalidPrecision),
    }
}

/// What `s2_cell_from_coords` returns: the token of the ancestor at `level` of
/// the location's leaf, and a refusal of a level above the highest.
pub open spec fn s2_cell_text(coords: Coords, level: usize) -> Result<Seq<char>, EncodeError> {
    token_at_level_spec(coords.leaf_cell(), level)
}

/// The token of the S2 cell that holds a location at level `precision`: the
/// leaf found for the location, walked up to its ancestor at that level.
pub fn s2_cell_from_coords(coords: Coords, precision: usize) -> (r: Result<String, EncodeError>)
    ensures
        match r {
            Ok(token) => s2_cell_text(coords, precision) == Ok::<Seq<char>, EncodeError>(token@),
            Err(e) => s2_cell_text(coords, precision) == Err::<Seq<char>, EncodeError>(e),
        },
        r is Err <==> precision > MAX_LEVEL,
        r matches Ok(token) ==> token@ == token_text(
            ancestor(coords.leaf_cell(), precision as u64),
        ),
{
    proof {
        use_type_invariant(&coords);
        if precision <= MAX_LEVEL {
            lemma_leaf_at_level(coords.leaf, precision as u64);
        }
    }
    token_at_level(coords.leaf, precision)
}

/// Whether an encoding offers a precision: a geohash has from one to twelve
/// characters, a cell a level from zero to thirty.
pub open spec fn precision_offered(encoding: SpatialEncoding, precision: usize) -> bool {
    match encoding {
        SpatialEncoding::Geohash => 1 <= precision <= MAX_GEOHASH_LENGTH,
        SpatialEncoding::S2Cell => precision <= MAX_LEVEL,
    }
}

/// The token of a location in an encoding at a precision.
pub open spec fn spatial_token(encoding: SpatialEncoding, precision: usize, coords: Coords) -> Result<
    Seq<char>,
    EncodeError,
> {
    match encoding {
        SpatialEncoding::Geohash => geohash_text(coords.latitude(), coords.longitude(), precision),
        SpatialEncoding::S2Cell => s2_cell_text(coords, precision),
    }
}

/// The token of a location in an encoding at a precision.
pub fn encode(encoding: SpatialEncoding, precision: usize, coords: Coords) -> (r: Result<
    String,
    EncodeError,
>)
    ensures
        match r {
            Ok(token) => spatial_token(encoding, precision, coords) == Ok::<Seq<char>, EncodeError>(
                token@,
            ),
            Err(e) => spatial_token(encoding, precision, coords) == Err::<Seq<char>, EncodeError>(e),
        },
{
    match encoding {
        SpatialEncoding::Geohash => geohash_from_coords(coords, precision),
        SpatialEncoding::S2Cell => s2_cell_from_coords(coords, precision),
    }
}

} // verus!
