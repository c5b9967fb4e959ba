//! Records as points of a time series.
use crate::geoip::SpatialEncoding;
use crate::record::{AuthAttemptRecord, AuthAttemptRecordView};
use vstd::prelude::*;

verus! {

/// A point of a time series, as the `influx_db_client` crate holds it.
#[verifier::external_type_specification]
#[verifier::external_body]
pub struct ExPoint<'a>(influx_db_client::Point<'a>);

/// The unit in which the store is to read the time of a point.
#[verifier::external_type_specification]
pub struct ExPrecision(influx_db_client::Precision);

/// What the store answers when it does not take a point.
#[verifier::external_type_specification]
pub struct ExError(influx_db_client::Error);

/// Why a record could not be written.
#[derive(Debug, Clone, Copy, PartialEq, Eq, Structural)]
pub enum StorageError {
    /// The store could not read the point.
    MalformedPoint,
    /// The store did not accept the credentials.
    InvalidCredentials,
    /// The store has no database of the name that was set.
    UnknownDatabase,
    /// The store has no retention policy of the name that was set.
    UnknownRetentionPolicy,
    /// The store could not be reached or did not answer.
    Communication,
    /// The store failed in a way that it did not name.
    Other,
}

/// The reason that stands for an answer of the store.
pub open spec fn storage_error(answer: influx_db_client::Error) -> StorageError {
    match answer {
        influx_db_client::Error::SyntaxError(_) => StorageError::MalformedPoint,
        influx_db_client::Error::InvalidCredentials(_) => StorageError::InvalidCredentials,
        influx_db_client::Error::DataBaseDoesNotExist(_) => StorageError::UnknownDatabase,
        influx_db_client::Error::RetentionPolicyDoesNotExist(_) => StorageError::UnknownRetentionPolicy,
        influx_db_client::Error::Communication(_) => StorageError::Communication,
        influx_db_client::Error::Unknow(_) => StorageError::Other,
    }
}

impl StorageError {
    /// The reason that stands for an answer of the store.
    pub fn of(answer: &influx_db_client::Error) -> (reason: StorageError)
        ensures
            reason == storage_error(*answer),
    {
        match answer {
            influx_db_client::Error::SyntaxError(_) => StorageError::MalformedPoint,
            influx_db_client::Error::InvalidCredentials(_) => StorageError::InvalidCredentials,
            influx_db_client::Error::DataBaseDoesNotExist(_) => StorageError::UnknownDatabase,
            influx_db_client::Error::RetentionPolicyDoesNotExist(_) => {
                StorageError::UnknownRetentionPolicy
            },
            influx_db_client::Error::Communication(_) => StorageError::Communication,
            influx_db_client::Error::Unknow(_) => StorageError::Other,
        }
    }
}

/// The value of a tag or of a field of a point.
pub enum ValueView {
    Text(Seq<char>),
    Integer(i64),
    /// A number with a fraction, by its sixty-four bits.
    Float(u64),
    Boolean(bool),
}

/// The contents of a point.
pub struct PointView {
    pub measurement: Seq<char>,
    pub tags: Map<Seq<char>, ValueView>,
    pub fields: Map<Seq<char>, ValueView>,
    pub timestamp: Option<i64>,
}

/// What a point holds: the name of its measurement, its tags and its fields
/// by their keys, and its time where it has one.
pub uninterp spec fn point_view(point: influx_db_client::Point<'static>) -> PointView;

/// The measurement that every record is written to.
pub const MEASUREMENT: &'static str = "ssh_auth";

/// The key of the field that holds the user name.
pub const USERNAME_KEY: &'static str = "username";

/// The key of the field that holds the address.
pub const IP_KEY: &'static str = "ip";

/// The key of the field that holds a geohash.
pub const GEOHASH_KEY: &'static str = "geohash";

/// The key of the field that holds the token of a cell.
pub const S2_CELL_KEY: &'static str = "s2_cell_id";

/// The key of the field that holds the token of an encoding.
pub open spec fn token_key(encoding: SpatialEncoding) -> Seq<char> {
    match encoding {
        SpatialEncoding::Geohash => GEOHASH_KEY@,
        SpatialEncoding::S2Cell => S2_CELL_KEY@,
    }
}

/// The point of a record: the measurement, no tag, the three fields of the
/// record under their keys, and no time, so that the store gives it the time
/// at which it is written.
pub open spec fn record_point(encoding: SpatialEncoding, record: AuthAttemptRecordView)
    -> PointView {
    PointView {
        measurement: MEASUREMENT@,
        tags: Map::empty(),
        fields: Map::<Seq<char>, ValueView>::empty().insert(
            USERNAME_KEY@,
            ValueView::Text(record.username),
        ).insert(token_key(encoding), ValueView::Text(record.token)).insert(
            IP_KEY@,
            ValueView::Text(record.ip),
        ),
        timestamp: None,
    }
}

/// `influx_db_client::Point::new`: a point of the measurement with no tag,
/// no field and no time.
#[verifier::external_body]
fn new_point(measurement: &str) -> (point: influx_db_client::Point<'static>)
    ensures
        point_view(point) == (PointView {
            measurement: measurement@,
            tags: Map::empty(),
            fields: Map::empty(),
            timestamp: None,
        }),
{
    influx_db_client::Point::new(measurement)
}

/// `influx_db_client::Point::add_field` with a `Value::String`: the point
/// with the text under the key among its fields, in place of what was there
/// under that key, and all else as it was.
#[verifier::external_body]
fn add_text_field(point: influx_db_client::Point<'static>, key: &str, text: String) -> (r:
    influx_db_client::Point<'static>)
    ensures
        point_view(r) == (PointView {
            fields: point_view(point).fields.insert(key@, ValueView::Text(text@)),
            ..point_view(point)
        }),
{
    point.add_field(key, influx_db_client::Value::String(text.into()))
}

/// What is handed to the store for one record.
pub struct WriteRequest {
    /// The point to write.
    pub point: influx_db_client::Point<'static>,
    /// The unit of the point's time.
    pub precision: influx_db_client::Precision,
    /// The retention policy to write under, where one is set.
    pub retention_policy: Option<String>,
}

/// The point of a record.
pub fn point_of(encoding: SpatialEncoding, record: AuthAttemptRecord) -> (point:
    influx_db_client::Point<'static>)
    ensures
        point_view(point) == record_point(encoding, record@),
{
    let key = match encoding {
        SpatialEncoding::Geohash => GEOHASH_KEY,
        SpatialEncoding::S2Cell => S2_CELL_KEY,
    };
    let point = new_point(MEASUREMENT);
    let point = add_text_field(point, USERNAME_KEY, record.username);
    let point = add_text_field(point, key, record.token);
    add_text_field(point, IP_KEY, record.ip)
}

} // verus!
