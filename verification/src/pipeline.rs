//! The settings of a pipeline and the decisions that it takes on each
//! connection.
use crate::connection::{next, Action, CloseReason, Event, HandlerState, SkipReason};
use crate::framing::line_text;
use crate::geoip::cell::MAX_LEVEL;
use crate::geoip::{encode, precision_offered, SpatialEncoding, MAX_GEOHASH_LENGTH};
use crate::record::AuthAttemptRecord;
use crate::storage::{point_of, point_view, record_point, WriteRequest};
use vstd::prelude::*;

verus! {

/// What is done on a connection when a line describes no attempt.
#[derive(Debug, Clone, Copy, PartialEq, Eq, Structural)]
pub enum DecodePolicy {
    /// The line is dropped and the connection goes on.
    SkipLine,
    /// The connection is closed.
    CloseConnection,
}

/// Why settings were refused.
#[derive(Debug, Clone, Copy, PartialEq, Eq, Structural)]
pub enum ConfigError {
    /// A geohash was asked for with no character or with more than twelve.
    GeohashLengthOutOfRange,
    /// A cell was asked for at a level above the highest.
    LevelAboveMaximum,
}

/// The settings that every connection of a pipeline shares.
pub struct Pipeline {
    encoding: SpatialEncoding,
    precision: usize,
    retention_policy: Option<String>,
    decode_policy: DecodePolicy,
}

/// The contents of a `Pipeline`.
pub struct PipelineView {
    pub encoding: SpatialEncoding,
    pub precision: usize,
    pub retention_policy: Option<Seq<char>>,
    pub decode_policy: DecodePolicy,
}

impl PipelineView {
    /// The encoding offers the precision.
    pub open spec fn wf(self) -> bool {
        precision_offered(self.encoding, self.precision)
    }
}

impl View for Pipeline {
    type V = PipelineView;

    closed spec fn view(&self) -> PipelineView {
        PipelineView {
            encoding: self.encoding,
            precision: self.precision,
            retention_policy: match self.retention_policy {
                Some(name) => Some(name@),
                None => None,
            },
            decode_policy: self.decode_policy,
        }
    }
}

/// What `Pipeline::new` answers to an encoding and a precision that the
/// encoding does not offer.
pub open spec fn refusal(encoding: SpatialEncoding) -> ConfigError {
    match encoding {
        SpatialEncoding::Geohash => ConfigError::GeohashLengthOutOfRange,
        SpatialEncoding::S2Cell => ConfigError::LevelAboveMaximum,
    }
}

impl Pipeline {
    #[verifier::type_invariant]
    closed spec fn inv(self) -> bool {
        precision_offered(self.encoding, self.precision)
    }

    /// A pipeline with the given settings. A precision that the encoding
    /// does not offer is refused here, once, and so never met on a record.
    pub fn new(
        encoding: SpatialEncoding,
        precision: usize,
        retention_policy: Option<String>,
        decode_policy: DecodePolicy,
    ) -> (r: Result<Pipeline, ConfigError>)
        ensures
            match r {
                Ok(pipeline) => precision_offered(encoding, precision) && pipeline@ == (PipelineView {
                    encoding,
                    precision,
                    retention_policy: match retention_policy {
                        Some(name) => Some(name@),
                        None => None,
                    },
                    decode_policy,
                }),
                Err(e) => !precision_offered(encoding, precision) && e == refusal(encoding),
            },
    {
        match encoding {
            SpatialEncoding::Geohash => {
                if precision < 1 || precision > MAX_GEOHASH_LENGTH {
                    return Err(ConfigError::GeohashLengthOutOfRange);
                }
            },
            SpatialEncoding::S2Cell => {
                if precision > MAX_LEVEL as usize {
                    return Err(ConfigError::LevelAboveMaximum);
                }
            },
        }
        Ok(Pipeline { encoding, precision, retention_policy, decode_policy })
    }

    /// The encoding that tokens are written in.
    pub fn encoding(&self) -> (encoding: SpatialEncoding)
        ensures
            encoding == self@.encoding,
    {
        self.encoding
    }

    /// The precision of the tokens, one that the encoding offers.
    pub fn precision(&self) -> (precision: usize)
        ensures
            precision == self@.precision,
            precision_offered(self@.encoding, precision),
    {
        proof {
            use_type_invariant(self);
        }
        self.precision
    }

    /// The retention policy that records are written under, where one is set.
    pub fn retention_policy(&self) -> (policy: Option<&String>)
        ensures
            match policy {
                Some(name) => self@.retention_policy == Some(name@),
                None => self@.retention_policy.is_none(),
            },
    {
        match &self.retention_policy {
            Some(name) => Some(name),
            None => None,
        }
    }

    /// What is done when a line describes no attempt.
    pub fn decode_policy(&self) -> (policy: DecodePolicy)
        ensures
            policy == self@.decode_policy,
    {
        self.decode_policy
    }

    /// Where a connection begins: waiting for its first line.
    pub fn start(&self) -> (r: (HandlerState, Action))
        ensures
            r.0 == HandlerState::AwaitingLine,
            r.1 == Action::ReadLine,
    {
        (HandlerState::AwaitingLine, Action::ReadLine)
    }

    /// One step of a connection: the state that follows `state` when `event`
    /// happens, and what is to be done then.
    pub fn step(&self, state: HandlerState, event: Event) -> (r: (HandlerState, Action))
        ensures
            (r.0@, r.1@) == next(self@, state@, event@),
    {
        match state {
            HandlerState::Closed(reason) => (HandlerState::Closed(reason), Action::Close(reason)),
            HandlerState::AwaitingLine => match event {
                Event::Line(line) => (HandlerState::Decoding, Action::Decode(line_text(line.as_str()))),
                Event::EndOfStream => Self::close(CloseReason::EndOfStream),
                Event::ReadFailed => Self::close(CloseReason::ReadFailed),
                _ => Self::close(CloseReason::UnexpectedEvent),
            },
            HandlerState::Decoding => match event {
                Event::Decoded(attempt) => {
                    if attempt.has_no_match() {
                        Self::skip(SkipReason::NoMatch)
                    } else {
                        let ip = attempt.ip.clone();
                        (HandlerState::Resolving(attempt), Action::Resolve(ip))
                    }
                },
                Event::DecodeFailed => match self.decode_policy {
                    DecodePolicy::SkipLine => Self::skip(SkipReason::DecodeFailed),
                    DecodePolicy::CloseConnection => Self::close(CloseReason::DecodeFailed),
                },
                _ => Self::close(CloseReason::UnexpectedEvent),
            },
            HandlerState::Resolving(attempt) => match event {
                Event::Resolved(coords) => match encode(self.encoding, self.precision, coords) {
                    Ok(token) => (
                        HandlerState::Writing,
                        Action::Write(
                            AuthAttemptRecord { token, username: attempt.username, ip: attempt.ip },
                        ),
                    ),
                    Err(e) => Self::skip(SkipReason::EncodingFailed(e)),
                },
                Event::ResolveFailed(e) => Self::skip(SkipReason::ResolutionFailed(e)),
                _ => Self::close(CloseReason::UnexpectedEvent),
            },
            HandlerState::Writing => match event {
                Event::Written => (HandlerState::AwaitingLine, Action::ReadLine),
                Event::WriteFailed(e) => Self::close(CloseReason::WriteFailed(e)),
                _ => Self::close(CloseReason::UnexpectedEvent),
            },
        }
    }

    /// What is handed to the store for a record: its point, the time of
    /// which is counted in seconds, and the retention policy of the
    /// pipeline, as it was set.
    pub fn store_auth_attempt(&self, attempt: AuthAttemptRecord) -> (request: WriteRequest)
        ensures
            point_view(request.point) == record_point(self@.encoding, attempt@),
            request.precision == influx_db_client::Precision::Seconds,
            match request.retention_policy {
                Some(name) => self@.retention_policy == Some(name@),
                None => self@.retention_policy.is_none(),
            },
    {
        let retention_policy = match &self.retention_policy {
            Some(name) => Some(name.clone()),
            None => None,
        };
        WriteRequest {
            point: point_of(self.encoding, attempt),
            precision: influx_db_client::Precision::Seconds,
            retention_policy,
        }
    }

    fn close(reason: CloseReason) -> (r: (HandlerState, Action))
        ensures
            r.0 == HandlerState::Closed(reason),
            r.1 == Action::Close(reason),
    {
        (HandlerState::Closed(reason), Action::Close(reason))
    }

    fn skip(reason: SkipReason) -> (r: (HandlerState, Action))
        ensures
            r.0 == HandlerState::AwaitingLine,
            r.1 == Action::SkipLine(reason),
    {
        (HandlerState::AwaitingLine, Action::SkipLine(reason))
    }
}

} // verus!
