//! One connection, seen as a machine that is told what happened and answers
//! what to do next.
//!
//! The machine waits in one of four states for what it last asked for: a line,
//! the attempt that the line describes, the location of the attempt's address,
//! or the end of a write. Turning a location into a token is a computation,
//! not a wait, so it happens within the step that receives the location. A
//! fifth state, `Closed`, is never left.
pub mod laws;

use crate::framing::trimmed;
use crate::geoip::{spatial_token, Coords, EncodeError, ResolutionError};
use crate::pipeline::{DecodePolicy, PipelineView};
use crate::record::{
    AuthAttempt, AuthAttemptRecord, AuthAttemptRecordView, AuthAttemptView, NO_MATCH,
};
use crate::storage::StorageError;
use vstd::prelude::*;

verus! {

/// Why a connection was closed.
#[derive(Debug, Clone, Copy, PartialEq, Eq, Structural)]
pub enum CloseReason {
    /// The peer sent all it had.
    EndOfStream,
    /// Reading from the connection failed.
    ReadFailed,
    /// A line was no attempt, and the pipeline closes on such a line.
    DecodeFailed,
    /// A record could not be written.
    WriteFailed(StorageError),
    /// The machine was told of something that it had not asked for.
    UnexpectedEvent,
}

/// Why a line left no record.
#[derive(Debug, Clone, Copy, PartialEq, Eq, Structural)]
pub enum SkipReason {
    /// The line carries no address.
    NoMatch,
    /// The line was no attempt, and the pipeline skips such a line.
    DecodeFailed,
    /// No location was found for the address.
    ResolutionFailed(ResolutionError),
    /// The location could not be written down as a token.
    EncodingFailed(EncodeError),
}

/// What a connection is waiting for.
#[derive(Debug, PartialEq, Eq)]
pub enum HandlerState {
    /// The next line.
    AwaitingLine,
    /// The attempt that the last line describes.
    Decoding,
    /// The location of the attempt's address.
    Resolving(AuthAttempt),
    /// The end of the write of a record.
    Writing,
    /// Nothing: the connection is closed.
    Closed(CloseReason),
}

/// The contents of a `HandlerState`.
pub enum HandlerStateView {
    AwaitingLine,
    Decoding,
    Resolving(AuthAttemptView),
    Writing,
    Closed(CloseReason),
}

impl View for HandlerState {
    type V = HandlerStateView;

    open spec fn view(&self) -> HandlerStateView {
        match self {
            HandlerState::AwaitingLine => HandlerStateView::AwaitingLine,
            HandlerState::Decoding => HandlerStateView::Decoding,
            HandlerState::Resolving(attempt) => HandlerStateView::Resolving(attempt@),
            HandlerState::Writing => HandlerStateView::Writing,
            HandlerState::Closed(reason) => HandlerStateView::Closed(*reason),
        }
    }
}

/// What happened on a connection.
#[derive(Debug, PartialEq)]
pub enum Event {
    /// A line was read.
    Line(String),
    /// There was nothing left to read.
    EndOfStream,
    /// Reading failed.
    ReadFailed,
    /// The line describes this attempt.
    Decoded(AuthAttempt),
    /// The line describes no attempt.
    DecodeFailed,
    /// The address is at this location.
    Resolved(Coords),
    /// No location was found for the address.
    ResolveFailed(ResolutionError),
    /// The record was written.
    Written,
    /// The record could not be written.
    WriteFailed(StorageError),
}

/// The contents of an `Event`.
pub enum EventView {
    Line(Seq<char>),
    EndOfStream,
    ReadFailed,
    Decoded(AuthAttemptView),
    DecodeFailed,
    Resolved(Coords),
    ResolveFailed(ResolutionError),
    Written,
    WriteFailed(StorageError),
}

impl View for Event {
    type V = EventView;

    open spec fn view(&self) -> EventView {
        match self {
            Event::Line(line) => EventView::Line(line@),
            Event::EndOfStream => EventView::EndOfStream,
            Event::ReadFailed => EventView::ReadFailed,
            Event::Decoded(attempt) => EventView::Decoded(attempt@),
            Event::DecodeFailed => EventView::DecodeFailed,
            Event::Resolved(coords) => EventView::Resolved(*coords),
            Event::ResolveFailed(e) => EventView::ResolveFailed(*e),
            Event::Written => EventView::Written,
            Event::WriteFailed(e) => EventView::WriteFailed(*e),
        }
    }
}

/// What is to be done next on a connection.
#[derive(Debug, PartialEq, Eq)]
pub enum Action {
    /// Read the next line.
    ReadLine,
    /// Say why the last line left no record, then read the next line.
    SkipLine(SkipReason),
    /// Find the attempt that this text describes.
    Decode(String),
    /// Find the location of this address.
    Resolve(String),
    /// Write this record.
    Write(AuthAttemptRecord),
    /// Stop: the connection is closed.
    Close(CloseReason),
}

/// The contents of an `Action`.
pub enum ActionView {
    ReadLine,
    SkipLine(SkipReason),
    Decode(Seq<char>),
    Resolve(Seq<char>),
    Write(AuthAttemptRecordView),
    Close(CloseReason),
}

impl View for Action {
    type V = ActionView;

    open spec fn view(&self) -> ActionView {
        match self {
            Action::ReadLine => ActionView::ReadLine,
            Action::SkipLine(reason) => ActionView::SkipLine(*reason),
            Action::Decode(text) => ActionView::Decode(text@),
            Action::Resolve(ip) => ActionView::Resolve(ip@),
            Action::Write(record) => ActionView::Write(record@),
            Action::Close(reason) => ActionView::Close(*reason),
        }
    }
}

/// Closing for a reason: the state that is never left, and the order to stop.
pub open spec fn closed(reason: CloseReason) -> (HandlerStateView, ActionView) {
    (HandlerStateView::Closed(reason), ActionView::Close(reason))
}

/// Dropping a line for a reason: back to waiting for the next one.
pub open spec fn skipped(reason: SkipReason) -> (HandlerStateView, ActionView) {
    (HandlerStateView::AwaitingLine, ActionView::SkipLine(reason))
}

/// The state that follows `state` when `event` happens, and what is to be
/// done then.
pub open spec fn next(pipeline: PipelineView, state: HandlerStateView, event: EventView) -> (
    HandlerStateView,
    ActionView,
) {
    match state {
        HandlerStateView::Closed(reason) => closed(reason),
        HandlerStateView::AwaitingLine => match event {
            EventView::Line(line) => (HandlerStateView::Decoding, ActionView::Decode(trimmed(line))),
            EventView::EndOfStream => closed(CloseReason::EndOfStream),
            EventView::ReadFailed => closed(CloseReason::ReadFailed),
            _ => closed(CloseReason::UnexpectedEvent),
        },
        HandlerStateView::Decoding => match event {
            EventView::Decoded(attempt) => if attempt.ip == NO_MATCH@ {
                skipped(SkipReason::NoMatch)
            } else {
                (HandlerStateView::Resolving(attempt), ActionView::Resolve(attempt.ip))
            },
            EventView::DecodeFailed => match pipeline.decode_policy {
                DecodePolicy::SkipLine => skipped(SkipReason::DecodeFailed),
                DecodePolicy::CloseConnection => closed(CloseReason::DecodeFailed),
            },
            _ => closed(CloseReason::UnexpectedEvent),
        },
        HandlerStateView::Resolving(attempt) => match event {
            EventView::Resolved(coords) => match spatial_token(
                pipeline.encoding,
                pipeline.precision,
                coords,
            ) {
                Ok(token) => (
                    HandlerStateView::Writing,
                    ActionView::Write(
                        AuthAttemptRecordView { token, username: attempt.username, ip: attempt.ip },
                    ),
                ),
                Err(e) => skipped(SkipReason::EncodingFailed(e)),
            },
            EventView::ResolveFailed(e) => skipped(SkipReason::ResolutionFailed(e)),
            _ => closed(CloseReason::UnexpectedEvent),
        },
        HandlerStateView::Writing => match event {
            EventView::Written => (HandlerStateView::AwaitingLine, ActionView::ReadLine),
            EventView::WriteFailed(e) => closed(CloseReason::WriteFailed(e)),
            _ => closed(CloseReason::UnexpectedEvent),
        },
    }
}

/// The state of a connection that was in `state` when `events` happened, one
/// after the other.
pub open spec fn run(pipeline: PipelineView, state: HandlerStateView, events: Seq<EventView>)
    -> HandlerStateView
    decreases events.len(),
{
    if events.len() == 0 {
        state
    } else {
        run(pipeline, next(pipeline, state, events.first()).0, events.drop_first())
    }
}

/// What was to be done after each of `events`, in their order.
pub open spec fn actions(pipeline: PipelineView, state: HandlerStateView, events: Seq<EventView>)
    -> Seq<ActionView>
    decreases events.len(),
{
    if events.len() == 0 {
        Seq::empty()
    } else {
        seq![next(pipeline, state, events.first()).1] + actions(
            pipeline,
            next(pipeline, state, events.first()).0,
            events.drop_first(),
        )
    }
}

/// The records that `actions` ask to write, in their order.
pub open spec fn records(actions: Seq<ActionView>) -> Seq<AuthAttemptRecordView>
    decreases actions.len(),
{
    if actions.len() == 0 {
        Seq::empty()
    } else {
        match actions.first() {
            ActionView::Write(record) => seq![record] + records(actions.drop_first()),
            _ => records(actions.drop_first()),
        }
    }
}

/// The records that a connection asks to write when `events` happen on it
/// from its beginning.
pub open spec fn written(pipeline: PipelineView, events: Seq<EventView>) -> Seq<
    AuthAttemptRecordView,
> {
    records(actions(pipeline, HandlerStateView::AwaitingLine, events))
}

/// Whether `event` is the decoding of an attempt with this user name and this
/// address.
pub open spec fn is_decoding_of(event: EventView, username: Seq<char>, ip: Seq<char>) -> bool {
    match event {
        EventView::Decoded(attempt) => attempt.username == username && attempt.ip == ip,
        _ => false,
    }
}

/// Whether one of `events` is the decoding of an attempt with this user name
/// and this address.
pub open spec fn decoded_in(events: Seq<EventView>, username: Seq<char>, ip: Seq<char>) -> bool {
    exists|j: int|
        0 <= j < events.len() && is_decoding_of(#[trigger] events[j], username, ip)
}

/// The first event and the rest: one step, then the run of the rest.
pub proof fn lemma_first_step(
    pipeline: PipelineView,
    state: HandlerStateView,
    event: EventView,
    rest: Seq<EventView>,
)
    ensures
        run(pipeline, state, seq![event] + rest) == run(
            pipeline,
            next(pipeline, state, event).0,
            rest,
        ),
        actions(pipeline, state, seq![event] + rest) == seq![next(pipeline, state, event).1]
            + actions(pipeline, next(pipeline, state, event).0, rest),
{
    let events = seq![event] + rest;
    assert(events.first() == event);
    assert(events.drop_first() =~= rest);
}

/// The records of two sequences of actions, one after the other.
pub proof fn lemma_records_concat(first: Seq<ActionView>, second: Seq<ActionView>)
    ensures
        records(first + second) == records(first) + records(second),
    decreases first.len(),
{
    if first.len() == 0 {
        assert(first + second =~= second);
        assert(records(first) + records(second) =~= records(second));
    } else {
        assert((first + second).first() == first.first());
        assert((first + second).drop_first() =~= first.drop_first() + second);
        lemma_records_concat(first.drop_first(), second);
        match first.first() {
            ActionView::Write(record) => {
                assert(seq![record] + (records(first.drop_first()) + records(second)) =~= (
                seq![record] + records(first.drop_first())) + records(second));
            },
            _ => {},
        }
    }
}

/// Events that happen after others: the run goes on from where the first
/// ones left the connection.
pub proof fn lemma_run_concat(
    pipeline: PipelineView,
    state: HandlerStateView,
    first: Seq<EventView>,
    second: Seq<EventView>,
)
    ensures
        run(pipeline, state, first + second) == run(
            pipeline,
            run(pipeline, state, first),
            second,
        ),
        actions(pipeline, state, first + second) == actions(pipeline, state, first) + actions(
            pipeline,
            run(pipeline, state, first),
            second,
        ),
    decreases first.len(),
{
    if first.len() == 0 {
        assert(first + second =~= second);
        assert(actions(pipeline, state, first) + actions(pipeline, state, second) =~= actions(
            pipeline,
            state,
            second,
        ));
    } else {
        let then = next(pipeline, state, first.first()).0;
        assert((first + second).first() == first.first());
        assert((first + second).drop_first() =~= first.drop_first() + second);
        lemma_run_concat(pipeline, then, first.drop_first(), second);
        assert(seq![next(pipeline, state, first.first()).1] + (actions(
            pipeline,
            then,
            first.drop_first(),
        ) + actions(pipeline, run(pipeline, then, first.drop_first()), second)) =~= (seq![
            next(pipeline, state, first.first()).1,
        ] + actions(pipeline, then, first.drop_first())) + actions(
            pipeline,
            run(pipeline, then, first.drop_first()),
            second,
        ));
    }
}

/// A closed connection stays closed whatever happens: nothing is read,
/// resolved or written on it again.
pub proof fn law_closed_is_final(
    pipeline: PipelineView,
    reason: CloseReason,
    events: Seq<EventView>,
)
    ensures
        run(pipeline, HandlerStateView::Closed(reason), events) == HandlerStateView::Closed(
            reason,
        ),
        actions(pipeline, HandlerStateView::Closed(reason), events) == Seq::new(
            events.len(),
            |i: int| ActionView::Close(reason),
        ),
        records(actions(pipeline, HandlerStateView::Closed(reason), events)) == Seq::<
            AuthAttemptRecordView,
        >::empty(),
    decreases events.len(),
{
    let state = HandlerStateView::Closed(reason);
    if events.len() == 0 {
        assert(actions(pipeline, state, events) =~= Seq::new(
            events.len(),
            |i: int| ActionView::Close(reason),
        ));
    } else {
        law_closed_is_final(pipeline, reason, events.drop_first());
        assert(actions(pipeline, state, events) =~= Seq::new(
            events.len(),
            |i: int| ActionView::Close(reason),
        ));
        assert(actions(pipeline, state, events).drop_first() =~= actions(
            pipeline,
            state,
            events.drop_first(),
        ));
    }
}

} // verus!
