//! What holds of every connection, whatever is sent over it.
use crate::connection::{
    actions, decoded_in, is_decoding_of, law_closed_is_final, lemma_first_step, lemma_records_concat,
    lemma_run_concat, next, records, run, written, ActionView, CloseReason, EventView,
    HandlerStateView, SkipReason,
};
use crate::framing::trimmed;
use crate::geoip::cell::{
    ancestor, lemma_ancestor_level, lemma_leaf_at_level, level_of, token_text,
};
use crate::geoip::{spatial_token, Coords, EncodeError, ResolutionError, SpatialEncoding};
use crate::pipeline::PipelineView;
use crate::record::{AuthAttemptRecordView, AuthAttemptView, NO_MATCH};
use crate::storage::StorageError;
use vstd::prelude::*;

verus! {

/// The events of a line whose attempt is located and written.
pub open spec fn written_line(line: Seq<char>, attempt: AuthAttemptView, coords: Coords) -> Seq<
    EventView,
> {
    seq![
        EventView::Line(line),
        EventView::Decoded(attempt),
        EventView::Resolved(coords),
        EventView::Written,
    ]
}

/// The events of a line whose attempt carries no address.
pub open spec fn unmatched_line(line: Seq<char>, attempt: AuthAttemptView) -> Seq<EventView> {
    seq![EventView::Line(line), EventView::Decoded(attempt)]
}

/// The events of a line for whose address no location is found.
pub open spec fn unresolved_line(line: Seq<char>, attempt: AuthAttemptView, e: ResolutionError)
    -> Seq<EventView> {
    seq![EventView::Line(line), EventView::Decoded(attempt), EventView::ResolveFailed(e)]
}

/// The events of a line whose record could not be written.
pub open spec fn unwritten_line(
    line: Seq<char>,
    attempt: AuthAttemptView,
    coords: Coords,
    e: StorageError,
) -> Seq<EventView> {
    seq![
        EventView::Line(line),
        EventView::Decoded(attempt),
        EventView::Resolved(coords),
        EventView::WriteFailed(e),
    ]
}

/// A cell is found for every location at every level that a pipeline can be
/// set to: with cells as the encoding, no location is refused, and the token
/// is that of a cell at the very level that was set, the ancestor of the
/// location's leaf.
pub proof fn law_every_location_has_a_cell(pipeline: PipelineView, coords: Coords)
    requires
        pipeline.wf(),
        pipeline.encoding == SpatialEncoding::S2Cell,
        coords.wf(),
    ensures
        ({
            let cell = ancestor(coords.leaf_cell(), pipeline.precision as u64);
            &&& spatial_token(pipeline.encoding, pipeline.precision, coords) == Ok::<
                Seq<char>,
                EncodeError,
            >(token_text(cell))
            &&& level_of(cell) == pipeline.precision
        }),
{
    coords.lemma_leaf();
    lemma_leaf_at_level(coords.leaf_cell(), pipeline.precision as u64);
    lemma_ancestor_level(coords.leaf_cell(), pipeline.precision as u64);
}

/// The precision is settled when the pipeline is made: no record is ever
/// refused for it.
pub proof fn law_precision_is_never_refused(pipeline: PipelineView, coords: Coords)
    requires
        pipeline.wf(),
    ensures
        spatial_token(pipeline.encoding, pipeline.precision, coords) != Err::<
            Seq<char>,
            EncodeError,
        >(EncodeError::InvalidPrecision),
{
}

/// A line whose attempt has an address, for which a location is found that
/// has a token, asks for exactly one record to be written. The record holds
/// the user name and the address of the attempt, and its token is the one
/// that the encoding and the precision of the pipeline give to the location.
/// After the write the connection waits for the next line.
pub proof fn law_located_attempt_is_written_once(
    pipeline: PipelineView,
    line: Seq<char>,
    attempt: AuthAttemptView,
    coords: Coords,
    token: Seq<char>,
)
    requires
        attempt.ip != NO_MATCH@,
        spatial_token(pipeline.encoding, pipeline.precision, coords) == Ok::<
            Seq<char>,
            EncodeError,
        >(token),
    ensures
        ({
            let events = written_line(line, attempt, coords);
            let record = AuthAttemptRecordView {
                token,
                username: attempt.username,
                ip: attempt.ip,
            };
            &&& actions(pipeline, HandlerStateView::AwaitingLine, events) == seq![
                ActionView::Decode(trimmed(line)),
                ActionView::Resolve(attempt.ip),
                ActionView::Write(record),
                ActionView::ReadLine,
            ]
            &&& written(pipeline, events) == seq![record]
            &&& run(pipeline, HandlerStateView::AwaitingLine, events)
                == HandlerStateView::AwaitingLine
        }),
{
    let events = written_line(line, attempt, coords);
    let record = AuthAttemptRecordView { token, username: attempt.username, ip: attempt.ip };
    let e0 = EventView::Line(line);
    let e1 = EventView::Decoded(attempt);
    let e2 = EventView::Resolved(coords);
    let e3 = EventView::Written;
    let none = Seq::<EventView>::empty();
    assert(events =~= seq![e0] + (seq![e1] + (seq![e2] + (seq![e3] + none))));
    lemma_first_step(
        pipeline,
        HandlerStateView::AwaitingLine,
        e0,
        seq![e1] + (seq![e2] + (seq![e3] + none)),
    );
    lemma_first_step(pipeline, HandlerStateView::Decoding, e1, seq![e2] + (seq![e3] + none));
    lemma_first_step(pipeline, HandlerStateView::Resolving(attempt), e2, seq![e3] + none);
    lemma_first_step(pipeline, HandlerStateView::Writing, e3, none);
    let asked = seq![
        ActionView::Decode(trimmed(line)),
        ActionView::Resolve(attempt.ip),
        ActionView::Write(record),
        ActionView::ReadLine,
    ];
    assert(actions(pipeline, HandlerStateView::AwaitingLine, events) =~= asked);
    lemma_records_of_four(asked);
    lemma_records_of_one(asked[0]);
    lemma_records_of_one(asked[1]);
    lemma_records_of_one(asked[2]);
    lemma_records_of_one(asked[3]);
    assert(records(asked) =~= seq![record]);
}

/// A line that comes back to waiting leaves the connection as it found it:
/// what follows is handled as if it were all that was ever sent.
proof fn lemma_line_then_rest(pipeline: PipelineView, line: Seq<EventView>, rest: Seq<EventView>)
    requires
        run(pipeline, HandlerStateView::AwaitingLine, line) == HandlerStateView::AwaitingLine,
    ensures
        run(pipeline, HandlerStateView::AwaitingLine, line + rest) == run(
            pipeline,
            HandlerStateView::AwaitingLine,
            rest,
        ),
        written(pipeline, line + rest) == written(pipeline, line) + written(pipeline, rest),
{
    lemma_run_concat(pipeline, HandlerStateView::AwaitingLine, line, rest);
    lemma_records_concat(
        actions(pipeline, HandlerStateView::AwaitingLine, line),
        actions(pipeline, HandlerStateView::AwaitingLine, rest),
    );
}

/// A line that carries no address is passed over, whatever else it says:
/// no location is asked for and no record is written, and the connection
/// goes on with the lines that follow as if the line had not been sent.
pub proof fn law_unmatched_line_is_passed_over(
    pipeline: PipelineView,
    line: Seq<char>,
    attempt: AuthAttemptView,
    rest: Seq<EventView>,
)
    requires
        attempt.ip == NO_MATCH@,
    ensures
        ({
            let events = unmatched_line(line, attempt);
            &&& actions(pipeline, HandlerStateView::AwaitingLine, events) == seq![
                ActionView::Decode(trimmed(line)),
                ActionView::SkipLine(SkipReason::NoMatch),
            ]
            &&& run(pipeline, HandlerStateView::AwaitingLine, events)
                == HandlerStateView::AwaitingLine
            &&& written(pipeline, events) == Seq::<AuthAttemptRecordView>::empty()
            &&& written(pipeline, events + rest) == written(pipeline, rest)
            &&& run(pipeline, HandlerStateView::AwaitingLine, events + rest) == run(
                pipeline,
                HandlerStateView::AwaitingLine,
                rest,
            )
        }),
{
    let events = unmatched_line(line, attempt);
    let e0 = EventView::Line(line);
    let e1 = EventView::Decoded(attempt);
    let none = Seq::<EventView>::empty();
    assert(events =~= seq![e0] + (seq![e1] + none));
    lemma_first_step(pipeline, HandlerStateView::AwaitingLine, e0, seq![e1] + none);
    lemma_first_step(pipeline, HandlerStateView::Decoding, e1, none);
    let asked = seq![
        ActionView::Decode(trimmed(line)),
        ActionView::SkipLine(SkipReason::NoMatch),
    ];
    assert(actions(pipeline, HandlerStateView::AwaitingLine, events) =~= asked);
    assert(asked =~= seq![asked[0]] + seq![asked[1]]);
    lemma_records_concat(seq![asked[0]], seq![asked[1]]);
    lemma_records_of_one(asked[0]);
    lemma_records_of_one(asked[1]);
    assert(records(asked) =~= Seq::<AuthAttemptRecordView>::empty());
    lemma_line_then_rest(pipeline, events, rest);
    assert(written(pipeline, events) + written(pipeline, rest) =~= written(pipeline, rest));
}

/// When no location is found for the address of a line, no record is written
/// for it and the connection stays open: the lines that follow are handled
/// as if the line had not been sent.
pub proof fn law_unresolved_line_is_dropped(
    pipeline: PipelineView,
    line: Seq<char>,
    attempt: AuthAttemptView,
    e: ResolutionError,
    rest: Seq<EventView>,
)
    requires
        attempt.ip != NO_MATCH@,
    ensures
        ({
            let events = unresolved_line(line, attempt, e);
            &&& actions(pipeline, HandlerStateView::AwaitingLine, events) == seq![
                ActionView::Decode(trimmed(line)),
                ActionView::Resolve(attempt.ip),
                ActionView::SkipLine(SkipReason::ResolutionFailed(e)),
            ]
            &&& run(pipeline, HandlerStateView::AwaitingLine, events)
                == HandlerStateView::AwaitingLine
            &&& written(pipeline, events) == Seq::<AuthAttemptRecordView>::empty()
            &&& written(pipeline, events + rest) == written(pipeline, rest)
            &&& run(pipeline, HandlerStateView::AwaitingLine, events + rest) == run(
                pipeline,
                HandlerStateView::AwaitingLine,
                rest,
            )
        }),
{
    let events = unresolved_line(line, attempt, e);
    let e0 = EventView::Line(line);
    let e1 = EventView::Decoded(attempt);
    let e2 = EventView::ResolveFailed(e);
    let none = Seq::<EventView>::empty();
    assert(events =~= seq![e0] + (seq![e1] + (seq![e2] + none)));
    lemma_first_step(pipeline, HandlerStateView::AwaitingLine, e0, seq![e1] + (seq![e2] + none));
    lemma_first_step(pipeline, HandlerStateView::Decoding, e1, seq![e2] + none);
    lemma_first_step(pipeline, HandlerStateView::Resolving(attempt), e2, none);
    let asked = seq![
        ActionView::Decode(trimmed(line)),
        ActionView::Resolve(attempt.ip),
        ActionView::SkipLine(SkipReason::ResolutionFailed(e)),
    ];
    assert(actions(pipeline, HandlerStateView::AwaitingLine, events) =~= asked);
    assert(asked =~= seq![asked[0]] + (seq![asked[1]] + seq![asked[2]]));
    lemma_records_concat(seq![asked[0]], seq![asked[1]] + seq![asked[2]]);
    lemma_records_concat(seq![asked[1]], seq![asked[2]]);
    lemma_records_of_one(asked[0]);
    lemma_records_of_one(asked[1]);
    lemma_records_of_one(asked[2]);
    assert(records(asked) =~= Seq::<AuthAttemptRecordView>::empty());
    lemma_line_then_rest(pipeline, events, rest);
    assert(written(pipeline, events) + written(pipeline, rest) =~= written(pipeline, rest));
}

/// When a record cannot be written the connection is closed, and whatever
/// happens after that, no line is read, no location asked for and no record
/// written on it again.
pub proof fn law_failed_write_closes(
    pipeline: PipelineView,
    e: StorageError,
    rest: Seq<EventView>,
)
    ensures
        ({
            let events = seq![EventView::WriteFailed(e)] + rest;
            &&& run(pipeline, HandlerStateView::Writing, events) == HandlerStateView::Closed(
                CloseReason::WriteFailed(e),
            )
            &&& actions(pipeline, HandlerStateView::Writing, events) == Seq::new(
                events.len(),
                |i: int| ActionView::Close(CloseReason::WriteFailed(e)),
            )
            &&& records(actions(pipeline, HandlerStateView::Writing, events)) == Seq::<
                AuthAttemptRecordView,
            >::empty()
        }),
{
    let events = seq![EventView::WriteFailed(e)] + rest;
    let stop = ActionView::Close(CloseReason::WriteFailed(e));
    lemma_first_step(pipeline, HandlerStateView::Writing, EventView::WriteFailed(e), rest);
    law_closed_is_final(pipeline, CloseReason::WriteFailed(e), rest);
    assert(actions(pipeline, HandlerStateView::Writing, events) =~= Seq::new(
        events.len(),
        |i: int| stop,
    ));
    lemma_records_concat(
        seq![stop],
        actions(pipeline, HandlerStateView::Closed(CloseReason::WriteFailed(e)), rest),
    );
    lemma_records_of_one(stop);
    assert(records(actions(pipeline, HandlerStateView::Writing, events)) =~= Seq::<
        AuthAttemptRecordView,
    >::empty());
}

/// A line whose record cannot be written is the last of its connection: the
/// one record was asked for, and nothing of what follows is looked at.
pub proof fn law_unwritten_line_is_the_last(
    pipeline: PipelineView,
    line: Seq<char>,
    attempt: AuthAttemptView,
    coords: Coords,
    token: Seq<char>,
    e: StorageError,
    rest: Seq<EventView>,
)
    requires
        attempt.ip != NO_MATCH@,
        spatial_token(pipeline.encoding, pipeline.precision, coords) == Ok::<
            Seq<char>,
            EncodeError,
        >(token),
    ensures
        ({
            let events = unwritten_line(line, attempt, coords, e) + rest;
            let record = AuthAttemptRecordView {
                token,
                username: attempt.username,
                ip: attempt.ip,
            };
            &&& run(pipeline, HandlerStateView::AwaitingLine, events) == HandlerStateView::Closed(
                CloseReason::WriteFailed(e),
            )
            &&& written(pipeline, events) == seq![record]
        }),
{
    let record = AuthAttemptRecordView { token, username: attempt.username, ip: attempt.ip };
    let e0 = EventView::Line(line);
    let e1 = EventView::Decoded(attempt);
    let e2 = EventView::Resolved(coords);
    let none = Seq::<EventView>::empty();
    let head = seq![e0, e1, e2];
    let tail = seq![EventView::WriteFailed(e)] + rest;
    assert(unwritten_line(line, attempt, coords, e) + rest =~= head + tail);
    assert(head =~= seq![e0] + (seq![e1] + (seq![e2] + none)));
    lemma_first_step(pipeline, HandlerStateView::AwaitingLine, e0, seq![e1] + (seq![e2] + none));
    lemma_first_step(pipeline, HandlerStateView::Decoding, e1, seq![e2] + none);
    lemma_first_step(pipeline, HandlerStateView::Resolving(attempt), e2, none);
    let asked = seq![
        ActionView::Decode(trimmed(line)),
        ActionView::Resolve(attempt.ip),
        ActionView::Write(record),
    ];
    assert(actions(pipeline, HandlerStateView::AwaitingLine, head) =~= asked);
    assert(asked =~= seq![asked[0]] + (seq![asked[1]] + seq![asked[2]]));
    lemma_records_concat(seq![asked[0]], seq![asked[1]] + seq![asked[2]]);
    lemma_records_concat(seq![asked[1]], seq![asked[2]]);
    lemma_records_of_one(asked[0]);
    lemma_records_of_one(asked[1]);
    lemma_records_of_one(asked[2]);
    assert(records(asked) =~= seq![record]);
    lemma_run_concat(pipeline, HandlerStateView::AwaitingLine, head, tail);
    law_failed_write_closes(pipeline, e, rest);
    lemma_records_concat(asked, actions(pipeline, HandlerStateView::Writing, tail));
    assert(records(asked) + Seq::<AuthAttemptRecordView>::empty() =~= seq![record]);
}

/// Whether `event` is the finding of a location to which the pipeline gives
/// this token.
pub open spec fn is_location_of(pipeline: PipelineView, event: EventView, token: Seq<char>)
    -> bool {
    match event {
        EventView::Resolved(coords) => spatial_token(pipeline.encoding, pipeline.precision, coords)
            == Ok::<Seq<char>, EncodeError>(token),
        _ => false,
    }
}

/// Whether one of `events` is the finding of a location to which the pipeline
/// gives this token.
pub open spec fn located_in(pipeline: PipelineView, events: Seq<EventView>, token: Seq<char>)
    -> bool {
    exists|j: int| 0 <= j < events.len() && is_location_of(pipeline, #[trigger] events[j], token)
}

/// Whether `state` holds an attempt with this user name and this address.
pub open spec fn holds_attempt(state: HandlerStateView, username: Seq<char>, ip: Seq<char>)
    -> bool {
    match state {
        HandlerStateView::Resolving(attempt) => attempt.username == username && attempt.ip == ip,
        _ => false,
    }
}

/// Where the records of a run come from, whatever state the run begins in:
/// the user name and the address from the attempt that the state holds or
/// from one decoded during the run, the token from a location found during
/// the run.
proof fn lemma_origin_of_records(
    pipeline: PipelineView,
    state: HandlerStateView,
    events: Seq<EventView>,
)
    ensures
        forall|k: int|
            0 <= k < records(actions(pipeline, state, events)).len() ==> {
                let record = #[trigger] records(actions(pipeline, state, events))[k];
                &&& holds_attempt(state, record.username, record.ip) || decoded_in(
                    events,
                    record.username,
                    record.ip,
                )
                &&& located_in(pipeline, events, record.token)
            },
    decreases events.len(),
{
    if events.len() > 0 {
        let event = events.first();
        let rest = events.drop_first();
        let then = next(pipeline, state, event).0;
        let asked = next(pipeline, state, event).1;
        lemma_origin_of_records(pipeline, then, rest);
        lemma_records_concat(seq![asked], actions(pipeline, then, rest));
        lemma_records_of_one(asked);
        let first = records(seq![asked]);
        let later = records(actions(pipeline, then, rest));
        assert(records(actions(pipeline, state, events)) == first + later);
        assert forall|k: int| 0 <= k < (first + later).len() implies {
            let record = #[trigger] (first + later)[k];
            &&& holds_attempt(state, record.username, record.ip) || decoded_in(
                events,
                record.username,
                record.ip,
            )
            &&& located_in(pipeline, events, record.token)
        } by {
            let record = (first + later)[k];
            if k < first.len() {
                assert(asked == ActionView::Write(record));
                assert(is_location_of(pipeline, events[0], record.token));
            } else {
                assert(record == later[k - first.len()]);
                if holds_attempt(then, record.username, record.ip) {
                    assert(is_decoding_of(events[0], record.username, record.ip));
                } else {
                    let j = choose|j: int|
                        0 <= j < rest.len() && is_decoding_of(
                            #[trigger] rest[j],
                            record.username,
                            record.ip,
                        );
                    assert(is_decoding_of(events[j + 1], record.username, record.ip));
                }
                let j = choose|j: int|
                    0 <= j < rest.len() && is_location_of(pipeline, #[trigger] rest[j], record.token);
                assert(is_location_of(pipeline, events[j + 1], record.token));
            }
        }
    }
}

/// Every record that a connection asks to write is made of what happened on
/// that connection and of nothing else: its user name and its address are
/// those of an attempt that was decoded on it, and its token is the one that
/// the encoding and the precision of the pipeline give to a location that
/// was found on it. Nothing that another connection reads or finds enters.
pub proof fn law_records_come_from_the_connection(pipeline: PipelineView, events: Seq<EventView>)
    ensures
        forall|k: int|
            0 <= k < written(pipeline, events).len() ==> {
                let record = #[trigger] written(pipeline, events)[k];
                &&& decoded_in(events, record.username, record.ip)
                &&& located_in(pipeline, events, record.token)
            },
{
    lemma_origin_of_records(pipeline, HandlerStateView::AwaitingLine, events);
}

/// The records among four actions, one by one.
proof fn lemma_records_of_four(asked: Seq<ActionView>)
    requires
        asked.len() == 4,
    ensures
        records(asked) == records(seq![asked[0]]) + records(seq![asked[1]]) + records(
            seq![asked[2]],
        ) + records(seq![asked[3]]),
{
    assert(asked =~= seq![asked[0]] + (seq![asked[1]] + (seq![asked[2]] + seq![asked[3]])));
    lemma_records_concat(seq![asked[0]], seq![asked[1]] + (seq![asked[2]] + seq![asked[3]]));
    lemma_records_concat(seq![asked[1]], seq![asked[2]] + seq![asked[3]]);
    lemma_records_concat(seq![asked[2]], seq![asked[3]]);
    assert(records(seq![asked[0]]) + (records(seq![asked[1]]) + (records(seq![asked[2]])
        + records(seq![asked[3]]))) =~= records(seq![asked[0]]) + records(seq![asked[1]])
        + records(seq![asked[2]]) + records(seq![asked[3]]));
}

/// The records of a single action.
proof fn lemma_records_of_one(action: ActionView)
    ensures
        records(seq![action]) == match action {
            ActionView::Write(record) => seq![record],
            _ => Seq::<AuthAttemptRecordView>::empty(),
        },
{
    let one = seq![action];
    assert(one.first() == action);
    assert(one.drop_first() =~= Seq::<ActionView>::empty());
    assert(records(one.drop_first()) =~= Seq::<AuthAttemptRecordView>::empty());
    match action {
        ActionView::Write(record) => {
            assert(records(one) =~= seq![record]);
        },
        _ => {},
    }
}

} // verus!
