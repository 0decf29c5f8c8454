//! What holds of streams whatever happens to them, proved over the models
//! that the contracts of the ledger are stated in.

use vstd::prelude::*;
use crate::error::StreamError;
use crate::ledger::{consistent, involving, swept};
use crate::stream::{least, Event, Role, StreamModel, StreamStatus, FEE_DIVISOR};

verus! {

/// The stream after a whole history of events, the first of them first.
pub open spec fn after_all(stream: StreamModel, history: Seq<Event>) -> StreamModel
    decreases history.len(),
{
    if history.len() == 0 {
        stream
    } else {
        after_all(stream, history.drop_last()).after(history.last())
    }
}

/// A stream starts out within its accounting invariant, whatever amount that
/// 64 bits can carry is locked in it.
pub proof fn lemma_opened_within_invariant(
    id: nat,
    sender: Seq<u8>,
    recipient: Seq<u8>,
    sats_per_sec: nat,
    duration_secs: nat,
    total_locked: nat,
    now: nat,
)
    requires
        total_locked <= u64::MAX,
    ensures
        StreamModel::opened(
            id,
            sender,
            recipient,
            sats_per_sec,
            duration_secs,
            total_locked,
            now,
        ).wf(),
{
}

/// No single event takes a stream out of its accounting invariant: after it,
/// still no more is released than is locked, and no more buffered than
/// released.
pub proof fn lemma_event_keeps_invariant(stream: StreamModel, event: Event)
    requires
        stream.wf(),
    ensures
        stream.after(event).wf(),
{
}

/// The accounting invariant holds at all times: after any history of sweeps
/// and requests, no more is released than is locked, and no more buffered
/// than released.
pub proof fn lemma_invariant_at_all_times(stream: StreamModel, history: Seq<Event>)
    requires
        stream.wf(),
    ensures
        after_all(stream, history).wf(),
    decreases history.len(),
{
    if history.len() > 0 {
        lemma_invariant_at_all_times(stream, history.drop_last());
        lemma_event_keeps_invariant(after_all(stream, history.drop_last()), history.last());
    }
}

/// A sweep keeps a ledger consistent: ids stay in place and every stream
/// stays within its accounting invariant.
pub proof fn lemma_sweep_keeps_consistency(streams: Seq<StreamModel>, now: nat)
    requires
        consistent(streams),
    ensures
        consistent(swept(streams, now)),
{
    assert forall|i: int| 0 <= i < swept(streams, now).len() implies (#[trigger] swept(
        streams,
        now,
    )[i]).id == i && swept(streams, now)[i].wf() by {
        lemma_event_keeps_invariant(streams[i], Event::Sweep { now });
    }
}

/// A request on one stream keeps a ledger consistent, whether it is granted
/// or refused.
pub proof fn lemma_request_keeps_consistency(streams: Seq<StreamModel>, id: int, event: Event)
    requires
        consistent(streams),
        0 <= id < streams.len(),
    ensures
        consistent(streams.update(id, streams[id].after(event))),
{
    lemma_event_keeps_invariant(streams[id], event);
}

/// A new stream keeps a ledger consistent: it gets the next free id and
/// starts out within its accounting invariant.
pub proof fn lemma_creation_keeps_consistency(
    streams: Seq<StreamModel>,
    sender: Seq<u8>,
    recipient: Seq<u8>,
    sats_per_sec: nat,
    duration_secs: nat,
    total_locked: nat,
    now: nat,
)
    requires
        consistent(streams),
        total_locked <= u64::MAX,
    ensures
        consistent(
            streams.push(
                StreamModel::opened(
                    streams.len(),
                    sender,
                    recipient,
                    sats_per_sec,
                    duration_secs,
                    total_locked,
                    now,
                ),
            ),
        ),
{
}

/// A second sweep of a stream at the same time changes nothing.
pub proof fn lemma_accrual_is_idempotent(stream: StreamModel, now: nat)
    ensures
        stream.accrued(now).accrued(now) == stream.accrued(now),
{
}

/// Sweeping a ledger twice at the same time is the same as sweeping it once.
pub proof fn lemma_sweep_is_idempotent(streams: Seq<StreamModel>, now: nat)
    ensures
        swept(swept(streams, now), now) == swept(streams, now),
{
    assert forall|i: int| 0 <= i < streams.len() implies swept(swept(streams, now), now)[i]
        == swept(streams, now)[i] by {
        lemma_accrual_is_idempotent(streams[i], now);
    }
}

/// A sweep, at whatever time, never lowers what a stream has released nor the
/// time of its last release.
pub proof fn lemma_accrual_never_decreases(stream: StreamModel, now: nat)
    ensures
        stream.accrued(now).total_released >= stream.total_released,
        stream.accrued(now).last_release_time >= stream.last_release_time,
{
}

/// Across any history of sweeps and requests, what a stream has released and
/// the time of its last release never decrease, and its end time never moves.
pub proof fn lemma_history_never_decreases(stream: StreamModel, history: Seq<Event>)
    ensures
        after_all(stream, history).total_released >= stream.total_released,
        after_all(stream, history).last_release_time >= stream.last_release_time,
        after_all(stream, history).end_time == stream.end_time,
    decreases history.len(),
{
    if history.len() > 0 {
        lemma_history_never_decreases(stream, history.drop_last());
    }
}

/// In a swept ledger no stream has released less, or was last released
/// earlier, than before the sweep.
pub proof fn lemma_sweep_never_decreases(streams: Seq<StreamModel>, now: nat)
    ensures
        swept(streams, now).len() == streams.len(),
        forall|i: int|
            0 <= i < streams.len() ==> (#[trigger] swept(streams, now)[i]).total_released
                >= streams[i].total_released && swept(streams, now)[i].last_release_time
                >= streams[i].last_release_time,
{
}

/// Conservation: a sweep at `now` of an active stream that was last swept at
/// or before `now` releases exactly the rate times the elapsed seconds, capped
/// by what was left to release. The same amount enters the buffer, and what is
/// locked stays.
pub proof fn lemma_accrual_conserves(stream: StreamModel, now: nat)
    requires
        stream.wf(),
        stream.status == StreamStatus::Active,
        stream.last_release_time <= now,
    ensures
        stream.accrued(now).total_released - stream.total_released == least(
            (stream.sats_per_sec * (now - stream.last_release_time)) as nat,
            (stream.total_locked - stream.total_released) as nat,
        ),
        stream.accrued(now).buffer - stream.buffer == stream.accrued(now).total_released
            - stream.total_released,
        stream.accrued(now).total_locked == stream.total_locked,
{
    let elapsed = now - stream.last_release_time;
    assert(elapsed == 0 ==> stream.sats_per_sec * elapsed == 0) by (nonlinear_arith);
}

/// A stream that is still active after a sweep at `middle` stands after a
/// later sweep at `now` exactly as if it had been swept at `now` alone.
pub proof fn lemma_accrual_composes(stream: StreamModel, middle: nat, now: nat)
    requires
        stream.wf(),
        middle <= now,
        stream.accrued(middle).status == StreamStatus::Active,
    ensures
        stream.accrued(middle).accrued(now) == stream.accrued(now),
{
    if stream.due(middle) && now > middle {
        let rate = stream.sats_per_sec as int;
        let first = middle - stream.last_release_time;
        let second = now - middle;
        assert(first * rate + second * rate == (first + second) * rate) by (nonlinear_arith);
    }
}

/// Whether no event of `history` is a top-up.
pub open spec fn without_top_up(history: Seq<Event>) -> bool {
    forall|k: int| 0 <= k < history.len() ==> !(#[trigger] history[k] is TopUp)
}

/// What `lemma_history_conserves` states, together with what carries it
/// through a history: as long as the stream is active, nothing was capped.
proof fn lemma_history_conserves_while_active(stream: StreamModel, history: Seq<Event>)
    requires
        stream.wf(),
        without_top_up(history),
    ensures
        after_all(stream, history).total_locked == stream.total_locked,
        after_all(stream, history).sats_per_sec == stream.sats_per_sec,
        after_all(stream, history).last_release_time >= stream.last_release_time,
        after_all(stream, history).total_released - stream.total_released == least(
            (stream.sats_per_sec * (after_all(stream, history).last_release_time
                - stream.last_release_time)) as nat,
            (stream.total_locked - stream.total_released) as nat,
        ),
        after_all(stream, history).status == StreamStatus::Active ==> after_all(
            stream,
            history,
        ).total_released - stream.total_released == stream.sats_per_sec * (after_all(
            stream,
            history,
        ).last_release_time - stream.last_release_time),
    decreases history.len(),
{
    if history.len() > 0 {
        let earlier = history.drop_last();
        assert(without_top_up(earlier));
        lemma_history_conserves_while_active(stream, earlier);
        lemma_invariant_at_all_times(stream, earlier);
        let before = after_all(stream, earlier);
        match history.last() {
            Event::Sweep { now } => {
                if before.due(now) {
                    let rate = stream.sats_per_sec as int;
                    let first = before.last_release_time - stream.last_release_time;
                    let second = now - before.last_release_time;
                    assert(rate * first + rate * second == rate * (first + second))
                        by (nonlinear_arith);
                }
            },
            _ => {},
        }
    }
}

/// Conservation over a whole history: as long as nothing is topped up,
/// whatever sweeps, claims, reclaims and cancellations a stream goes through,
/// what it has released since the start of the history is the rate times the
/// seconds between its last release then and its last release now, capped by
/// what was left to release at the start.
pub proof fn lemma_history_conserves(stream: StreamModel, history: Seq<Event>)
    requires
        stream.wf(),
        without_top_up(history),
    ensures
        after_all(stream, history).total_released - stream.total_released == least(
            (stream.sats_per_sec * (after_all(stream, history).last_release_time
                - stream.last_release_time)) as nat,
            (stream.total_locked - stream.total_released) as nat,
        ),
{
    lemma_history_conserves_while_active(stream, history);
}

/// Only a sweep releases: a request, granted or refused, leaves what is
/// released and the time of the last release as they are, never adds to the
/// buffer, and never completes a stream.
pub proof fn lemma_only_sweeps_release(stream: StreamModel, event: Event)
    requires
        !(event is Sweep),
    ensures
        stream.after(event).total_released == stream.total_released,
        stream.after(event).last_release_time == stream.last_release_time,
        stream.after(event).buffer <= stream.buffer,
        stream.after(event).status == StreamStatus::Completed ==> stream.status
            == StreamStatus::Completed,
{
}

/// A stream that is cancelled or completed stays so: no event brings it back
/// to life or moves it to the other final status.
pub proof fn lemma_final_status_stays(stream: StreamModel, history: Seq<Event>)
    requires
        stream.status != StreamStatus::Active,
    ensures
        after_all(stream, history).status == stream.status,
        after_all(stream, history).total_released == stream.total_released,
        after_all(stream, history).total_locked == stream.total_locked,
    decreases history.len(),
{
    if history.len() > 0 {
        lemma_final_status_stays(stream, history.drop_last());
    }
}

/// Who a stream is between, its id, its rate and its start never change.
pub proof fn lemma_terms_never_change(stream: StreamModel, history: Seq<Event>)
    ensures
        after_all(stream, history).id == stream.id,
        after_all(stream, history).sender == stream.sender,
        after_all(stream, history).recipient == stream.recipient,
        after_all(stream, history).sats_per_sec == stream.sats_per_sec,
        after_all(stream, history).start_time == stream.start_time,
    decreases history.len(),
{
    if history.len() > 0 {
        lemma_terms_never_change(stream, history.drop_last());
    }
}

/// Authorization: whoever is not the recipient cannot claim, and whoever is
/// not the sender cannot top up, cancel or reclaim; each is refused as
/// `Unauthorized`, and none of their requests changes the stream.
pub proof fn lemma_strangers_are_refused(stream: StreamModel, who: Seq<u8>, now: nat, amount: nat)
    ensures
        who != stream.recipient ==> stream.claim_refusal(who) == Some(StreamError::Unauthorized)
            && stream.after(Event::Claim { who, now }) == stream,
        who != stream.sender ==> stream.sender_refusal(who) == Some(StreamError::Unauthorized)
            && stream.reclaim_refusal(who, now) == Some(StreamError::Unauthorized)
            && stream.after(Event::TopUp { who, amount }) == stream
            && stream.after(Event::Cancel { who }) == stream
            && stream.after(Event::Reclaim { who, now }) == stream,
        stream.claim_refusal(who) == Some(StreamError::Unauthorized) <==> !stream.authorizes(
            who,
            Role::Recipient,
        ),
        stream.sender_refusal(who) == Some(StreamError::Unauthorized) <==> !stream.authorizes(
            who,
            Role::Sender,
        ),
        stream.reclaim_refusal(who, now) == Some(StreamError::Unauthorized) <==> !stream.authorizes(
            who,
            Role::Sender,
        ),
{
}

/// A party is listed exactly the streams that it takes part in: a stream is
/// among those listed for `who` if and only if it is in the ledger and `who`
/// is its sender or its recipient.
pub proof fn lemma_listing_is_exact(streams: Seq<StreamModel>, who: Seq<u8>, stream: StreamModel)
    ensures
        involving(streams, who).contains(stream) <==> streams.contains(stream) && stream.involves(
            who,
        ),
{
    let wanted = |candidate: StreamModel| candidate.involves(who);
    if involving(streams, who).contains(stream) {
        let i = choose|i: int|
            0 <= i < involving(streams, who).len() && involving(streams, who)[i] == stream;
        streams.lemma_filter_pred(wanted, i);
        streams.lemma_filter_contains_rev(wanted, stream);
    }
    if streams.contains(stream) && stream.involves(who) {
        let i = choose|i: int| 0 <= i < streams.len() && streams[i] == stream;
        streams.lemma_filter_contains(wanted, i);
    }
}

/// The fee is the hundredth of the unused amount that lies nearest, a half
/// rounding up; it never exceeds the unused amount, and fee and refund
/// together are the unused amount.
pub proof fn lemma_fee_is_nearest_hundredth(stream: StreamModel)
    ensures
        FEE_DIVISOR * stream.cancel_fee() <= stream.remaining() + FEE_DIVISOR / 2,
        stream.remaining() + FEE_DIVISOR / 2 < FEE_DIVISOR * stream.cancel_fee() + FEE_DIVISOR,
        stream.cancel_fee() <= stream.remaining(),
        stream.cancel_fee() + stream.cancel_refund() == stream.remaining(),
{
}

} // verus!
