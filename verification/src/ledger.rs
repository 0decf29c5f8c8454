//! The stream ledger: every stream ever created, under the id it was given,
//! with the periodic sweep and the requests of the two parties.

use vstd::prelude::*;
use crate::error::StreamError;
use crate::identity::Identity;
use crate::stream::{CancelResult, Role, Stream, StreamModel};

verus! {

/// What holds of the streams of a ledger at all times: the stream in place
/// `i` carries the id `i`, and each stream keeps its accounting invariant.
pub open spec fn consistent(streams: Seq<StreamModel>) -> bool {
    forall|i: int|
        0 <= i < streams.len() ==> (#[trigger] streams[i]).id == i && streams[i].wf()
}

/// The models of a sequence of stream records, in the same order.
pub open spec fn models(records: Seq<Stream>) -> Seq<StreamModel> {
    Seq::new(records.len(), |i: int| records[i]@)
}

/// The streams after a sweep at time `now`: each one accrued for itself.
pub open spec fn swept(streams: Seq<StreamModel>, now: nat) -> Seq<StreamModel> {
    Seq::new(streams.len(), |i: int| streams[i].accrued(now))
}

/// Those of the streams of which `who` is the sender or the recipient, in the
/// order in which they stand.
pub open spec fn involving(streams: Seq<StreamModel>, who: Seq<u8>) -> Seq<StreamModel> {
    streams.filter(|stream: StreamModel| stream.involves(who))
}

/// Why a claim on stream `id` by `who` is refused, if it is.
pub open spec fn claim_refusal(streams: Seq<StreamModel>, id: nat, who: Seq<u8>) -> Option<
    StreamError,
> {
    if id >= streams.len() {
        Some(StreamError::NotFound)
    } else {
        streams[id as int].claim_refusal(who)
    }
}

/// Why a top-up or a cancellation of stream `id` by `who` is refused, if it is.
pub open spec fn sender_refusal(streams: Seq<StreamModel>, id: nat, who: Seq<u8>) -> Option<
    StreamError,
> {
    if id >= streams.len() {
        Some(StreamError::NotFound)
    } else {
        streams[id as int].sender_refusal(who)
    }
}

/// Why a reclaim on stream `id` by `who` at time `now` is refused, if it is.
pub open spec fn reclaim_refusal(
    streams: Seq<StreamModel>,
    id: nat,
    who: Seq<u8>,
    now: nat,
) -> Option<StreamError> {
    if id >= streams.len() {
        Some(StreamError::NotFound)
    } else {
        streams[id as int].reclaim_refusal(who, now)
    }
}

/// All streams, each in the place of its id. Streams are never removed: a
/// cancelled or completed stream stays as a record.
///
/// A ledger is consistent at all times, and every method says so of the
/// ledger that it leaves behind.
#[derive(Debug)]
pub struct Ledger {
    streams: Vec<Stream>,
}

impl View for Ledger {
    type V = Seq<StreamModel>;

    closed spec fn view(&self) -> Seq<StreamModel> {
        models(self.streams@)
    }
}

impl Ledger {
    #[verifier::type_invariant]
    pub(crate) open spec fn sound(self) -> bool {
        consistent(self@)
    }

    /// A ledger without streams.
    pub fn new() -> (ledger: Ledger)
        ensures
            ledger@ == Seq::<StreamModel>::empty(),
            consistent(ledger@),
    {
        Ledger { streams: Vec::new() }
    }

    /// The id that the next stream will get, which is the number of streams
    /// created so far.
    pub fn next_id(&self) -> (id: u64)
        ensures
            id == self@.len(),
    {
        self.streams.len() as u64
    }

    /// Creates a stream from `sender` to `recipient` at time `now` and returns
    /// its id. Nothing about the rate, the duration or the locked amount is
    /// checked: a stream of nothing, or for no time, is accepted.
    pub fn create_stream(
        &mut self,
        sender: Identity,
        recipient: Identity,
        sats_per_sec: u64,
        duration_secs: u64,
        total_locked: u64,
        now: u64,
    ) -> (id: u64)
        ensures
            id == old(self)@.len(),
            final(self)@ == old(self)@.push(
                StreamModel::opened(
                    id as nat,
                    sender@,
                    recipient@,
                    sats_per_sec as nat,
                    duration_secs as nat,
                    total_locked as nat,
                    now as nat,
                ),
            ),
            consistent(final(self)@),
    {
        proof {
            use_type_invariant(&*self);
        }
        let id: u64 = self.streams.len() as u64;
        let stream = Stream::open(
            id,
            sender,
            recipient,
            sats_per_sec,
            duration_secs,
            total_locked,
            now,
        );
        let mut streams: Vec<Stream> = Vec::new();
        std::mem::swap(&mut streams, &mut self.streams);
        let ghost before = streams@;
        streams.push(stream);
        proof {
            assert(models(streams@) =~= models(before).push(stream@));
        }
        self.streams = streams;
        id
    }

    /// The periodic sweep at time `now`: every active stream on which time
    /// has passed accrues; no other stream changes. A second sweep at the same
    /// time changes nothing.
    pub fn canister_heartbeat(&mut self, now: u64)
        ensures
            final(self)@ == swept(old(self)@, now as nat),
            consistent(final(self)@),
    {
        proof {
            use_type_invariant(&*self);
        }
        let mut streams: Vec<Stream> = Vec::new();
        std::mem::swap(&mut streams, &mut self.streams);
        let ghost before = models(streams@);
        let mut i: usize = 0;
        while i < streams.len()
            invariant
                i <= streams.len(),
                streams.len() == before.len(),
                consistent(before),
                forall|j: int|
                    0 <= j < i ==> (#[trigger] streams@[j])@ == before[j].accrued(now as nat),
                forall|j: int|
                    i <= j < streams.len() ==> (#[trigger] streams@[j])@ == before[j],
            decreases streams.len() - i,
        {
            streams[i].accrue(now);
            i += 1;
        }
        proof {
            assert(models(streams@) =~= swept(before, now as nat));
        }
        self.streams = streams;
    }

    /// The recipient of stream `stream_id` withdraws its buffer at time `now`
    /// and is told the amount. The claim is refused, and nothing changes, if
    /// the stream is unknown, if `caller` is not its recipient, or if its
    /// buffer is empty (in that order).
    pub fn claim_stream(&mut self, stream_id: u64, caller: &Identity, now: u64) -> (outcome:
        Result<u64, StreamError>)
        ensures
            match outcome {
                Ok(amount) => {
                    &&& claim_refusal(old(self)@, stream_id as nat, caller@) is None
                    &&& amount == old(self)@[stream_id as int].buffer
                    &&& final(self)@ == old(self)@.update(
                        stream_id as int,
                        old(self)@[stream_id as int].claimed(now as nat),
                    )
                },
                Err(reason) => {
                    &&& claim_refusal(old(self)@, stream_id as nat, caller@) == Some(reason)
                    &&& final(self)@ == old(self)@
                },
            },
            stream_id < old(self)@.len() && !old(self)@[stream_id as int].authorizes(
                caller@,
                Role::Recipient,
            ) ==> outcome == Err::<u64, StreamError>(StreamError::Unauthorized),
            consistent(final(self)@),
    {
        proof {
            use_type_invariant(&*self);
        }
        if stream_id >= self.streams.len() as u64 {
            return Err(StreamError::NotFound);
        }
        let mut streams: Vec<Stream> = Vec::new();
        std::mem::swap(&mut streams, &mut self.streams);
        let ghost before = models(streams@);
        let outcome = streams[stream_id as usize].claim(caller, now);
        proof {
            assert(models(streams@) =~= before.update(
                stream_id as int,
                streams@[stream_id as int]@,
            ));
        }
        self.streams = streams;
        outcome
    }

    /// The sender of stream `stream_id` adds `additional_sats` to what is
    /// locked. The top-up is refused, and nothing changes, if the stream is
    /// unknown, if `caller` is not its sender, or if it is no longer active
    /// (in that order).
    pub fn top_up_stream(
        &mut self,
        stream_id: u64,
        caller: &Identity,
        additional_sats: u64,
    ) -> (outcome: Result<(), StreamError>)
        ensures
            match outcome {
                Ok(_) => {
                    &&& sender_refusal(old(self)@, stream_id as nat, caller@) is None
                    &&& final(self)@ == old(self)@.update(
                        stream_id as int,
                        old(self)@[stream_id as int].topped_up(additional_sats as nat),
                    )
                },
                Err(reason) => {
                    &&& sender_refusal(old(self)@, stream_id as nat, caller@) == Some(reason)
                    &&& final(self)@ == old(self)@
                },
            },
            stream_id < old(self)@.len() && !old(self)@[stream_id as int].authorizes(
                caller@,
                Role::Sender,
            ) ==> outcome == Err::<(), StreamError>(StreamError::Unauthorized),
            consistent(final(self)@),
    {
        proof {
            use_type_invariant(&*self);
        }
        if stream_id >= self.streams.len() as u64 {
            return Err(StreamError::NotFound);
        }
        let mut streams: Vec<Stream> = Vec::new();
        std::mem::swap(&mut streams, &mut self.streams);
        let ghost before = models(streams@);
        let outcome = streams[stream_id as usize].top_up(caller, additional_sats);
        proof {
            assert(models(streams@) =~= before.update(
                stream_id as int,
                streams@[stream_id as int]@,
            ));
        }
        self.streams = streams;
        outcome
    }

    /// The sender of stream `stream_id` stops it and is told the refund and
    /// the fee on what was not yet released. The cancellation is refused, and
    /// nothing changes, if the stream is unknown, if `caller` is not its
    /// sender, or if it is no longer active (in that order).
    pub fn cancel_stream(&mut self, stream_id: u64, caller: &Identity) -> (outcome:
        Result<CancelResult, StreamError>)
        ensures
            match outcome {
                Ok(settlement) => {
                    &&& sender_refusal(old(self)@, stream_id as nat, caller@) is None
                    &&& settlement.fee == old(self)@[stream_id as int].cancel_fee()
                    &&& settlement.refund == old(self)@[stream_id as int].cancel_refund()
                    &&& final(self)@ == old(self)@.update(
                        stream_id as int,
                        old(self)@[stream_id as int].cancelled(),
                    )
                },
                Err(reason) => {
                    &&& sender_refusal(old(self)@, stream_id as nat, caller@) == Some(reason)
                    &&& final(self)@ == old(self)@
                },
            },
            stream_id < old(self)@.len() && !old(self)@[stream_id as int].authorizes(
                caller@,
                Role::Sender,
            ) ==> outcome == Err::<CancelResult, StreamError>(StreamError::Unauthorized),
            consistent(final(self)@),
    {
        proof {
            use_type_invariant(&*self);
        }
        if stream_id >= self.streams.len() as u64 {
            return Err(StreamError::NotFound);
        }
        let mut streams: Vec<Stream> = Vec::new();
        std::mem::swap(&mut streams, &mut self.streams);
        let ghost before = models(streams@);
        let outcome = streams[stream_id as usize].cancel(caller);
        proof {
            assert(models(streams@) =~= before.update(
                stream_id as int,
                streams@[stream_id as int]@,
            ));
        }
        self.streams = streams;
        outcome
    }

    /// The sender of stream `stream_id` recovers its buffer at time `now` and
    /// is told the amount. The reclaim is refused, and nothing changes, if the
    /// stream is unknown, if `caller` is not its sender, if its buffer is
    /// empty, or if the waiting time is not over (in that order).
    pub fn reclaim_unclaimed(&mut self, stream_id: u64, caller: &Identity, now: u64) -> (outcome:
        Result<u64, StreamError>)
        ensures
            match outcome {
                Ok(amount) => {
                    &&& reclaim_refusal(old(self)@, stream_id as nat, caller@, now as nat) is None
                    &&& amount == old(self)@[stream_id as int].buffer
                    &&& final(self)@ == old(self)@.update(
                        stream_id as int,
                        old(self)@[stream_id as int].reclaimed(),
                    )
                },
                Err(reason) => {
                    &&& reclaim_refusal(old(self)@, stream_id as nat, caller@, now as nat) == Some(
                        reason,
                    )
                    &&& final(self)@ == old(self)@
                },
            },
            stream_id < old(self)@.len() && !old(self)@[stream_id as int].authorizes(
                caller@,
                Role::Sender,
            ) ==> outcome == Err::<u64, StreamError>(StreamError::Unauthorized),
            consistent(final(self)@),
    {
        proof {
            use_type_invariant(&*self);
        }
        if stream_id >= self.streams.len() as u64 {
            return Err(StreamError::NotFound);
        }
        let mut streams: Vec<Stream> = Vec::new();
        std::mem::swap(&mut streams, &mut self.streams);
        let ghost before = models(streams@);
        let outcome = streams[stream_id as usize].reclaim(caller, now);
        proof {
            assert(models(streams@) =~= before.update(
                stream_id as int,
                streams@[stream_id as int]@,
            ));
        }
        self.streams = streams;
        outcome
    }

    /// A snapshot of stream `stream_id`, or `None` if no stream has that id.
    pub fn get_stream(&self, stream_id: u64) -> (found: Option<Stream>)
        ensures
            match found {
                Some(stream) => stream_id < self@.len() && stream@ == self@[stream_id as int],
                None => stream_id >= self@.len(),
            },
            consistent(self@),
    {
        proof {
            use_type_invariant(self);
        }
        if stream_id >= self.streams.len() as u64 {
            return None;
        }
        Some(self.streams[stream_id as usize].clone())
    }

    /// Snapshots of all streams of which `user` is the sender or the
    /// recipient, by rising id.
    pub fn list_streams_for_user(&self, user: &Identity) -> (found: Vec<Stream>)
        ensures
            models(found@) == involving(self@, user@),
            consistent(self@),
    {
        proof {
            use_type_invariant(self);
        }
        let ghost wanted = |stream: StreamModel| stream.involves(user@);
        let mut found: Vec<Stream> = Vec::new();
        let mut i: usize = 0;
        proof {
            reveal(Seq::filter);
        }
        while i < self.streams.len()
            invariant
                i <= self.streams.len(),
                wanted == |stream: StreamModel| stream.involves(user@),
                models(found@) == self@.take(i as int).filter(wanted),
            decreases self.streams.len() - i,
        {
            let stream = &self.streams[i];
            let ghost so_far = found@;
            let involved = stream.is_authorized(user, Role::Sender) || stream.is_authorized(
                user,
                Role::Recipient,
            );
            if involved {
                found.push(stream.clone());
            }
            proof {
                reveal(Seq::filter);
                let upto = self@.take(i as int + 1);
                assert(upto.drop_last() =~= self@.take(i as int));
                if involved {
                    assert(models(found@) =~= models(so_far).push(stream@));
                }
            }
            i += 1;
        }
        proof {
            assert(self@.take(i as int) =~= self@);
        }
        found
    }
}

} // verus!
