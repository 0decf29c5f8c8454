//! A single payment stream: its record, its mathematical model, and the
//! transitions that accrual and the parties' requests apply to it.

use vstd::prelude::*;
use crate::error::StreamError;
use crate::identity::Identity;

verus! {

/// How long, in seconds, a sender waits after the end of a stream (or after the
/// recipient's last claim, if that came later) before reclaiming what the
/// recipient left behind: seven days.
pub const RECLAIM_TIMEOUT_SECS: u64 = 7 * 24 * 60 * 60;

/// The cancellation fee is one part in this many of the unused amount: 1%.
pub const FEE_DIVISOR: u64 = 100;

/// Where a stream stands in its life. `Cancelled` and `Completed` are final.
#[derive(Clone, Copy, Debug, PartialEq, Eq, Structural)]
pub enum StreamStatus {
    /// Value still accrues to the recipient.
    Active,
    /// The sender stopped the stream.
    Cancelled,
    /// Everything locked was released, or the end time passed.
    Completed,
}

/// The two parties of a stream.
#[derive(Clone, Copy, Debug, PartialEq, Eq, Structural)]
pub enum Role {
    /// The party that locked the funds.
    Sender,
    /// The party to whom the funds accrue.
    Recipient,
}

/// What a cancellation leaves to be settled: the amounts are computed here and
/// moved by whoever holds the funds.
#[derive(Clone, Copy, Debug, PartialEq, Eq, Structural)]
pub struct CancelResult {
    /// The part of the unused amount that goes back to the sender.
    pub refund: u64,
    /// The part of the unused amount that is kept as a fee.
    pub fee: u64,
}

/// The smaller of two amounts.
pub open spec fn least(a: nat, b: nat) -> nat {
    if a <= b {
        a
    } else {
        b
    }
}

/// The larger of two amounts.
pub open spec fn greatest(a: nat, b: nat) -> nat {
    if a >= b {
        a
    } else {
        b
    }
}

/// An amount held to what 64 bits can carry: sums stop at the largest value
/// instead of wrapping around.
pub open spec fn capped(amount: nat) -> nat {
    if amount > u64::MAX {
        u64::MAX as nat
    } else {
        amount
    }
}

/// The fee on an unused amount: one hundredth of it, rounded to the nearest
/// whole unit, a half rounding up.
pub open spec fn fee_for(unused: nat) -> nat {
    ((unused + FEE_DIVISOR / 2) / (FEE_DIVISOR as int)) as nat
}

/// One thing that can happen to a stream: a sweep, or a request by some party.
pub enum Event {
    /// The periodic sweep at time `now`.
    Sweep { now: nat },
    /// `who` asks for the buffer at time `now`.
    Claim { who: Seq<u8>, now: nat },
    /// `who` asks to add `amount` to what is locked.
    TopUp { who: Seq<u8>, amount: nat },
    /// `who` asks to stop the stream.
    Cancel { who: Seq<u8> },
    /// `who` asks to recover the buffer at time `now`.
    Reclaim { who: Seq<u8>, now: nat },
}

/// The mathematical model of a stream: every amount and every time is a
/// natural number, every identity a sequence of bytes.
pub struct StreamModel {
    /// The id under which the ledger keeps the stream.
    pub id: nat,
    /// The party that locked the funds.
    pub sender: Seq<u8>,
    /// The party to whom the funds accrue.
    pub recipient: Seq<u8>,
    /// The amount released per second.
    pub sats_per_sec: nat,
    /// When the stream was opened.
    pub start_time: nat,
    /// When the stream ends: the start time plus the duration.
    pub end_time: nat,
    /// Everything committed to the stream so far.
    pub total_locked: nat,
    /// Everything released out of the locked amount so far.
    pub total_released: nat,
    /// When a sweep last touched the stream; at first, the start time.
    pub last_release_time: nat,
    /// What is released and neither claimed nor reclaimed.
    pub buffer: nat,
    /// Where the stream stands in its life.
    pub status: StreamStatus,
    /// When the recipient last claimed; at first, the start time.
    pub last_claim_time: nat,
}

impl StreamModel {
    /// The accounting invariant: no more is released than was locked, and no
    /// more is buffered than was released. What is locked is an amount that 64
    /// bits can carry.
    pub open spec fn wf(self) -> bool {
        &&& self.total_released <= self.total_locked
        &&& self.buffer <= self.total_released
        &&& self.total_locked <= u64::MAX
    }

    /// A stream as it stands right after its creation at time `now`.
    pub open spec fn opened(
        id: nat,
        sender: Seq<u8>,
        recipient: Seq<u8>,
        sats_per_sec: nat,
        duration_secs: nat,
        total_locked: nat,
        now: nat,
    ) -> StreamModel {
        StreamModel {
            id,
            sender,
            recipient,
            sats_per_sec,
            start_time: now,
            end_time: capped(now + duration_secs),
            total_locked,
            total_released: 0,
            last_release_time: now,
            buffer: 0,
            status: StreamStatus::Active,
            last_claim_time: now,
        }
    }

    /// Whether `who` holds `role` in this stream.
    pub open spec fn authorizes(self, who: Seq<u8>, role: Role) -> bool {
        match role {
            Role::Sender => who == self.sender,
            Role::Recipient => who == self.recipient,
        }
    }

    /// Whether `who` is a party of this stream.
    pub open spec fn involves(self, who: Seq<u8>) -> bool {
        self.sender == who || self.recipient == who
    }

    /// What is locked and not yet released.
    pub open spec fn remaining(self) -> nat {
        if self.total_locked >= self.total_released {
            (self.total_locked - self.total_released) as nat
        } else {
            0
        }
    }

    /// Whether a sweep at time `now` touches this stream: it is active and
    /// time has passed since it was last swept.
    pub open spec fn due(self, now: nat) -> bool {
        self.status == StreamStatus::Active && now > self.last_release_time
    }

    /// What a sweep at time `now` releases: the rate times the seconds since
    /// the last sweep, but no more than what remains.
    pub open spec fn releasable(self, now: nat) -> nat {
        if self.due(now) {
            least(((now - self.last_release_time) * self.sats_per_sec) as nat, self.remaining())
        } else {
            0
        }
    }

    /// The stream after a sweep at time `now`.
    pub open spec fn accrued(self, now: nat) -> StreamModel {
        if self.due(now) {
            let released = self.total_released + self.releasable(now);
            StreamModel {
                total_released: released,
                last_release_time: now,
                buffer: self.buffer + self.releasable(now),
                status: if released >= self.total_locked || now >= self.end_time {
                    StreamStatus::Completed
                } else {
                    StreamStatus::Active
                },
                ..self
            }
        } else {
            self
        }
    }

    /// Why a claim by `who` is refused, if it is.
    pub open spec fn claim_refusal(self, who: Seq<u8>) -> Option<StreamError> {
        if !self.authorizes(who, Role::Recipient) {
            Some(StreamError::Unauthorized)
        } else if self.buffer == 0 {
            Some(StreamError::NothingToDo)
        } else {
            None
        }
    }

    /// The stream after the recipient claimed the buffer at time `now`.
    pub open spec fn claimed(self, now: nat) -> StreamModel {
        StreamModel { buffer: 0, last_claim_time: now, ..self }
    }

    /// Why a request by `who` that only the sender of an active stream may
    /// make (a top-up, a cancellation) is refused, if it is.
    pub open spec fn sender_refusal(self, who: Seq<u8>) -> Option<StreamError> {
        if !self.authorizes(who, Role::Sender) {
            Some(StreamError::Unauthorized)
        } else if self.status != StreamStatus::Active {
            Some(StreamError::InvalidState)
        } else {
            None
        }
    }

    /// The stream after `amount` was added to what is locked.
    pub open spec fn topped_up(self, amount: nat) -> StreamModel {
        StreamModel { total_locked: capped(self.total_locked + amount), ..self }
    }

    /// The stream after its sender cancelled it. The buffer stays as it is.
    pub open spec fn cancelled(self) -> StreamModel {
        StreamModel { status: StreamStatus::Cancelled, ..self }
    }

    /// The fee that a cancellation keeps.
    pub open spec fn cancel_fee(self) -> nat {
        fee_for(self.remaining())
    }

    /// What a cancellation gives back to the sender.
    pub open spec fn cancel_refund(self) -> nat {
        (self.remaining() - self.cancel_fee()) as nat
    }

    /// The first moment at which the sender may reclaim the buffer.
    pub open spec fn reclaim_opens_at(self) -> nat {
        greatest(self.end_time, self.last_claim_time) + RECLAIM_TIMEOUT_SECS as nat
    }

    /// Why a reclaim by `who` at time `now` is refused, if it is.
    pub open spec fn reclaim_refusal(self, who: Seq<u8>, now: nat) -> Option<StreamError> {
        if !self.authorizes(who, Role::Sender) {
            Some(StreamError::Unauthorized)
        } else if self.buffer == 0 {
            Some(StreamError::NothingToDo)
        } else if now < self.reclaim_opens_at() {
            Some(StreamError::TimeoutNotReached)
        } else {
            None
        }
    }

    /// The stream after its sender reclaimed the buffer.
    pub open spec fn reclaimed(self) -> StreamModel {
        StreamModel { buffer: 0, ..self }
    }

    /// The stream after `event`: a sweep accrues, a request that is not
    /// refused takes effect, and a refused request changes nothing.
    pub open spec fn after(self, event: Event) -> StreamModel {
        match event {
            Event::Sweep { now } => self.accrued(now),
            Event::Claim { who, now } => if self.claim_refusal(who) is None {
                self.claimed(now)
            } else {
                self
            },
            Event::TopUp { who, amount } => if self.sender_refusal(who) is None {
                self.topped_up(amount)
            } else {
                self
            },
            Event::Cancel { who } => if self.sender_refusal(who) is None {
                self.cancelled()
            } else {
                self
            },
            Event::Reclaim { who, now } => if self.reclaim_refusal(who, now) is None {
                self.reclaimed()
            } else {
                self
            },
        }
    }
}

/// One stream: a commitment of `total_locked` from `sender` to `recipient`,
/// released at `sats_per_sec`.
#[derive(Debug)]
pub struct Stream {
    id: u64,
    sender: Identity,
    recipient: Identity,
    sats_per_sec: u64,
    start_time: u64,
    end_time: u64,
    total_locked: u64,
    total_released: u64,
    last_release_time: u64,
    buffer: u64,
    status: StreamStatus,
    last_claim_time: u64,
}

impl View for Stream {
    type V = StreamModel;

    closed spec fn view(&self) -> StreamModel {
        StreamModel {
            id: self.id as nat,
            sender: self.sender@,
            recipient: self.recipient@,
            sats_per_sec: self.sats_per_sec as nat,
            start_time: self.start_time as nat,
            end_time: self.end_time as nat,
            total_locked: self.total_locked as nat,
            total_released: self.total_released as nat,
            last_release_time: self.last_release_time as nat,
            buffer: self.buffer as nat,
            status: self.status,
            last_claim_time: self.last_claim_time as nat,
        }
    }
}

impl Stream {
    #[verifier::type_invariant]
    spec fn balanced(self) -> bool {
        &&& self.total_released <= self.total_locked
        &&& self.buffer <= self.total_released
    }

    /// Opens a stream at time `now`. Nothing is released yet; the end time is
    /// `now + duration_secs`, held to the largest time that can be told.
    pub fn open(
        id: u64,
        sender: Identity,
        recipient: Identity,
        sats_per_sec: u64,
        duration_secs: u64,
        total_locked: u64,
        now: u64,
    ) -> (stream: Stream)
        ensures
            stream@ == StreamModel::opened(
                id as nat,
                sender@,
                recipient@,
                sats_per_sec as nat,
                duration_secs as nat,
                total_locked as nat,
                now as nat,
            ),
            stream@.wf(),
    {
        Stream {
            id,
            sender,
            recipient,
            sats_per_sec,
            start_time: now,
            end_time: now.saturating_add(duration_secs),
            total_locked,
            total_released: 0,
            last_release_time: now,
            buffer: 0,
            status: StreamStatus::Active,
            last_claim_time: now,
        }
    }

    /// Applies a sweep at time `now`: an active stream on which time has
    /// passed releases `rate * elapsed` into the buffer, capped by what
    /// remains, and completes once everything is released or the end time is
    /// reached. Any other stream is left as it is. The product is taken
    /// exactly: one that 64 bits cannot carry exceeds what remains, so what
    /// remains is released.
    pub fn accrue(&mut self, now: u64)
        ensures
            final(self)@ == old(self)@.accrued(now as nat),
            final(self)@ == old(self)@.after(Event::Sweep { now: now as nat }),
            final(self)@.wf(),
    {
        proof {
            use_type_invariant(&*self);
        }
        match self.status {
            StreamStatus::Active => {},
            _ => {
                return ;
            },
        }
        if now <= self.last_release_time {
            return ;
        }
        let elapsed: u64 = now - self.last_release_time;
        let remaining: u64 = self.total_locked - self.total_released;
        let to_release: u64 = match elapsed.checked_mul(self.sats_per_sec) {
            Some(releasable) => if releasable < remaining {
                releasable
            } else {
                remaining
            },
            None => remaining,
        };
        self.total_released = self.total_released + to_release;
        self.last_release_time = now;
        self.buffer = self.buffer + to_release;
        if self.total_released >= self.total_locked || now >= self.end_time {
            self.status = StreamStatus::Completed;
        }
    }

    /// Whether `who` holds `role` in this stream.
    pub fn is_authorized(&self, who: &Identity, role: Role) -> (allowed: bool)
        ensures
            allowed == self@.authorizes(who@, role),
    {
        match role {
            Role::Sender => self.sender == *who,
            Role::Recipient => self.recipient == *who,
        }
    }

    /// The recipient withdraws the buffer at time `now`. Only the recipient
    /// may claim, and only a buffer that holds something; a claim is open in
    /// every status. A refused claim changes nothing.
    pub fn claim(&mut self, caller: &Identity, now: u64) -> (outcome: Result<u64, StreamError>)
        ensures
            match outcome {
                Ok(amount) => {
                    &&& old(self)@.claim_refusal(caller@) is None
                    &&& amount == old(self)@.buffer
                    &&& final(self)@ == old(self)@.claimed(now as nat)
                },
                Err(reason) => {
                    &&& old(self)@.claim_refusal(caller@) == Some(reason)
                    &&& final(self)@ == old(self)@
                },
            },
            !old(self)@.authorizes(caller@, Role::Recipient) ==> outcome == Err::<u64, StreamError>(
                StreamError::Unauthorized,
            ),
            final(self)@ == old(self)@.after(Event::Claim { who: caller@, now: now as nat }),
            final(self)@.wf(),
    {
        proof {
            use_type_invariant(&*self);
        }
        if !self.is_authorized(caller, Role::Recipient) {
            return Err(StreamError::Unauthorized);
        }
        if self.buffer == 0 {
            return Err(StreamError::NothingToDo);
        }
        let claimed: u64 = self.buffer;
        self.buffer = 0;
        self.last_claim_time = now;
        Ok(claimed)
    }

    /// The sender adds `amount` to what is locked. Only the sender may top up,
    /// and only an active stream; the locked total stops at the largest amount
    /// that can be told. The end time stays. A refused top-up changes nothing.
    pub fn top_up(&mut self, caller: &Identity, amount: u64) -> (outcome: Result<(), StreamError>)
        ensures
            match outcome {
                Ok(_) => {
                    &&& old(self)@.sender_refusal(caller@) is None
                    &&& final(self)@ == old(self)@.topped_up(amount as nat)
                },
                Err(reason) => {
                    &&& old(self)@.sender_refusal(caller@) == Some(reason)
                    &&& final(self)@ == old(self)@
                },
            },
            !old(self)@.authorizes(caller@, Role::Sender) ==> outcome == Err::<(), StreamError>(
                StreamError::Unauthorized,
            ),
            final(self)@ == old(self)@.after(Event::TopUp { who: caller@, amount: amount as nat }),
            final(self)@.wf(),
    {
        proof {
            use_type_invariant(&*self);
        }
        if !self.is_authorized(caller, Role::Sender) {
            return Err(StreamError::Unauthorized);
        }
        match self.status {
            StreamStatus::Active => {},
            _ => {
                return Err(StreamError::InvalidState);
            },
        }
        self.total_locked = self.total_locked.saturating_add(amount);
        Ok(())
    }

    /// The sender stops the stream. Only the sender may cancel, and only an
    /// active stream. Of what is locked and not yet released, one hundredth
    /// (rounded to the nearest unit, a half up) is the fee and the rest the
    /// refund. The buffer stays claimable. A refused cancellation changes
    /// nothing.
    pub fn cancel(&mut self, caller: &Identity) -> (outcome: Result<CancelResult, StreamError>)
        ensures
            match outcome {
                Ok(settlement) => {
                    &&& old(self)@.sender_refusal(caller@) is None
                    &&& settlement.fee == old(self)@.cancel_fee()
                    &&& settlement.refund == old(self)@.cancel_refund()
                    &&& final(self)@ == old(self)@.cancelled()
                },
                Err(reason) => {
                    &&& old(self)@.sender_refusal(caller@) == Some(reason)
                    &&& final(self)@ == old(self)@
                },
            },
            !old(self)@.authorizes(caller@, Role::Sender) ==> outcome == Err::<
                CancelResult,
                StreamError,
            >(StreamError::Unauthorized),
            final(self)@ == old(self)@.after(Event::Cancel { who: caller@ }),
            final(self)@.wf(),
    {
        proof {
            use_type_invariant(&*self);
        }
        if !self.is_authorized(caller, Role::Sender) {
            return Err(StreamError::Unauthorized);
        }
        match self.status {
            StreamStatus::Active => {},
            _ => {
                return Err(StreamError::InvalidState);
            },
        }
        self.status = StreamStatus::Cancelled;
        let unused: u64 = self.total_locked - self.total_released;
        let fee: u64 = if unused % FEE_DIVISOR >= FEE_DIVISOR / 2 {
            unused / FEE_DIVISOR + 1
        } else {
            unused / FEE_DIVISOR
        };
        let refund: u64 = unused - fee;
        Ok(CancelResult { refund, fee })
    }

    /// The sender recovers the buffer at time `now`. Only the sender may
    /// reclaim, only a buffer that holds something, and only once
    /// `RECLAIM_TIMEOUT_SECS` have passed since the later of the end time and
    /// the recipient's last claim. A refused reclaim changes nothing.
    pub fn reclaim(&mut self, caller: &Identity, now: u64) -> (outcome: Result<u64, StreamError>)
        ensures
            match outcome {
                Ok(amount) => {
                    &&& old(self)@.reclaim_refusal(caller@, now as nat) is None
                    &&& amount == old(self)@.buffer
                    &&& final(self)@ == old(self)@.reclaimed()
                },
                Err(reason) => {
                    &&& old(self)@.reclaim_refusal(caller@, now as nat) == Some(reason)
                    &&& final(self)@ == old(self)@
                },
            },
            !old(self)@.authorizes(caller@, Role::Sender) ==> outcome == Err::<u64, StreamError>(
                StreamError::Unauthorized,
            ),
            final(self)@ == old(self)@.after(Event::Reclaim { who: caller@, now: now as nat }),
            final(self)@.wf(),
    {
        proof {
            use_type_invariant(&*self);
        }
        if !self.is_authorized(caller, Role::Sender) {
            return Err(StreamError::Unauthorized);
        }
        if self.buffer == 0 {
            return Err(StreamError::NothingToDo);
        }
        let anchor: u64 = if self.end_time >= self.last_claim_time {
            self.end_time
        } else {
            self.last_claim_time
        };
        match anchor.checked_add(RECLAIM_TIMEOUT_SECS) {
            Some(opens_at) => {
                if now < opens_at {
                    return Err(StreamError::TimeoutNotReached);
                }
            },
            None => {
                return Err(StreamError::TimeoutNotReached);
            },
        }
        let reclaimed: u64 = self.buffer;
        self.buffer = 0;
        Ok(reclaimed)
    }

    /// The party that locked the funds.
    pub fn sender(&self) -> (who: &Identity)
        ensures
            who@ == self@.sender,
    {
        &self.sender
    }

    /// The party to whom the funds accrue.
    pub fn recipient(&self) -> (who: &Identity)
        ensures
            who@ == self@.recipient,
    {
        &self.recipient
    }

    /// Where the stream stands in its life.
    pub fn status(&self) -> (status: StreamStatus)
        ensures
            status == self@.status,
    {
        self.status
    }

    /// The id that the ledger gave this stream.
    pub fn id(&self) -> (value: u64)
        ensures
            value == self@.id,
    {
        self.id
    }

    /// The amount released per second.
    pub fn sats_per_sec(&self) -> (value: u64)
        ensures
            value == self@.sats_per_sec,
    {
        self.sats_per_sec
    }

    /// When the stream was opened, in seconds.
    pub fn start_time(&self) -> (value: u64)
        ensures
            value == self@.start_time,
    {
        self.start_time
    }

    /// When the stream ends, in seconds.
    pub fn end_time(&self) -> (value: u64)
        ensures
            value == self@.end_time,
    {
        self.end_time
    }

    /// Everything committed to the stream so far.
    pub fn total_locked(&self) -> (value: u64)
        ensures
            value == self@.total_locked,
    {
        self.total_locked
    }

    /// Everything released out of the locked amount so far.
    pub fn total_released(&self) -> (value: u64)
        ensures
            value == self@.total_released,
    {
        self.total_released
    }

    /// When a sweep last touched the stream.
    pub fn last_release_time(&self) -> (value: u64)
        ensures
            value == self@.last_release_time,
    {
        self.last_release_time
    }

    /// What is released and neither claimed nor reclaimed.
    pub fn buffer(&self) -> (value: u64)
        ensures
            value == self@.buffer,
    {
        self.buffer
    }

    /// When the recipient last claimed, or the start time.
    pub fn last_claim_time(&self) -> (value: u64)
        ensures
            value == self@.last_claim_time,
    {
        self.last_claim_time
    }
}

impl Clone for Stream {
    /// A snapshot of the stream: a record of its own with the same contents.
    fn clone(&self) -> (copy: Stream)
        ensures
            copy@ == self@,
    {
        proof {
            use_type_invariant(self);
        }
        Stream {
            id: self.id,
            sender: self.sender.clone(),
            recipient: self.recipient.clone(),
            sats_per_sec: self.sats_per_sec,
            start_time: self.start_time,
            end_time: self.end_time,
            total_locked: self.total_locked,
            total_released: self.total_released,
            last_release_time: self.last_release_time,
            buffer: self.buffer,
            status: self.status,
            last_claim_time: self.last_claim_time,
        }
    }
}

} // verus!
