//! The decisions of the distributor loops, apart from their I/O: what to do
//! with an incoming frame, and how one reliable send moves from armed to
//! acknowledged, retransmitted or abandoned.
//!
//! Delivery policy: at least once. A retransmitted command reaches the
//! receiver again under the same id and is delivered again; receivers that
//! need at-most-once semantics must remember the ids they have seen.

use vstd::prelude::*;
use crate::checksum::StableHash;
use crate::cmd::{Ack, AckValidationError, CmdOrAck, Command, Reliabilty, ack_checksum, ack_result};
use crate::transmission::Duration;

verus! {

/// What becomes of an incoming frame.
#[derive(Debug)]
pub enum Inbound<T> {
    /// A valid command for the application; `reply` is the acknowledgement to
    /// send back at once, if the command asked for one.
    Deliver { cmd: Command<T>, reply: Option<Ack> },
    /// A corrupt command, dropped.
    Discard,
    /// A valid acknowledgement: it resolves the pending send of its id.
    Confirmed(Ack),
    /// A corrupt acknowledgement, dropped; it confirms nothing.
    Rejected(AckValidationError),
}

/// Routes one decoded incoming frame.
pub fn route_incoming<T: StableHash>(msg: CmdOrAck<T>) -> (r: Inbound<T>)
    ensures
        match msg {
            CmdOrAck::Cmd(c) => if c.is_valid() {
                r == (Inbound::Deliver { cmd: c, reply: c.ack_spec() })
            } else {
                r is Discard
            },
            CmdOrAck::Ack(a) => match ack_result(a) {
                Ok(v) => r == Inbound::<T>::Confirmed(v),
                Err(e) => r == Inbound::<T>::Rejected(e),
            },
        },
{
    match msg {
        CmdOrAck::Cmd(c) => {
            if c.validate() {
                let reply = c.ack();
                Inbound::Deliver { cmd: c, reply }
            } else {
                Inbound::Discard
            }
        },
        CmdOrAck::Ack(a) => match a.validate() {
            Ok(v) => Inbound::Confirmed(v),
            Err(e) => Inbound::Rejected(e),
        },
    }
}

/// Where a reliable send stands.
#[derive(Debug, Clone, Copy, PartialEq, Eq, Structural)]
pub enum SendOutcome {
    InFlight,
    Acked,
    Abandoned,
}

/// What the sending loop must do after a tick of its clock.
#[derive(Debug, Clone, Copy, PartialEq, Eq, Structural)]
pub enum SendAction {
    /// The send is over; nothing to do.
    Idle,
    /// The deadline has not passed yet.
    Wait,
    /// Send the identical frame again.
    Retransmit { id: u8, csum: u8 },
    /// The retry ceiling is exhausted: report the send as failed.
    Abandon,
}

/// `now + timeout`, held at the largest time on overflow.
pub open spec fn deadline_after(now: u64, timeout: u64) -> u64 {
    if now + timeout > u64::MAX {
        u64::MAX
    } else {
        (now + timeout) as u64
    }
}

fn add_deadline(now: u64, timeout: u64) -> (r: u64)
    ensures
        r == deadline_after(now, timeout),
{
    if now > u64::MAX - timeout {
        u64::MAX
    } else {
        now + timeout
    }
}

/// The pending-confirmation slot of one reliable send. Times are in
/// microseconds.
#[derive(Debug, Clone, Copy, PartialEq, Eq, Structural)]
pub struct PendingSend {
    pub id: u8,
    pub csum: u8,
    pub timeout_us: u64,
    pub deadline_us: u64,
    pub retries: u32,
    pub max_retries: u32,
    pub outcome: SendOutcome,
}

impl PendingSend {
    pub open spec fn wf(&self) -> bool {
        self.retries <= self.max_retries
    }

    /// The slot after `on_tick` at `now`: a retransmission with a new deadline.
    pub open spec fn retried(self, now: u64) -> PendingSend {
        PendingSend {
            retries: (self.retries + 1) as u32,
            deadline_us: deadline_after(now, self.timeout_us),
            ..self
        }
    }

    /// Whether `on_ack` accepts `ack`: the send is in flight, the id matches
    /// and the acknowledgement validates.
    pub open spec fn accepts(self, ack: Ack) -> bool {
        self.outcome == SendOutcome::InFlight && ack.id == self.id && ack_result(ack) is Ok
    }

    /// The slot after an accepted acknowledgement.
    pub open spec fn acked(self) -> PendingSend {
        PendingSend { outcome: SendOutcome::Acked, ..self }
    }

    /// What `on_tick` at `now` asks the sending loop to do.
    pub open spec fn tick_action(self, now: u64) -> SendAction {
        if self.outcome != SendOutcome::InFlight {
            SendAction::Idle
        } else if now < self.deadline_us {
            SendAction::Wait
        } else if self.retries < self.max_retries {
            SendAction::Retransmit { id: self.id, csum: self.csum }
        } else {
            SendAction::Abandon
        }
    }

    /// The slot after `on_tick` at `now`.
    pub open spec fn after_tick(self, now: u64) -> PendingSend {
        if self.outcome != SendOutcome::InFlight || now < self.deadline_us {
            self
        } else if self.retries < self.max_retries {
            self.retried(now)
        } else {
            PendingSend { outcome: SendOutcome::Abandoned, ..self }
        }
    }

    /// Arms a slot for a command sent at `now_us`. Only reliable commands
    /// get one: an unreliable command is sent once and reported sent.
    pub fn arm<T>(cmd: &Command<T>, now_us: u64, timeout: Duration, max_retries: u32) -> (r:
        Option<PendingSend>)
        ensures
            match cmd.reliability {
                Reliabilty::Reliable { id, csum } => r == Some(
                    PendingSend {
                        id,
                        csum,
                        timeout_us: timeout.micros,
                        deadline_us: deadline_after(now_us, timeout.micros),
                        retries: 0,
                        max_retries,
                        outcome: SendOutcome::InFlight,
                    },
                ),
                Reliabilty::Unreliable => r is None,
            },
            r matches Some(p) ==> p.wf(),
    {
        match cmd.reliability {
            Reliabilty::Reliable { id, csum } => Some(
                PendingSend {
                    id,
                    csum,
                    timeout_us: timeout.micros,
                    deadline_us: add_deadline(now_us, timeout.micros),
                    retries: 0,
                    max_retries,
                    outcome: SendOutcome::InFlight,
                },
            ),
            Reliabilty::Unreliable => None,
        }
    }

    /// An acknowledgement arrived. It resolves the send when the send is in
    /// flight, the id matches and the acknowledgement validates; otherwise
    /// the slot is left as it was.
    pub fn on_ack(&mut self, ack: Ack) -> (r: bool)
        ensures
            r == old(self).accepts(ack),
            r ==> *final(self) == old(self).acked(),
            !r ==> *final(self) == *old(self),
    {
        if self.outcome != SendOutcome::InFlight || ack.id != self.id {
            return false;
        }
        match ack.validate() {
            Ok(_) => {
                self.outcome = SendOutcome::Acked;
                true
            },
            Err(_) => false,
        }
    }

    /// The clock reads `now_us`. Past the deadline the identical frame is
    /// sent again, until `max_retries` retransmissions have been made; then
    /// the send is abandoned.
    pub fn on_tick(&mut self, now_us: u64) -> (r: SendAction)
        requires
            old(self).wf(),
        ensures
            final(self).wf(),
            r == old(self).tick_action(now_us),
            *final(self) == old(self).after_tick(now_us),
            old(self).outcome != SendOutcome::InFlight ==> r == SendAction::Idle && *final(self)
                == *old(self),
            old(self).outcome == SendOutcome::InFlight && now_us < old(self).deadline_us ==> r
                == SendAction::Wait && *final(self) == *old(self),
            old(self).outcome == SendOutcome::InFlight && now_us >= old(self).deadline_us
                && old(self).retries < old(self).max_retries ==> r == (SendAction::Retransmit {
                id: old(self).id,
                csum: old(self).csum,
            }) && *final(self) == old(self).retried(now_us),
            old(self).outcome == SendOutcome::InFlight && now_us >= old(self).deadline_us
                && old(self).retries >= old(self).max_retries ==> r == SendAction::Abandon
                && *final(self) == (PendingSend {
                outcome: SendOutcome::Abandoned,
                ..*old(self)
            }),
    {
        if self.outcome != SendOutcome::InFlight {
            SendAction::Idle
        } else if now_us < self.deadline_us {
            SendAction::Wait
        } else if self.retries < self.max_retries {
            self.retries = self.retries + 1;
            self.deadline_us = add_deadline(now_us, self.timeout_us);
            SendAction::Retransmit { id: self.id, csum: self.csum }
        } else {
            self.outcome = SendOutcome::Abandoned;
            SendAction::Abandon
        }
    }
}

/// A reliable send armed at `now` whose first two frames are lost and whose
/// third is acknowledged: each tick before a deadline waits, the first two
/// deadlines each bring one retransmission of the identical frame, the
/// acknowledgement is accepted once, and the send then stays resolved.
pub proof fn lemma_two_losses_then_ack(
    id: u8,
    csum: u8,
    now: u64,
    timeout: u64,
    max_retries: u32,
    t1: u64,
    t2: u64,
)
    requires
        max_retries >= 2,
        t1 >= deadline_after(now, timeout),
        t2 >= deadline_after(t1, timeout),
    ensures
        ({
            let p0 = PendingSend {
                id,
                csum,
                timeout_us: timeout,
                deadline_us: deadline_after(now, timeout),
                retries: 0,
                max_retries,
                outcome: SendOutcome::InFlight,
            };
            let p1 = p0.after_tick(t1);
            let p2 = p1.after_tick(t2);
            let ack = Ack { id, csum: ack_checksum(id) };
            &&& forall|t: u64| t < p0.deadline_us ==> #[trigger] p0.tick_action(t) == SendAction::Wait
            &&& p0.tick_action(t1) == (SendAction::Retransmit { id, csum })
            &&& forall|t: u64| t < p1.deadline_us ==> #[trigger] p1.tick_action(t) == SendAction::Wait
            &&& p1.tick_action(t2) == (SendAction::Retransmit { id, csum })
            &&& p2.retries == 2
            &&& forall|t: u64| t < p2.deadline_us ==> #[trigger] p2.tick_action(t) == SendAction::Wait
            &&& p2.accepts(ack)
            &&& p2.acked().outcome == SendOutcome::Acked
            &&& !p2.acked().accepts(ack)
            &&& forall|t: u64| #[trigger] p2.acked().tick_action(t) == SendAction::Idle
        }),
{
}

/// Whether a slot needs the sending loop's attention at `now`: a
/// retransmission or an abandonment.
pub open spec fn is_due(slot: Option<PendingSend>, now: u64) -> bool {
    match slot {
        Some(p) => p.tick_action(now) is Retransmit || p.tick_action(now) is Abandon,
        None => false,
    }
}

/// A slot after a tick at `now`: abandoned sends release their slot.
pub open spec fn slot_after_tick(slot: Option<PendingSend>, now: u64) -> Option<PendingSend> {
    match slot {
        Some(p) => if p.tick_action(now) is Abandon {
            None
        } else {
            Some(p.after_tick(now))
        },
        None => None,
    }
}

/// The pending-confirmation table of one sending direction: one slot for
/// each of the 256 ids, holding the send in flight under that id.
pub struct PendingTable {
    slots: Vec<Option<PendingSend>>,
}

impl View for PendingTable {
    type V = Seq<Option<PendingSend>>;

    closed spec fn view(&self) -> Seq<Option<PendingSend>> {
        self.slots@
    }
}

impl PendingTable {
    /// Every slot sits at its own id and holds a send still in flight.
    pub open spec fn wf(&self) -> bool {
        &&& self@.len() == 256
        &&& forall|i: int|
            0 <= i < 256 && #[trigger] self@[i] is Some ==> {
                &&& self@[i]->0.id == i
                &&& self@[i]->0.outcome == SendOutcome::InFlight
                &&& self@[i]->0.wf()
            }
    }

    pub fn new() -> (r: Self)
        ensures
            r.wf(),
            forall|i: int| 0 <= i < 256 ==> #[trigger] r@[i] is None,
    {
        let mut slots: Vec<Option<PendingSend>> = Vec::new();
        let mut i: usize = 0;
        while i < 256
            invariant
                i <= 256,
                slots@.len() == i,
                forall|j: int| 0 <= j < i ==> #[trigger] slots@[j] is None,
            decreases 256 - i,
        {
            slots.push(None);
            i = i + 1;
        }
        PendingTable { slots }
    }

    /// Whether a send is in flight under `id`.
    pub fn in_flight(&self, id: u8) -> (r: bool)
        requires
            self.wf(),
        ensures
            r == self@[id as int] is Some,
    {
        self.slots[id as usize].is_some()
    }

    /// Takes a newly armed send into the table. Refused when its id is still
    /// in flight, or when the slot is not a well-formed send in flight.
    pub fn start(&mut self, p: PendingSend) -> (r: bool)
        requires
            old(self).wf(),
        ensures
            final(self).wf(),
            r == (old(self)@[p.id as int] is None && p.outcome == SendOutcome::InFlight && p.wf()),
            r ==> final(self)@ == old(self)@.update(p.id as int, Some(p)),
            !r ==> final(self)@ == old(self)@,
    {
        if self.slots[p.id as usize].is_some() || p.outcome != SendOutcome::InFlight || p.retries
            > p.max_retries {
            return false;
        }
        self.slots.set(p.id as usize, Some(p));
        true
    }

    /// An incoming acknowledgement. A valid one for an id in flight resolves
    /// that send and frees its slot; any other leaves the table as it was.
    pub fn confirm(&mut self, ack: Ack) -> (r: bool)
        requires
            old(self).wf(),
        ensures
            final(self).wf(),
            r == (old(self)@[ack.id as int] is Some && ack_result(ack) is Ok),
            r ==> final(self)@ == old(self)@.update(ack.id as int, None),
            !r ==> final(self)@ == old(self)@,
    {
        match self.slots[ack.id as usize] {
            Some(p) => {
                let mut q = p;
                if q.on_ack(ack) {
                    self.slots.set(ack.id as usize, None);
                    true
                } else {
                    false
                }
            },
            None => false,
        }
    }

    /// The clock reads `now_us`. Every send past its deadline is either
    /// retransmitted or, at its retry ceiling, abandoned and its slot freed.
    /// Returns the ids that need the sending loop, in increasing order, each
    /// with what to do.
    pub fn tick(&mut self, now_us: u64) -> (r: Vec<(u8, SendAction)>)
        requires
            old(self).wf(),
        ensures
            final(self).wf(),
            forall|i: int|
                0 <= i < 256 ==> #[trigger] final(self)@[i] == slot_after_tick(old(self)@[i], now_us),
            forall|k: int|
                0 <= k < r@.len() ==> {
                    &&& is_due(old(self)@[r@[k].0 as int], now_us)
                    &&& r@[k].1 == old(self)@[r@[k].0 as int]->0.tick_action(now_us)
                },
            forall|k1: int, k2: int| 0 <= k1 < k2 < r@.len() ==> r@[k1].0 < r@[k2].0,
            forall|i: int|
                0 <= i < 256 && #[trigger] is_due(old(self)@[i], now_us) ==> exists|k: int|
                    0 <= k < r@.len() && r@[k].0 == i,
    {
        let mut out: Vec<(u8, SendAction)> = Vec::new();
        let mut i: usize = 0;
        while i < 256
            invariant
                i <= 256,
                self.wf(),
                old(self).wf(),
                forall|j: int|
                    0 <= j < i ==> #[trigger] self@[j] == slot_after_tick(old(self)@[j], now_us),
                forall|j: int| i <= j < 256 ==> #[trigger] self@[j] == old(self)@[j],
                forall|k: int|
                    0 <= k < out@.len() ==> {
                        &&& out@[k].0 < i
                        &&& is_due(old(self)@[out@[k].0 as int], now_us)
                        &&& out@[k].1 == old(self)@[out@[k].0 as int]->0.tick_action(now_us)
                    },
                forall|k1: int, k2: int| 0 <= k1 < k2 < out@.len() ==> out@[k1].0 < out@[k2].0,
                forall|j: int|
                    0 <= j < i && #[trigger] is_due(old(self)@[j], now_us) ==> exists|k: int|
                        0 <= k < out@.len() && out@[k].0 == j,
            decreases 256 - i,
        {
            let ghost prev = out@;
            match self.slots[i] {
                Some(p) => {
                    let mut q = p;
                    let action = q.on_tick(now_us);
                    match action {
                        SendAction::Abandon => {
                            self.slots.set(i, None);
                        },
                        _ => {
                            self.slots.set(i, Some(q));
                        },
                    }
                    match action {
                        SendAction::Retransmit { .. } | SendAction::Abandon => {
                            out.push((i as u8, action));
                        },
                        _ => {},
                    }
                },
                None => {},
            }
            assert forall|j: int|
                0 <= j <= i && #[trigger] is_due(old(self)@[j], now_us) implies exists|k: int|
                    0 <= k < out@.len() && out@[k].0 == j by {
                if j < i {
                    let k = choose|k: int| 0 <= k < prev.len() && prev[k].0 == j;
                    assert(out@[k] == prev[k]);
                } else {
                    assert(out@[out@.len() - 1].0 == j);
                }
            }
            i = i + 1;
        }
        out
    }
}

} // verus!
