//! The single shared two-wire bus and its arbitration discipline.
//!
//! One physical bus serves two addressed displays. All traffic goes through
//! an owned arbitrator, [`SharedBus`]: a caller first binds a scoped
//! [`BusAccessToken`] to one 7-bit address with `acquire`, issues
//! transactions through `perform`, and gives the bus back with `release`.
//! The bus keeps a transaction log and a ghost record of every write
//! payload that reached the wire; well-formedness ([`SharedBus::wf`])
//! guarantees the log is serialized, so one holder's acquire/perform/release
//! run can never interleave with another's.

use vstd::prelude::*;

verus! {

/// Failures reported by the bus itself.
#[derive(Clone, Copy, PartialEq, Eq, Structural, Debug)]
pub enum BusError {
    /// `perform` was called before the physical bus was installed.
    BusUnavailable,
    /// The hardware reported a NACK or a bus-level timeout for one operation.
    TransactionAborted,
}

/// One entry of the bus's transaction log.
#[derive(Clone, Copy, PartialEq, Eq, Structural, Debug)]
pub enum BusEvent {
    /// The bus was bound to `addr`.
    Acquire { addr: u8 },
    /// One transaction was issued on the wire to `addr`.
    Perform { addr: u8 },
    /// The bus was returned to the free state by the holder bound to `addr`.
    Release { addr: u8 },
}

/// One atomic operation against the bound address.
pub enum BusOperation {
    /// Write the given bytes.
    Write { data: Vec<u8> },
    /// Read `len` bytes.
    Read { len: usize },
    /// Write the given bytes, then read `len` bytes, without releasing.
    WriteRead { data: Vec<u8>, len: usize },
}

/// What the hardware reported for one attempted transaction: an
/// acknowledgement carrying the bytes read (empty for a pure write), or a
/// NACK / bus-level timeout.
pub enum HwOutcome {
    Ack { data: Vec<u8> },
    Nack,
}

/// The address of whichever event `e` is.
pub open spec fn event_addr(e: BusEvent) -> u8 {
    match e {
        BusEvent::Acquire { addr } => addr,
        BusEvent::Perform { addr } => addr,
        BusEvent::Release { addr } => addr,
    }
}

/// The bytes an operation writes to the wire (none for a pure read).
pub open spec fn op_write_bytes(op: BusOperation) -> Seq<u8> {
    match op {
        BusOperation::Write { data } => data@,
        BusOperation::Read { len: _ } => Seq::empty(),
        BusOperation::WriteRead { data, len: _ } => data@,
    }
}

/// The bytes the hardware handed back in `o`, if any.
pub open spec fn outcome_data(o: HwOutcome) -> Seq<u8> {
    match o {
        HwOutcome::Ack { data } => data@,
        HwOutcome::Nack => Seq::empty(),
    }
}

/// The address bound after the events in `log`, if the bus is held.
pub open spec fn holder_after(log: Seq<BusEvent>) -> Option<u8>
    decreases log.len(),
{
    if log.len() == 0 {
        None
    } else {
        match log.last() {
            BusEvent::Acquire { addr } => Some(addr),
            BusEvent::Perform { addr: _ } => holder_after(log.drop_last()),
            BusEvent::Release { addr: _ } => None,
        }
    }
}

/// A log that the arbitration discipline can actually produce: an acquire
/// only on a free bus, a perform or release only by the current holder.
pub open spec fn valid_log(log: Seq<BusEvent>) -> bool
    decreases log.len(),
{
    if log.len() == 0 {
        true
    } else {
        valid_log(log.drop_last()) && match log.last() {
            BusEvent::Acquire { addr: _ } => holder_after(log.drop_last()) is None,
            BusEvent::Perform { addr } => holder_after(log.drop_last()) == Some(addr),
            BusEvent::Release { addr } => holder_after(log.drop_last()) == Some(addr),
        }
    }
}

/// A scoped handle bound to one 7-bit target address. Tokens come only from
/// [`SharedBus::acquire`] and are consumed by [`SharedBus::release`].
pub struct BusAccessToken {
    addr: u8,
}

impl BusAccessToken {
    /// The address this token is bound to.
    pub closed spec fn addr(self) -> u8 {
        self.addr
    }
}

/// The owned arbitrator for the one physical bus.
pub struct SharedBus {
    line_ready: bool,
    holder: Option<u8>,
    log: Vec<BusEvent>,
    sent: Ghost<Seq<Seq<u8>>>,
}

impl SharedBus {
    /// Whether the physical bus has been installed.
    pub closed spec fn ready(self) -> bool {
        self.line_ready
    }

    /// The address currently holding the bus, if any.
    pub closed spec fn holder(self) -> Option<u8> {
        self.holder
    }

    /// The transaction log so far.
    pub closed spec fn log(self) -> Seq<BusEvent> {
        self.log@
    }

    /// The write payloads handed to the wire so far, in order: one entry
    /// for every transaction that reached an installed bus.
    pub closed spec fn sent(self) -> Seq<Seq<u8>> {
        self.sent@
    }

    /// No holder: a new `acquire` may proceed.
    pub open spec fn free(self) -> bool {
        self.holder() is None
    }

    /// Executable query for [`SharedBus::free`], so unverified callers can
    /// test it before acquiring.
    pub fn is_free(&self) -> (b: bool)
        ensures
            b == self.free(),
    {
        self.holder.is_none()
    }

    /// Well-formedness: the log is one the discipline can produce, and the
    /// recorded holder agrees with it.
    pub closed spec fn wf(self) -> bool {
        valid_log(self.log@) && self.holder == holder_after(self.log@)
    }

    /// An arbitrator whose physical bus is installed and free.
    pub fn install() -> (b: SharedBus)
        ensures
            b.wf(),
            b.ready(),
            b.free(),
            b.log() == Seq::<BusEvent>::empty(),
            b.sent() == Seq::<Seq<u8>>::empty(),
    {
        SharedBus { line_ready: true, holder: None, log: Vec::new(), sent: Ghost(Seq::empty()) }
    }

    /// An arbitrator whose physical bus has not been installed: every
    /// `perform` through it fails with `BusUnavailable`.
    pub fn uninstalled() -> (b: SharedBus)
        ensures
            b.wf(),
            !b.ready(),
            b.free(),
            b.log() == Seq::<BusEvent>::empty(),
            b.sent() == Seq::<Seq<u8>>::empty(),
    {
        SharedBus { line_ready: false, holder: None, log: Vec::new(), sent: Ghost(Seq::empty()) }
    }

    /// Bind the bus to `addr`. In the single-threaded model the bus is free
    /// whenever control reaches a call site, since every holder releases on
    /// every exit path; acquisition on a held bus would busy-wait forever.
    pub fn acquire(&mut self, addr: u8) -> (t: BusAccessToken)
        requires
            old(self).wf(),
            old(self).free(),
        ensures
            final(self).wf(),
            t.addr() == addr,
            final(self).holder() == Some(addr),
            final(self).ready() == old(self).ready(),
            final(self).log() == old(self).log().push(BusEvent::Acquire { addr }),
            final(self).sent() == old(self).sent(),
    {
        proof {
            lemma_valid_log_push(self.log@, BusEvent::Acquire { addr });
        }
        self.holder = Some(addr);
        self.log.push(BusEvent::Acquire { addr });
        BusAccessToken { addr }
    }

    /// Issue one atomic operation against the bound address. `outcome` is
    /// what the hardware reported for the transfer; it is ignored when the
    /// physical bus was never installed, in which case nothing reached the
    /// wire and `BusUnavailable` comes back.
    pub fn perform(&mut self, token: &BusAccessToken, op: &BusOperation, outcome: HwOutcome) -> (r:
        Result<Vec<u8>, BusError>)
        requires
            old(self).wf(),
            old(self).holder() == Some(token.addr()),
        ensures
            final(self).wf(),
            final(self).holder() == old(self).holder(),
            final(self).ready() == old(self).ready(),
            !old(self).ready() ==> r == Err::<Vec<u8>, BusError>(BusError::BusUnavailable)
                && final(self).log() == old(self).log() && final(self).sent() == old(self).sent(),
            old(self).ready() ==> final(self).log() == old(self).log().push(
                BusEvent::Perform { addr: token.addr() },
            ) && final(self).sent() == old(self).sent().push(op_write_bytes(*op)),
            old(self).ready() && outcome is Nack ==> r == Err::<Vec<u8>, BusError>(
                BusError::TransactionAborted,
            ),
            old(self).ready() && outcome is Ack ==> (r matches Ok(d) && d@ == outcome_data(
                outcome,
            )),
    {
        if !self.line_ready {
            return Err(BusError::BusUnavailable);
        }
        proof {
            lemma_valid_log_push(self.log@, BusEvent::Perform { addr: token.addr });
            self.sent@ = self.sent@.push(op_write_bytes(*op));
        }
        self.log.push(BusEvent::Perform { addr: token.addr });
        match outcome {
            HwOutcome::Ack { data } => Ok(data),
            HwOutcome::Nack => Err(BusError::TransactionAborted),
        }
    }

    /// Return the bus to the free state, consuming the token.
    pub fn release(&mut self, token: BusAccessToken)
        requires
            old(self).wf(),
            old(self).holder() == Some(token.addr()),
        ensures
            final(self).wf(),
            final(self).free(),
            final(self).ready() == old(self).ready(),
            final(self).log() == old(self).log().push(BusEvent::Release { addr: token.addr() }),
            final(self).sent() == old(self).sent(),
    {
        proof {
            lemma_valid_log_push(self.log@, BusEvent::Release { addr: token.addr });
        }
        self.holder = None;
        self.log.push(BusEvent::Release { addr: token.addr });
    }

    /// The log as a plain vector, for callers outside verified code.
    pub fn log_events(&self) -> (r: &Vec<BusEvent>)
        ensures
            r@ == self.log(),
    {
        &self.log
    }

    /// What [`SharedBus::wf`] guarantees of the visible state.
    pub proof fn lemma_wf_unfold(self)
        requires
            self.wf(),
        ensures
            valid_log(self.log()),
            self.holder() == holder_after(self.log()),
    {
    }
}

/// The events of `log` from position `i` on are one contiguous run of the
/// holder bound to `a`: an acquire at `i`, then only performs by `a`.
pub open spec fn contiguous_from(log: Seq<BusEvent>, i: int, a: u8) -> bool {
    &&& 0 <= i < log.len()
    &&& log[i] == (BusEvent::Acquire { addr: a })
    &&& forall|m: int| i < m < log.len() ==> log[m] == (BusEvent::Perform { addr: a })
}

/// Every prefix of a valid log is itself valid.
pub proof fn lemma_valid_log_take(log: Seq<BusEvent>, n: int)
    requires
        valid_log(log),
        0 <= n <= log.len(),
    ensures
        valid_log(log.take(n)),
    decreases log.len() - n,
{
    if n == log.len() {
        assert(log.take(n) =~= log);
    } else {
        lemma_valid_log_take(log, n + 1);
        assert(log.take(n) =~= log.take(n + 1).drop_last());
        assert(log.take(n + 1).last() == log[n]);
    }
}

/// While `a` holds the bus, everything since its acquire is `a`'s own
/// traffic: the open segment at the end of a valid log is contiguous.
pub proof fn lemma_open_segment_contiguous(log: Seq<BusEvent>, a: u8)
    requires
        valid_log(log),
        holder_after(log) == Some(a),
    ensures
        exists|i: int| contiguous_from(log, i, a),
    decreases log.len(),
{
    let prefix = log.drop_last();
    match log.last() {
        BusEvent::Acquire { addr } => {
            assert(contiguous_from(log, log.len() - 1, a));
        },
        BusEvent::Perform { addr } => {
            lemma_open_segment_contiguous(prefix, a);
            let i = choose|i: int| contiguous_from(prefix, i, a);
            assert(log[i] == prefix[i]);
            assert(forall|m: int| i < m < log.len() - 1 ==> log[m] == prefix[m]);
            assert(contiguous_from(log, i, a));
        },
        BusEvent::Release { addr: _ } => {
            assert(false);
        },
    }
}

/// No partial interleave, ever: in a valid log, every perform and every
/// release is preceded by its own address's acquire, with nothing but that
/// same address's performs in between. Since each bus operation preserves
/// [`SharedBus::wf`], this holds of the log of every reachable bus, for any
/// interleaving of operations the two channels issue.
pub proof fn lemma_log_never_interleaves(log: Seq<BusEvent>, k: int)
    requires
        valid_log(log),
        0 <= k < log.len(),
        !(log[k] is Acquire),
    ensures
        exists|i: int| contiguous_from(log.take(k), i, event_addr(log[k])),
{
    lemma_valid_log_take(log, k + 1);
    assert(log.take(k + 1).drop_last() =~= log.take(k));
    assert(log.take(k + 1).last() == log[k]);
    lemma_open_segment_contiguous(log.take(k), event_addr(log[k]));
}

/// [`lemma_log_never_interleaves`] applied to a bus: every operation on a
/// [`SharedBus`] preserves its well-formedness, so the transaction log of
/// any reachable bus shows no partial interleave, however the two channels'
/// operations were interleaved by the single control thread.
pub proof fn lemma_bus_never_interleaves(bus: SharedBus, k: int)
    requires
        bus.wf(),
        0 <= k < bus.log().len(),
        !(bus.log()[k] is Acquire),
    ensures
        exists|i: int| contiguous_from(bus.log().take(k), i, event_addr(bus.log()[k])),
{
    bus.lemma_wf_unfold();
    lemma_log_never_interleaves(bus.log(), k);
}

/// Appending an event that respects the current holder keeps a log valid.
proof fn lemma_valid_log_push(log: Seq<BusEvent>, e: BusEvent)
    requires
        valid_log(log),
        match e {
            BusEvent::Acquire { addr: _ } => holder_after(log) is None,
            BusEvent::Perform { addr } => holder_after(log) == Some(addr),
            BusEvent::Release { addr } => holder_after(log) == Some(addr),
        },
    ensures
        valid_log(log.push(e)),
        holder_after(log.push(e)) == (match e {
            BusEvent::Acquire { addr } => Some(addr),
            BusEvent::Perform { addr: _ } => holder_after(log),
            BusEvent::Release { addr: _ } => None::<u8>,
        }),
{
    assert(log.push(e).drop_last() =~= log);
    assert(log.push(e).last() == e);
}

} // verus!
