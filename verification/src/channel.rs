//! The two display channels and their lifecycle.
//!
//! Each channel owns one display's framebuffer and power-on sequence and
//! reaches the hardware only through the shared bus: acquire, one or more
//! performs, release, as a single logical unit. A channel starts
//! `Uninitialized`, becomes `Ready` when its power-up sequence goes through,
//! and becomes `Faulted` — terminally, and for that channel alone — once a
//! sequence has failed on every attempt of the fixed retry budget. What the
//! hardware reported for each attempt is handed in as plain values; every
//! decision taken on those reports is verified here.

use vstd::prelude::*;

use crate::bus::BusError;
use crate::bus::BusEvent;
use crate::bus::BusOperation;
use crate::bus::HwOutcome;
use crate::bus::SharedBus;
use crate::bus::op_write_bytes;

verus! {

/// The 7-bit bus address of the first display.
pub const DISPLAY1_ADDR: u8 = 0x3D;

/// The 7-bit bus address of the second display.
pub const DISPLAY2_ADDR: u8 = 0x3C;

/// How many times a channel tries a transaction sequence before faulting.
pub const RETRY_BUDGET: usize = 3;

/// The display's pixel columns.
pub const FRAME_WIDTH: usize = 128;

/// The display's pixel rows.
pub const FRAME_HEIGHT: usize = 64;

/// Bytes in one framebuffer: one bit per pixel.
pub const FRAME_LEN: usize = FRAME_WIDTH * FRAME_HEIGHT / 8;

/// The failure a channel surfaces to its caller.
#[derive(Clone, Copy, PartialEq, Eq, Structural, Debug)]
pub enum ChannelError {
    /// The retry budget is exhausted, or the channel had already faulted.
    ChannelFaulted,
}

/// Where a channel stands in its lifecycle.
#[derive(Clone, Copy, PartialEq, Eq, Structural, Debug)]
pub enum ChannelState {
    Uninitialized,
    Ready,
    Faulted,
}

/// The log entries of one attempt: the bus is bound and released either
/// way; a transaction reaches the wire only on an installed bus.
pub open spec fn spec_attempt_events(addr: u8, ready: bool) -> Seq<BusEvent> {
    if ready {
        seq![
            BusEvent::Acquire { addr },
            BusEvent::Perform { addr },
            BusEvent::Release { addr },
        ]
    } else {
        seq![BusEvent::Acquire { addr }, BusEvent::Release { addr }]
    }
}

/// The log entries of the first `n` attempts of one sequence.
pub open spec fn spec_repeat_attempts(addr: u8, ready: bool, n: int) -> Seq<BusEvent>
    decreases n,
{
    if n <= 0 {
        Seq::empty()
    } else {
        spec_repeat_attempts(addr, ready, n - 1) + spec_attempt_events(addr, ready)
    }
}

/// Whether any attempt's hardware report was an acknowledgement.
pub open spec fn spec_any_success(outcomes: Seq<bool>) -> bool {
    exists|i: int| 0 <= i < outcomes.len() && outcomes[i]
}

/// The index of the first acknowledged attempt.
pub open spec fn spec_first_success(outcomes: Seq<bool>) -> int
    decreases outcomes.len(),
{
    if outcomes.len() == 0 {
        0
    } else if outcomes[0] {
        0
    } else {
        1 + spec_first_success(outcomes.drop_first())
    }
}

/// How many attempts a sequence uses: it stops at the first
/// acknowledgement, and otherwise spends every report it was given. On an
/// uninstalled bus no attempt can succeed.
pub open spec fn spec_attempts_used(ready: bool, outcomes: Seq<bool>) -> int {
    if ready && spec_any_success(outcomes) {
        spec_first_success(outcomes) + 1
    } else {
        outcomes.len() as int
    }
}

/// The write payloads one transaction sequence hands to the wire: the same
/// bytes once per attempt, for the `n` attempts that reached the wire.
pub open spec fn spec_repeat_payload(data: Seq<u8>, n: int) -> Seq<Seq<u8>>
    decreases n,
{
    if n <= 0 {
        Seq::empty()
    } else {
        spec_repeat_payload(data, n - 1).push(data)
    }
}

/// Everything one sequence sends: its payload once per attempt used, and
/// nothing at all when the bus was never installed.
pub open spec fn spec_sequence_sent(data: Seq<u8>, ready: bool, outcomes: Seq<bool>) -> Seq<
    Seq<u8>,
> {
    if ready {
        spec_repeat_payload(data, spec_attempts_used(ready, outcomes))
    } else {
        Seq::empty()
    }
}

/// The exact byte stream of the power-up command sequence.
pub open spec fn spec_init_command_bytes() -> Seq<u8> {
    seq![0xAEu8, 0xA8u8, 0x3Fu8, 0x8Du8, 0x14u8, 0x20u8, 0x00u8, 0xAFu8]
}

/// Whether a whole transaction sequence goes through: the bus must be
/// installed and some attempt acknowledged.
pub open spec fn spec_sequence_ok(ready: bool, outcomes: Seq<bool>) -> bool {
    ready && spec_any_success(outcomes)
}

/// The state `init` leaves a channel in.
pub open spec fn spec_init_state(st: ChannelState, ready: bool, outcomes: Seq<bool>) -> ChannelState {
    match st {
        ChannelState::Uninitialized => if spec_sequence_ok(ready, outcomes) {
            ChannelState::Ready
        } else {
            ChannelState::Faulted
        },
        ChannelState::Ready => ChannelState::Ready,
        ChannelState::Faulted => ChannelState::Faulted,
    }
}

/// Whether `init` reports success.
pub open spec fn spec_init_ok(st: ChannelState, ready: bool, outcomes: Seq<bool>) -> bool {
    match st {
        ChannelState::Uninitialized => spec_sequence_ok(ready, outcomes),
        ChannelState::Ready => true,
        ChannelState::Faulted => false,
    }
}

/// The bus traffic `init` issues: the power-up attempts on the
/// Uninitialized-to-Ready transition, and none at all afterwards.
pub open spec fn spec_init_traffic(
    st: ChannelState,
    addr: u8,
    ready: bool,
    outcomes: Seq<bool>,
) -> Seq<BusEvent> {
    match st {
        ChannelState::Uninitialized => spec_repeat_attempts(
            addr,
            ready,
            spec_attempts_used(ready, outcomes),
        ),
        ChannelState::Ready => Seq::empty(),
        ChannelState::Faulted => Seq::empty(),
    }
}

/// What `init` hands to the wire: the power-up command bytes, once per
/// attempt used, and only on the Uninitialized-to-Ready transition.
pub open spec fn spec_init_sent(st: ChannelState, ready: bool, outcomes: Seq<bool>) -> Seq<
    Seq<u8>,
> {
    match st {
        ChannelState::Uninitialized => spec_sequence_sent(
            spec_init_command_bytes(),
            ready,
            outcomes,
        ),
        ChannelState::Ready => Seq::empty(),
        ChannelState::Faulted => Seq::empty(),
    }
}

/// The state `flush` leaves a channel in: only a `Ready` channel pushes its
/// frame, and only a failed push faults it.
pub open spec fn spec_flush_state(st: ChannelState, ready: bool, outcomes: Seq<bool>) -> ChannelState {
    match st {
        ChannelState::Ready => if spec_sequence_ok(ready, outcomes) {
            ChannelState::Ready
        } else {
            ChannelState::Faulted
        },
        ChannelState::Uninitialized => ChannelState::Uninitialized,
        ChannelState::Faulted => ChannelState::Faulted,
    }
}

/// Whether `flush` reports success.
pub open spec fn spec_flush_ok(st: ChannelState, ready: bool, outcomes: Seq<bool>) -> bool {
    st is Ready && spec_sequence_ok(ready, outcomes)
}

/// The bus traffic `flush` issues: the push attempts from `Ready`, and none
/// from any other state.
pub open spec fn spec_flush_traffic(
    st: ChannelState,
    addr: u8,
    ready: bool,
    outcomes: Seq<bool>,
) -> Seq<BusEvent> {
    match st {
        ChannelState::Ready => spec_repeat_attempts(addr, ready, spec_attempts_used(ready, outcomes)),
        ChannelState::Uninitialized => Seq::empty(),
        ChannelState::Faulted => Seq::empty(),
    }
}

/// What `flush` hands to the wire: the channel's frame bytes, once per
/// attempt used, and only from `Ready`.
pub open spec fn spec_flush_sent(
    st: ChannelState,
    frame: Seq<u8>,
    ready: bool,
    outcomes: Seq<bool>,
) -> Seq<Seq<u8>> {
    match st {
        ChannelState::Ready => spec_sequence_sent(frame, ready, outcomes),
        ChannelState::Uninitialized => Seq::empty(),
        ChannelState::Faulted => Seq::empty(),
    }
}

/// If `i` is an acknowledged attempt and every earlier one failed, `i` is
/// the first acknowledged attempt.
proof fn lemma_first_success_at(outcomes: Seq<bool>, i: int)
    requires
        0 <= i < outcomes.len(),
        outcomes[i],
        forall|m: int| 0 <= m < i ==> !outcomes[m],
    ensures
        spec_first_success(outcomes) == i,
    decreases i,
{
    if i > 0 {
        assert(!outcomes[0]);
        assert(forall|m: int|
            0 <= m < i - 1 ==> outcomes.drop_first()[m] == outcomes[m + 1] && !outcomes[m + 1]);
        assert(outcomes.drop_first()[i - 1] == outcomes[i]);
        lemma_first_success_at(outcomes.drop_first(), i - 1);
    }
}

/// An exact copy of a byte vector.
fn clone_bytes(v: &Vec<u8>) -> (r: Vec<u8>)
    ensures
        r@ == v@,
{
    let mut r: Vec<u8> = Vec::new();
    let mut i: usize = 0;
    while i < v.len()
        invariant
            i <= v@.len(),
            r@.len() == i,
            forall|j: int| 0 <= j < i ==> r@[j] == v@[j],
        decreases v@.len() - i,
    {
        r.push(v[i]);
        i = i + 1;
    }
    assert(r@ =~= v@);
    r
}

/// One transaction sequence with the fixed retry discipline: bind the bus,
/// write `payload` in one transaction, release — and on a hardware-reported
/// failure try again, spending at most one attempt per entry of `outcomes`.
/// Stops at the first acknowledgement. The bus is released on every exit
/// path.
#[verifier::loop_isolation(false)]
fn attempt_transactions(bus: &mut SharedBus, addr: u8, payload: Vec<u8>, outcomes: &Vec<bool>) -> (r:
    Result<(), BusError>)
    requires
        old(bus).wf(),
        old(bus).free(),
        outcomes@.len() >= 1,
    ensures
        final(bus).wf(),
        final(bus).free(),
        final(bus).ready() == old(bus).ready(),
        final(bus).log() == old(bus).log() + spec_repeat_attempts(
            addr,
            old(bus).ready(),
            spec_attempts_used(old(bus).ready(), outcomes@),
        ),
        final(bus).sent() == old(bus).sent() + spec_sequence_sent(
            payload@,
            old(bus).ready(),
            outcomes@,
        ),
        r is Ok <==> spec_sequence_ok(old(bus).ready(), outcomes@),
        !old(bus).ready() ==> r == Err::<(), BusError>(BusError::BusUnavailable),
        old(bus).ready() && !spec_any_success(outcomes@) ==> r == Err::<(), BusError>(
            BusError::TransactionAborted,
        ),
{
    let ghost old_log = bus.log();
    let ghost old_sent = bus.sent();
    let ghost ready = bus.ready();
    let ghost sent_data = payload@;
    let op = BusOperation::Write { data: payload };
    let mut last_err: BusError = BusError::TransactionAborted;
    let mut i: usize = 0;
    while i < outcomes.len()
        invariant
            bus.wf(),
            bus.free(),
            bus.ready() == ready,
            i <= outcomes@.len(),
            bus.log() == old_log + spec_repeat_attempts(addr, ready, i as int),
            op_write_bytes(op) == sent_data,
            ready ==> bus.sent() == old_sent + spec_repeat_payload(sent_data, i as int),
            !ready ==> bus.sent() == old_sent,
            forall|m: int| 0 <= m < i ==> !(ready && outcomes@[m]),
            i > 0 ==> last_err == (if ready {
                BusError::TransactionAborted
            } else {
                BusError::BusUnavailable
            }),
        decreases outcomes@.len() - i,
    {
        let token = bus.acquire(addr);
        let outcome = if outcomes[i] {
            HwOutcome::Ack { data: Vec::new() }
        } else {
            HwOutcome::Nack
        };
        let res = bus.perform(&token, &op, outcome);
        bus.release(token);
        proof {
            assert(bus.log() =~= old_log + spec_repeat_attempts(addr, ready, i as int + 1));
            if ready {
                assert(bus.sent() =~= old_sent + spec_repeat_payload(sent_data, i as int + 1));
            }
        }
        match res {
            Ok(_) => {
                proof {
                    assert(ready && outcomes@[i as int]);
                    lemma_first_success_at(outcomes@, i as int);
                }
                return Ok(());
            },
            Err(e) => {
                last_err = e;
            },
        }
        i = i + 1;
    }
    proof {
        if ready && spec_any_success(outcomes@) {
            let j = choose|j: int| 0 <= j < outcomes@.len() && outcomes@[j];
            assert(!(ready && outcomes@[j]));
            assert(false);
        }
        if !ready {
            assert(bus.sent() =~= old_sent + spec_sequence_sent(sent_data, ready, outcomes@));
        }
    }
    Err(last_err)
}

/// The power-up command stream, sent as one write transaction per attempt:
/// display off, multiplex ratio, charge-pump enable, horizontal addressing
/// mode, display on.
pub fn init_commands() -> (cmds: Vec<u8>)
    ensures
        cmds@ == spec_init_command_bytes(),
{
    let mut cmds: Vec<u8> = Vec::new();
    cmds.push(0xAE);
    cmds.push(0xA8);
    cmds.push(0x3F);
    cmds.push(0x8D);
    cmds.push(0x14);
    cmds.push(0x20);
    cmds.push(0x00);
    cmds.push(0xAF);
    assert(cmds@ =~= seq![0xAEu8, 0xA8u8, 0x3Fu8, 0x8Du8, 0x14u8, 0x20u8, 0x00u8, 0xAFu8]);
    cmds
}

/// One display channel: its fixed bus address, lifecycle state, and the
/// framebuffer it exclusively owns.
pub struct DisplayChannel {
    addr: u8,
    state: ChannelState,
    frame: Vec<u8>,
}

impl DisplayChannel {
    /// The channel's fixed 7-bit bus address.
    pub closed spec fn spec_addr(&self) -> u8 {
        self.addr
    }

    /// The channel's fixed 7-bit bus address.
    #[verifier::when_used_as_spec(spec_addr)]
    pub fn addr(&self) -> (a: u8)
        ensures
            a == self.spec_addr(),
    {
        self.addr
    }

    /// The channel's lifecycle state.
    pub closed spec fn spec_state(&self) -> ChannelState {
        self.state
    }

    /// The channel's lifecycle state.
    #[verifier::when_used_as_spec(spec_state)]
    pub fn state(&self) -> (s: ChannelState)
        ensures
            s == self.spec_state(),
    {
        self.state
    }

    /// The framebuffer's bytes.
    pub closed spec fn frame(self) -> Seq<u8> {
        self.frame@
    }

    /// The framebuffer as a plain vector, for callers outside verified
    /// code.
    pub fn frame_bytes(&self) -> (r: &Vec<u8>)
        ensures
            r@ == self.frame(),
    {
        &self.frame
    }

    /// Well-formedness: the framebuffer has its fixed size.
    pub open spec fn wf(self) -> bool {
        self.frame().len() == FRAME_LEN
    }

    /// A channel for the display at `addr`, not yet initialized, with a
    /// blank framebuffer.
    pub fn new(addr: u8) -> (c: DisplayChannel)
        ensures
            c.wf(),
            c.addr() == addr,
            c.state() == ChannelState::Uninitialized,
            c.frame() =~= Seq::new(FRAME_LEN as nat, |i: int| 0u8),
    {
        let mut frame: Vec<u8> = Vec::new();
        while frame.len() < FRAME_LEN
            invariant
                frame@.len() <= FRAME_LEN,
                forall|i: int| 0 <= i < frame@.len() ==> frame@[i] == 0u8,
            decreases FRAME_LEN - frame.len(),
        {
            frame.push(0u8);
        }
        DisplayChannel { addr, state: ChannelState::Uninitialized, frame }
    }

    /// Write `data` into the channel's own framebuffer at `offset`. No bus
    /// traffic; bytes that would fall past the end of the framebuffer are
    /// clipped, so the call never fails.
    pub fn draw(&mut self, data: &Vec<u8>, offset: usize)
        requires
            old(self).wf(),
        ensures
            final(self).wf(),
            final(self).addr() == old(self).addr(),
            final(self).state() == old(self).state(),
            final(self).frame().len() == old(self).frame().len(),
            forall|j: int|
                0 <= j < final(self).frame().len() ==> final(self).frame()[j] == (if offset <= j
                    < offset + data@.len() {
                    data@[j - offset]
                } else {
                    old(self).frame()[j]
                }),
    {
        if offset >= FRAME_LEN {
            return ;
        }
        let mut i: usize = 0;
        while i < data.len() && i < FRAME_LEN - offset
            invariant
                self.wf(),
                self.addr == old(self).addr,
                self.state == old(self).state,
                offset < FRAME_LEN,
                i <= data@.len(),
                offset + i <= FRAME_LEN,
                forall|j: int|
                    0 <= j < FRAME_LEN ==> self.frame@[j] == (if offset <= j < offset + i {
                        data@[j - offset]
                    } else {
                        old(self).frame@[j]
                    }),
            decreases data.len() - i,
        {
            self.frame[offset + i] = data[i];
            i = i + 1;
        }
    }

    /// Issue the full power-up sequence, exactly once per
    /// Uninitialized-to-Ready transition. A later call on a `Ready` channel
    /// is a success without any bus traffic; a `Faulted` channel stays
    /// faulted. Each entry of `outcomes` is the hardware's report for one
    /// attempt; the budget is exhausted when none is an acknowledgement.
    pub fn init(&mut self, bus: &mut SharedBus, outcomes: &Vec<bool>) -> (r: Result<
        (),
        ChannelError,
    >)
        requires
            old(self).wf(),
            old(bus).wf(),
            old(bus).free(),
            outcomes@.len() == RETRY_BUDGET,
        ensures
            final(self).wf(),
            final(bus).wf(),
            final(bus).free(),
            final(self).addr() == old(self).addr(),
            final(self).frame() == old(self).frame(),
            final(bus).ready() == old(bus).ready(),
            final(self).state() == spec_init_state(old(self).state(), old(bus).ready(), outcomes@),
            r is Ok <==> spec_init_ok(old(self).state(), old(bus).ready(), outcomes@),
            r is Err ==> r == Err::<(), ChannelError>(ChannelError::ChannelFaulted),
            final(bus).log() == old(bus).log() + spec_init_traffic(
                old(self).state(),
                old(self).addr(),
                old(bus).ready(),
                outcomes@,
            ),
            final(bus).sent() == old(bus).sent() + spec_init_sent(
                old(self).state(),
                old(bus).ready(),
                outcomes@,
            ),
    {
        match self.state {
            ChannelState::Ready => Ok(()),
            ChannelState::Faulted => Err(ChannelError::ChannelFaulted),
            ChannelState::Uninitialized => {
                let cmds = init_commands();
                match attempt_transactions(bus, self.addr, cmds, outcomes) {
                    Ok(_) => {
                        self.state = ChannelState::Ready;
                        Ok(())
                    },
                    Err(_) => {
                        self.state = ChannelState::Faulted;
                        Err(ChannelError::ChannelFaulted)
                    },
                }
            },
        }
    }

    /// Push the framebuffer to the hardware as one logical unit: the frame
    /// goes out in a single acquired-and-released bus transaction sequence,
    /// so the other channel's traffic cannot interleave mid-frame. Only a
    /// `Ready` channel pushes; a channel that has faulted, or was never
    /// initialized, refuses without touching the bus.
    pub fn flush(&mut self, bus: &mut SharedBus, outcomes: &Vec<bool>) -> (r: Result<
        (),
        ChannelError,
    >)
        requires
            old(self).wf(),
            old(bus).wf(),
            old(bus).free(),
            outcomes@.len() == RETRY_BUDGET,
        ensures
            final(self).wf(),
            final(bus).wf(),
            final(bus).free(),
            final(self).addr() == old(self).addr(),
            final(self).frame() == old(self).frame(),
            final(bus).ready() == old(bus).ready(),
            final(self).state() == spec_flush_state(old(self).state(), old(bus).ready(), outcomes@),
            r is Ok <==> spec_flush_ok(old(self).state(), old(bus).ready(), outcomes@),
            r is Err ==> r == Err::<(), ChannelError>(ChannelError::ChannelFaulted),
            final(bus).log() == old(bus).log() + spec_flush_traffic(
                old(self).state(),
                old(self).addr(),
                old(bus).ready(),
                outcomes@,
            ),
            final(bus).sent() == old(bus).sent() + spec_flush_sent(
                old(self).state(),
                old(self).frame(),
                old(bus).ready(),
                outcomes@,
            ),
    {
        match self.state {
            ChannelState::Ready => {
                let frame_bytes = clone_bytes(&self.frame);
                match attempt_transactions(bus, self.addr, frame_bytes, outcomes) {
                    Ok(_) => Ok(()),
                    Err(_) => {
                        self.state = ChannelState::Faulted;
                        Err(ChannelError::ChannelFaulted)
                    },
                }
            },
            ChannelState::Uninitialized => Err(ChannelError::ChannelFaulted),
            ChannelState::Faulted => Err(ChannelError::ChannelFaulted),
        }
    }
}

/// The two channels of the board, one per display.
pub struct Displays {
    pub display1: DisplayChannel,
    pub display2: DisplayChannel,
}

/// The framebuffer left by drawing `data` at the start of a blank frame.
pub open spec fn spec_greeting_frame(data: Seq<u8>) -> Seq<u8> {
    Seq::new(
        FRAME_LEN as nat,
        |j: int|
            if j < data.len() {
                data[j]
            } else {
                0u8
            },
    )
}

/// The state one whole bring-up (power-up, then one push of the greeting
/// frame) leaves a channel in.
pub open spec fn spec_bring_up_state(
    ready: bool,
    init_outcomes: Seq<bool>,
    flush_outcomes: Seq<bool>,
) -> ChannelState {
    spec_flush_state(
        spec_init_state(ChannelState::Uninitialized, ready, init_outcomes),
        ready,
        flush_outcomes,
    )
}

/// The bus traffic of one whole bring-up: the power-up attempts, then the
/// push attempts if the power-up went through.
pub open spec fn spec_bring_up_traffic(
    addr: u8,
    ready: bool,
    init_outcomes: Seq<bool>,
    flush_outcomes: Seq<bool>,
) -> Seq<BusEvent> {
    spec_init_traffic(ChannelState::Uninitialized, addr, ready, init_outcomes)
        + spec_flush_traffic(
        spec_init_state(ChannelState::Uninitialized, ready, init_outcomes),
        addr,
        ready,
        flush_outcomes,
    )
}

/// What one whole bring-up hands to the wire: the power-up command bytes,
/// then the greeting frame if the power-up went through.
pub open spec fn spec_bring_up_sent(
    greeting: Seq<u8>,
    ready: bool,
    init_outcomes: Seq<bool>,
    flush_outcomes: Seq<bool>,
) -> Seq<Seq<u8>> {
    spec_init_sent(ChannelState::Uninitialized, ready, init_outcomes) + spec_flush_sent(
        spec_init_state(ChannelState::Uninitialized, ready, init_outcomes),
        spec_greeting_frame(greeting),
        ready,
        flush_outcomes,
    )
}

/// Bring one display up: create its channel, run the power-up sequence,
/// draw `greeting` into the fresh framebuffer, and push that frame to the
/// hardware with one flush. Each sequence has its own retry budget; a
/// channel whose power-up failed refuses the push without touching the bus.
pub fn bring_up_display(
    bus: &mut SharedBus,
    addr: u8,
    greeting: &Vec<u8>,
    init_outcomes: &Vec<bool>,
    flush_outcomes: &Vec<bool>,
) -> (c: DisplayChannel)
    requires
        old(bus).wf(),
        old(bus).free(),
        init_outcomes@.len() == RETRY_BUDGET,
        flush_outcomes@.len() == RETRY_BUDGET,
    ensures
        c.wf(),
        c.addr() == addr,
        c.frame() == spec_greeting_frame(greeting@),
        c.state() == spec_bring_up_state(old(bus).ready(), init_outcomes@, flush_outcomes@),
        final(bus).wf(),
        final(bus).free(),
        final(bus).ready() == old(bus).ready(),
        final(bus).log() == old(bus).log() + spec_bring_up_traffic(
            addr,
            old(bus).ready(),
            init_outcomes@,
            flush_outcomes@,
        ),
        final(bus).sent() == old(bus).sent() + spec_bring_up_sent(
            greeting@,
            old(bus).ready(),
            init_outcomes@,
            flush_outcomes@,
        ),
{
    let mut c = DisplayChannel::new(addr);
    let _powered = c.init(bus, init_outcomes);
    c.draw(greeting, 0);
    proof {
        assert(c.frame() =~= spec_greeting_frame(greeting@));
    }
    let _pushed = c.flush(bus, flush_outcomes);
    c
}

/// Create both channels at their fixed addresses and bring each display up
/// over the one shared bus: power-up sequence, greeting drawn into the
/// framebuffer, one flush of that frame — each sequence with its own retry
/// budget. A channel that exhausts a budget comes back `Faulted`; that
/// never keeps the other channel from reaching `Ready` over the same bus.
pub fn init_displays(
    bus: &mut SharedBus,
    greeting1: &Vec<u8>,
    init_outcomes1: &Vec<bool>,
    flush_outcomes1: &Vec<bool>,
    greeting2: &Vec<u8>,
    init_outcomes2: &Vec<bool>,
    flush_outcomes2: &Vec<bool>,
) -> (d: Displays)
    requires
        old(bus).wf(),
        old(bus).free(),
        init_outcomes1@.len() == RETRY_BUDGET,
        flush_outcomes1@.len() == RETRY_BUDGET,
        init_outcomes2@.len() == RETRY_BUDGET,
        flush_outcomes2@.len() == RETRY_BUDGET,
    ensures
        d.display1.wf(),
        d.display2.wf(),
        d.display1.addr() == DISPLAY1_ADDR,
        d.display2.addr() == DISPLAY2_ADDR,
        d.display1.frame() == spec_greeting_frame(greeting1@),
        d.display2.frame() == spec_greeting_frame(greeting2@),
        d.display1.state() == spec_bring_up_state(
            old(bus).ready(),
            init_outcomes1@,
            flush_outcomes1@,
        ),
        d.display2.state() == spec_bring_up_state(
            old(bus).ready(),
            init_outcomes2@,
            flush_outcomes2@,
        ),
        final(bus).wf(),
        final(bus).free(),
        final(bus).ready() == old(bus).ready(),
        final(bus).log() == old(bus).log() + spec_bring_up_traffic(
            DISPLAY1_ADDR,
            old(bus).ready(),
            init_outcomes1@,
            flush_outcomes1@,
        ) + spec_bring_up_traffic(
            DISPLAY2_ADDR,
            old(bus).ready(),
            init_outcomes2@,
            flush_outcomes2@,
        ),
        final(bus).sent() == old(bus).sent() + spec_bring_up_sent(
            greeting1@,
            old(bus).ready(),
            init_outcomes1@,
            flush_outcomes1@,
        ) + spec_bring_up_sent(
            greeting2@,
            old(bus).ready(),
            init_outcomes2@,
            flush_outcomes2@,
        ),
{
    let display1 = bring_up_display(bus, DISPLAY1_ADDR, greeting1, init_outcomes1, flush_outcomes1);
    let display2 = bring_up_display(bus, DISPLAY2_ADDR, greeting2, init_outcomes2, flush_outcomes2);
    Displays { display1, display2 }
}

/// The compute part of one pass of the main loop: write `payload` at the
/// start of both channels' framebuffers. The surrounding program flushes
/// each channel and then blocks idle until the next hardware interrupt; a
/// faulted channel never keeps the loop from serving the other.
pub fn loop_iteration(displays: &mut Displays, payload: &Vec<u8>)
    requires
        old(displays).display1.wf(),
        old(displays).display2.wf(),
    ensures
        final(displays).display1.wf(),
        final(displays).display2.wf(),
        final(displays).display1.addr() == old(displays).display1.addr(),
        final(displays).display2.addr() == old(displays).display2.addr(),
        final(displays).display1.state() == old(displays).display1.state(),
        final(displays).display2.state() == old(displays).display2.state(),
        forall|j: int|
            0 <= j < final(displays).display1.frame().len()
                ==> final(displays).display1.frame()[j] == (if j < payload@.len() {
                payload@[j]
            } else {
                old(displays).display1.frame()[j]
            }),
        forall|j: int|
            0 <= j < final(displays).display2.frame().len()
                ==> final(displays).display2.frame()[j] == (if j < payload@.len() {
                payload@[j]
            } else {
                old(displays).display2.frame()[j]
            }),
{
    displays.display1.draw(payload, 0);
    displays.display2.draw(payload, 0);
}

/// Idempotence of `init`: once a channel's `init` has succeeded, any later
/// `init` succeeds again, leaves the lifecycle state where it was, and
/// issues no bus traffic. (That the framebuffer is untouched holds of every
/// `init` call: its contract keeps the frame unchanged unconditionally.)
pub proof fn lemma_init_idempotent(
    st: ChannelState,
    addr: u8,
    ready: bool,
    outcomes1: Seq<bool>,
    outcomes2: Seq<bool>,
)
    requires
        spec_init_ok(st, ready, outcomes1),
    ensures
        spec_init_state(spec_init_state(st, ready, outcomes1), ready, outcomes2)
            == spec_init_state(st, ready, outcomes1),
        spec_init_ok(spec_init_state(st, ready, outcomes1), ready, outcomes2),
        spec_init_traffic(spec_init_state(st, ready, outcomes1), addr, ready, outcomes2)
            == Seq::<BusEvent>::empty(),
        spec_init_sent(spec_init_state(st, ready, outcomes1), ready, outcomes2)
            == Seq::<Seq<u8>>::empty(),
{
}

/// Partial failure is contained: a channel that exhausts its power-up
/// retry budget faults alone, while the other channel's whole bring-up over
/// the very same bus still reaches `Ready`.
pub proof fn lemma_fault_contained(
    ready: bool,
    init_outcomes1: Seq<bool>,
    init_outcomes2: Seq<bool>,
    flush_outcomes2: Seq<bool>,
)
    requires
        ready,
        !spec_any_success(init_outcomes1),
        spec_any_success(init_outcomes2),
        spec_any_success(flush_outcomes2),
    ensures
        spec_init_state(ChannelState::Uninitialized, ready, init_outcomes1)
            == ChannelState::Faulted,
        spec_bring_up_state(ready, init_outcomes2, flush_outcomes2) == ChannelState::Ready,
{
}

} // verus!
