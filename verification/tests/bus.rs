use dual_display_core::bus::BusError;
use dual_display_core::bus::BusEvent;
use dual_display_core::bus::BusOperation;
use dual_display_core::bus::HwOutcome;
use dual_display_core::bus::SharedBus;

/// Replays the arbitration discipline over a log: an acquire only on a free
/// bus, performs and the release only by the current holder. Any partial
/// interleave of two holders' sequences breaks one of these checks.
fn is_serialized(log: &Vec<BusEvent>) -> bool {
    let mut holder: Option<u8> = None;
    for event in log {
        match *event {
            BusEvent::Acquire { addr } => {
                if holder.is_some() {
                    return false;
                }
                holder = Some(addr);
            }
            BusEvent::Perform { addr } => {
                if holder != Some(addr) {
                    return false;
                }
            }
            BusEvent::Release { addr } => {
                if holder != Some(addr) {
                    return false;
                }
                holder = None;
            }
        }
    }
    true
}

#[test]
fn perform_before_install_is_unavailable() {
    let mut bus = SharedBus::uninstalled();
    let token = bus.acquire(0x3D);
    let op = BusOperation::Write { data: vec![1, 2, 3] };
    let r = bus.perform(&token, &op, HwOutcome::Ack { data: Vec::new() });
    assert_eq!(r, Err(BusError::BusUnavailable));
    bus.release(token);
    // nothing reached the wire: no Perform entry
    assert_eq!(
        bus.log_events(),
        &vec![
            BusEvent::Acquire { addr: 0x3D },
            BusEvent::Release { addr: 0x3D },
        ]
    );
}

#[test]
fn nack_aborts_the_transaction() {
    let mut bus = SharedBus::install();
    let token = bus.acquire(0x3C);
    let op = BusOperation::Write { data: vec![0xAE] };
    let r = bus.perform(&token, &op, HwOutcome::Nack);
    assert_eq!(r, Err(BusError::TransactionAborted));
    bus.release(token);
}

#[test]
fn ack_hands_back_the_bytes_read() {
    let mut bus = SharedBus::install();
    let token = bus.acquire(0x3C);
    let op = BusOperation::Read { len: 2 };
    let r = bus.perform(&token, &op, HwOutcome::Ack { data: vec![0x41, 0x42] });
    assert_eq!(r, Ok(vec![0x41, 0x42]));
    bus.release(token);
}

#[test]
fn log_records_the_whole_sequence() {
    let mut bus = SharedBus::install();
    let token = bus.acquire(0x3D);
    let op = BusOperation::Write { data: vec![0xAF] };
    let first = bus.perform(&token, &op, HwOutcome::Ack { data: Vec::new() });
    let second = bus.perform(&token, &op, HwOutcome::Ack { data: Vec::new() });
    assert!(first.is_ok() && second.is_ok());
    bus.release(token);
    assert_eq!(
        bus.log_events(),
        &vec![
            BusEvent::Acquire { addr: 0x3D },
            BusEvent::Perform { addr: 0x3D },
            BusEvent::Perform { addr: 0x3D },
            BusEvent::Release { addr: 0x3D },
        ]
    );
}

#[test]
fn alternating_holders_never_interleave() {
    let mut bus = SharedBus::install();
    let op = BusOperation::Write { data: vec![0] };
    // two addresses take turns, with varying outcomes
    for round in 0..4u8 {
        for addr in [0x3Du8, 0x3Cu8] {
            let token = bus.acquire(addr);
            let outcome = if round % 2 == 0 {
                HwOutcome::Ack { data: Vec::new() }
            } else {
                HwOutcome::Nack
            };
            let _ = bus.perform(&token, &op, outcome);
            bus.release(token);
        }
    }
    assert_eq!(bus.log_events().len(), 24);
    assert!(is_serialized(bus.log_events()));
}
