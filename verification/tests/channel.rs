use dual_display_core::bus::BusEvent;
use dual_display_core::bus::SharedBus;
use dual_display_core::channel::bring_up_display;
use dual_display_core::channel::init_commands;
use dual_display_core::channel::init_displays;
use dual_display_core::channel::loop_iteration;
use dual_display_core::channel::ChannelError;
use dual_display_core::channel::ChannelState;
use dual_display_core::channel::DisplayChannel;
use dual_display_core::channel::DISPLAY1_ADDR;
use dual_display_core::channel::DISPLAY2_ADDR;
use dual_display_core::channel::FRAME_LEN;
use dual_display_core::channel::RETRY_BUDGET;

fn no_greeting() -> Vec<u8> {
    Vec::new()
}

fn all_good() -> Vec<bool> {
    vec![true; RETRY_BUDGET]
}

fn all_bad() -> Vec<bool> {
    vec![false; RETRY_BUDGET]
}

#[test]
fn budget_covers_a_second_attempt() {
    assert!(RETRY_BUDGET >= 2);
}

#[test]
fn init_reaches_ready_first_try() {
    let mut bus = SharedBus::install();
    let mut channel = DisplayChannel::new(DISPLAY1_ADDR);
    let r = channel.init(&mut bus, &all_good());
    assert_eq!(r, Ok(()));
    assert_eq!(channel.state(), ChannelState::Ready);
    // one attempt: acquire, one transaction, release
    assert_eq!(
        bus.log_events(),
        &vec![
            BusEvent::Acquire { addr: DISPLAY1_ADDR },
            BusEvent::Perform { addr: DISPLAY1_ADDR },
            BusEvent::Release { addr: DISPLAY1_ADDR },
        ]
    );
}

#[test]
fn init_is_idempotent_after_success() {
    let mut bus = SharedBus::install();
    let mut channel = DisplayChannel::new(DISPLAY1_ADDR);
    assert_eq!(channel.init(&mut bus, &all_good()), Ok(()));
    let frame_before = channel.frame_bytes().clone();
    let traffic_before = bus.log_events().len();

    assert_eq!(channel.init(&mut bus, &all_good()), Ok(()));
    assert_eq!(channel.init(&mut bus, &all_bad()), Ok(()));

    assert_eq!(channel.state(), ChannelState::Ready);
    assert_eq!(channel.frame_bytes(), &frame_before);
    // re-issuing the power-up sequence would have grown the log
    assert_eq!(bus.log_events().len(), traffic_before);
}

#[test]
fn one_failure_then_success_reaches_ready() {
    let mut bus = SharedBus::install();
    let mut channel = DisplayChannel::new(DISPLAY1_ADDR);
    let r = channel.init(&mut bus, &vec![false, true, false]);
    assert_eq!(r, Ok(()));
    assert_eq!(channel.state(), ChannelState::Ready);
    // a failed attempt then a whole second attempt: 3 + 3 events
    assert_eq!(bus.log_events().len(), 6);
}

#[test]
fn exhausted_budget_faults_only_that_channel() {
    let mut bus = SharedBus::install();
    let displays = init_displays(
        &mut bus,
        &no_greeting(),
        &all_bad(),
        &all_good(),
        &no_greeting(),
        &all_good(),
        &all_good(),
    );
    assert_eq!(displays.display1.state(), ChannelState::Faulted);
    assert_eq!(displays.display2.state(), ChannelState::Ready);
    // first channel: three failed power-up attempts and no push; second
    // channel: one good power-up attempt and one good push
    assert_eq!(bus.log_events().len(), 3 * 3 + (3 + 3));
}

#[test]
fn init_on_uninstalled_bus_faults() {
    let mut bus = SharedBus::uninstalled();
    let mut channel = DisplayChannel::new(DISPLAY2_ADDR);
    let r = channel.init(&mut bus, &all_good());
    assert_eq!(r, Err(ChannelError::ChannelFaulted));
    assert_eq!(channel.state(), ChannelState::Faulted);
    // nothing ever reached the wire
    assert!(bus
        .log_events()
        .iter()
        .all(|e| !matches!(e, BusEvent::Perform { .. })));
}

#[test]
fn faulted_channel_stays_faulted() {
    let mut bus = SharedBus::install();
    let mut channel = DisplayChannel::new(DISPLAY1_ADDR);
    assert_eq!(
        channel.init(&mut bus, &all_bad()),
        Err(ChannelError::ChannelFaulted)
    );
    let traffic = bus.log_events().len();
    assert_eq!(
        channel.init(&mut bus, &all_good()),
        Err(ChannelError::ChannelFaulted)
    );
    assert_eq!(
        channel.flush(&mut bus, &all_good()),
        Err(ChannelError::ChannelFaulted)
    );
    assert_eq!(channel.state(), ChannelState::Faulted);
    assert_eq!(bus.log_events().len(), traffic);
}

#[test]
fn flush_pushes_one_contiguous_unit() {
    let mut bus = SharedBus::install();
    let mut channel = DisplayChannel::new(DISPLAY2_ADDR);
    assert_eq!(channel.init(&mut bus, &all_good()), Ok(()));
    let before = bus.log_events().len();
    assert_eq!(channel.flush(&mut bus, &all_good()), Ok(()));
    assert_eq!(channel.state(), ChannelState::Ready);
    assert_eq!(
        &bus.log_events()[before..],
        &[
            BusEvent::Acquire { addr: DISPLAY2_ADDR },
            BusEvent::Perform { addr: DISPLAY2_ADDR },
            BusEvent::Release { addr: DISPLAY2_ADDR },
        ]
    );
}

#[test]
fn flush_failure_beyond_budget_faults() {
    let mut bus = SharedBus::install();
    let mut channel = DisplayChannel::new(DISPLAY2_ADDR);
    assert_eq!(channel.init(&mut bus, &all_good()), Ok(()));
    assert_eq!(
        channel.flush(&mut bus, &all_bad()),
        Err(ChannelError::ChannelFaulted)
    );
    assert_eq!(channel.state(), ChannelState::Faulted);
}

#[test]
fn flush_before_init_is_refused_without_traffic() {
    let mut bus = SharedBus::install();
    let mut channel = DisplayChannel::new(DISPLAY1_ADDR);
    assert_eq!(
        channel.flush(&mut bus, &all_good()),
        Err(ChannelError::ChannelFaulted)
    );
    assert_eq!(channel.state(), ChannelState::Uninitialized);
    assert_eq!(bus.log_events().len(), 0);
}

#[test]
fn draw_writes_at_offset_and_clips() {
    let mut channel = DisplayChannel::new(DISPLAY1_ADDR);
    assert_eq!(channel.frame_bytes().len(), FRAME_LEN);
    channel.draw(&vec![7, 8, 9], 4);
    assert_eq!(&channel.frame_bytes()[0..8], &[0, 0, 0, 0, 7, 8, 9, 0]);

    // payload reaching past the end is clipped, not an error
    channel.draw(&vec![1, 2, 3, 4], FRAME_LEN - 2);
    assert_eq!(&channel.frame_bytes()[FRAME_LEN - 3..], &[0, 1, 2]);

    // offset entirely past the end leaves the frame alone
    let before = channel.frame_bytes().clone();
    channel.draw(&vec![5], FRAME_LEN);
    assert_eq!(channel.frame_bytes(), &before);
    assert_eq!(channel.state(), ChannelState::Uninitialized);
}

#[test]
fn draw_performs_no_bus_traffic() {
    let mut bus = SharedBus::install();
    let mut channel = DisplayChannel::new(DISPLAY1_ADDR);
    assert_eq!(channel.init(&mut bus, &all_good()), Ok(()));
    let before = bus.log_events().len();
    channel.draw(&vec![0xFF; 16], 0);
    assert_eq!(bus.log_events().len(), before);
}

#[test]
fn loop_iteration_updates_both_frames() {
    let mut bus = SharedBus::install();
    let mut displays = init_displays(
        &mut bus,
        &no_greeting(),
        &all_good(),
        &all_good(),
        &no_greeting(),
        &all_good(),
        &all_good(),
    );
    loop_iteration(&mut displays, &vec![1]);
    assert_eq!(displays.display1.frame_bytes()[0], 1);
    assert_eq!(displays.display2.frame_bytes()[0], 1);
    assert_eq!(displays.display1.frame_bytes()[1], 0);
    assert_eq!(displays.display1.state(), ChannelState::Ready);
}

#[test]
fn init_command_stream_is_fixed() {
    assert_eq!(
        init_commands(),
        vec![0xAE, 0xA8, 0x3F, 0x8D, 0x14, 0x20, 0x00, 0xAF]
    );
}

#[test]
fn draw_with_empty_payload_changes_nothing() {
    let mut channel = DisplayChannel::new(DISPLAY1_ADDR);
    let before = channel.frame_bytes().clone();
    channel.draw(&Vec::new(), 0);
    assert_eq!(channel.frame_bytes(), &before);
}

#[test]
fn bring_up_draws_greeting_and_flushes_it() {
    let mut bus = SharedBus::install();
    let greeting = vec![0x11, 0x22, 0x33];
    let channel = bring_up_display(&mut bus, DISPLAY1_ADDR, &greeting, &all_good(), &all_good());
    assert_eq!(channel.state(), ChannelState::Ready);
    // the greeting stands at the start of the frame, the rest stays blank
    assert_eq!(&channel.frame_bytes()[0..4], &[0x11, 0x22, 0x33, 0x00]);
    assert_eq!(channel.frame_bytes().len(), FRAME_LEN);
    // bring-up is the power-up unit followed by one push unit
    assert_eq!(
        bus.log_events(),
        &vec![
            BusEvent::Acquire { addr: DISPLAY1_ADDR },
            BusEvent::Perform { addr: DISPLAY1_ADDR },
            BusEvent::Release { addr: DISPLAY1_ADDR },
            BusEvent::Acquire { addr: DISPLAY1_ADDR },
            BusEvent::Perform { addr: DISPLAY1_ADDR },
            BusEvent::Release { addr: DISPLAY1_ADDR },
        ]
    );
}

#[test]
fn failed_power_up_skips_the_greeting_push() {
    let mut bus = SharedBus::install();
    let greeting = vec![0x7F];
    let channel = bring_up_display(&mut bus, DISPLAY2_ADDR, &greeting, &all_bad(), &all_good());
    assert_eq!(channel.state(), ChannelState::Faulted);
    // the greeting still stands in the owned frame, but nothing was pushed
    assert_eq!(channel.frame_bytes()[0], 0x7F);
    assert_eq!(bus.log_events().len(), 3 * 3);
}

#[test]
fn init_displays_leaves_greetings_in_both_frames() {
    let mut bus = SharedBus::install();
    let displays = init_displays(
        &mut bus,
        &vec![1, 2],
        &all_good(),
        &all_good(),
        &vec![3, 4],
        &all_good(),
        &all_good(),
    );
    assert_eq!(&displays.display1.frame_bytes()[0..3], &[1, 2, 0]);
    assert_eq!(&displays.display2.frame_bytes()[0..3], &[3, 4, 0]);
    assert_eq!(displays.display1.state(), ChannelState::Ready);
    assert_eq!(displays.display2.state(), ChannelState::Ready);
}

#[test]
fn bus_reports_free_between_holders() {
    let mut bus = SharedBus::install();
    assert!(bus.is_free());
    let token = bus.acquire(DISPLAY1_ADDR);
    assert!(!bus.is_free());
    bus.release(token);
    assert!(bus.is_free());
}
