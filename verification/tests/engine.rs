//! The engine end to end over a scripted transport: controller exchanges,
//! caching, arbitration and subscriber notification.

use amp_core::broker::StateBroker;
use amp_core::device::{get_serial, Serial};
use amp_core::errors::AmpError;
use amp_core::script::ScriptedTransport;
use amp_core::status::Status;
use amp_core::transport::Transport;

fn status_reply(vol: u8, input0: u8, standby: u8, e2: u8, e6: u8, e1: u8) -> Vec<u8> {
    let mut v = vec![0u8; 24];
    v[0] = 0xAA;
    v[1] = 0x0A;
    v[2] = 0x14;
    v[3] = vol;
    v[7] = input0;
    v[11] = e2;
    v[12] = e6;
    v[13] = e1;
    v[20] = standby;
    v
}

fn decoded(vol: u8, input0: u8, standby: u8, e2: u8, e6: u8, e1: u8) -> Status {
    Status {
        main_volume: vol,
        input: input0 + 1,
        standby: standby == 0x01,
        input_1_effect: e1,
        input_2_effect: e2,
        input_6_effect: e6,
    }
}

fn first_reply() -> Vec<u8> {
    status_reply(10, 0x00, 0x00, 0x35, 0x35, 0x35)
}

fn first_status() -> Status {
    decoded(10, 0x00, 0x00, 0x35, 0x35, 0x35)
}

fn second_reply() -> Vec<u8> {
    status_reply(42, 0x04, 0x00, 0x16, 0x35, 0x14)
}

fn second_status() -> Status {
    decoded(42, 0x04, 0x00, 0x16, 0x35, 0x14)
}

/// Apply one action through a broker with one subscriber and check the
/// frames on the wire and the one published snapshot.
fn run_action(action: &str, op_reply: Vec<u8>, expected_frame: Vec<u8>) {
    let script = vec![first_reply(), op_reply, second_reply()];
    let transport = ScriptedTransport::new(script);
    let mut broker = StateBroker::new(Serial::new(transport), 8);

    let id = broker.subscribe().unwrap();
    assert_eq!(id, 0);

    let published = broker.apply(action).unwrap();
    assert_eq!(published, second_status());

    // the subscriber saw the initial snapshot, then exactly one publish
    assert_eq!(broker.next_notification(id), Some(first_status()));
    assert_eq!(broker.next_notification(id), Some(second_status()));
    assert_eq!(broker.next_notification(id), None);

    // the wire carried: one status for the subscription, the command, one
    // status re-read; nothing was interleaved
    let t = &broker.controller.transport;
    assert_eq!(t.frames_written(), 3);
    assert_eq!(t.frame_written(0), &vec![0x34]);
    assert_eq!(t.frame_written(1), &expected_frame);
    assert_eq!(t.frame_written(2), &vec![0x34]);
    assert!(!t.was_interleaved());
}

#[test]
fn apply_volume_up() {
    run_action("volume_up", vec![0x00], vec![0x08]);
}

#[test]
fn apply_volume_down() {
    run_action("volume_down", vec![0x00], vec![0x09]);
}

#[test]
fn apply_turn_on() {
    run_action("turn_on", vec![0; 7], vec![0x11, 0x11, 0x14, 0x39, 0x38, 0x30, 0x39]);
}

#[test]
fn apply_turn_off() {
    run_action("turn_off", vec![0; 3], vec![0x30, 0x37, 0x36]);
}

#[test]
fn apply_effect_3d() {
    run_action("effect_3d", vec![0x14], vec![0x14]);
}

#[test]
fn apply_effect_2_1() {
    run_action("effect_2_1", vec![0x16], vec![0x16]);
}

#[test]
fn apply_effect_4_1() {
    run_action("effect_4_1", vec![0x15], vec![0x15]);
}

#[test]
fn apply_effect_disabled() {
    run_action("effect_disabled", vec![0x35], vec![0x35]);
}

#[test]
fn apply_select_input_3_5mm() {
    run_action(
        "select_input_3_5mm",
        vec![0x09, 0x02, 0x35, 0x08],
        vec![0x09, 0x02, 0x35, 0x08],
    );
}

#[test]
fn apply_select_input_rca() {
    run_action(
        "select_input_rca",
        vec![0x09, 0x05, 0x35, 0x08],
        vec![0x09, 0x05, 0x35, 0x08],
    );
}

#[test]
fn apply_mute_is_refused_without_io() {
    let transport = ScriptedTransport::new(vec![first_reply()]);
    let mut broker = StateBroker::new(Serial::new(transport), 8);
    let id = broker.subscribe().unwrap();

    assert_eq!(broker.apply("mute"), Err(AmpError::UnsupportedOperation));

    assert_eq!(broker.controller.transport.frames_written(), 1);
    assert_eq!(broker.next_notification(id), Some(first_status()));
    assert_eq!(broker.next_notification(id), None);
}

#[test]
fn apply_unknown_action_is_refused_without_io() {
    let transport = ScriptedTransport::new(vec![first_reply()]);
    let mut broker = StateBroker::new(Serial::new(transport), 8);
    let id = broker.subscribe().unwrap();

    assert_eq!(broker.apply("pause"), Err(AmpError::UnknownAction));
    assert_eq!(broker.apply(""), Err(AmpError::UnknownAction));

    // no transport work beyond the subscription, and no publish
    assert_eq!(broker.controller.transport.frames_written(), 1);
    assert_eq!(broker.controller.transport.reads_made(), 1);
    assert_eq!(broker.next_notification(id), Some(first_status()));
    assert_eq!(broker.next_notification(id), None);
}

#[test]
fn cached_status_is_idempotent_and_quiet() {
    let transport = ScriptedTransport::new(vec![first_reply()]);
    let mut serial = Serial::new(transport);

    let fresh = serial.status().unwrap();
    assert_eq!(serial.transport.reads_made(), 1);
    assert_eq!(serial.transport.frames_written(), 1);

    let a = serial.cached_status().unwrap();
    let b = serial.cached_status().unwrap();
    assert_eq!(a, fresh);
    assert_eq!(a, b);

    // the second (and first) cached read performed zero transport work
    assert_eq!(serial.transport.reads_made(), 1);
    assert_eq!(serial.transport.frames_written(), 1);
}

#[test]
fn applies_never_interleave_frames() {
    let script = vec![
        first_reply(),
        vec![0x00],
        second_reply(),
        vec![0x00],
        first_reply(),
        vec![0x14],
        second_reply(),
    ];
    let transport = ScriptedTransport::new(script);
    let mut broker = StateBroker::new(Serial::new(transport), 8);

    broker.subscribe().unwrap();
    broker.apply("volume_up").unwrap();
    broker.apply("volume_down").unwrap();
    broker.apply("effect_3d").unwrap();

    assert!(!broker.controller.transport.was_interleaved());
    assert_eq!(broker.controller.transport.frames_written(), 7);
}

#[test]
fn a_second_write_before_the_read_is_a_fault() {
    let mut t = ScriptedTransport::new(vec![vec![0x00], vec![0x00]]);
    t.write(&vec![0x08]).unwrap();
    assert_eq!(t.write(&vec![0x09]), Err(AmpError::TransportShortWrite));
    assert!(t.was_interleaved());
}

#[test]
fn header_mismatch_fails_and_keeps_the_cache() {
    let mut bad = first_reply();
    bad[0] = 0xAB;
    let transport = ScriptedTransport::new(vec![first_reply(), bad]);
    let mut serial = Serial::new(transport);

    let good = serial.status().unwrap();
    assert_eq!(serial.status(), Err(AmpError::ProtocolUnexpectedHeader));

    // the prior snapshot is still served, with no new round trip
    assert_eq!(serial.transport.frames_written(), 2);
    assert_eq!(serial.cached_status(), Ok(good));
    assert_eq!(serial.transport.frames_written(), 2);
}

#[test]
fn late_subscriber_gets_the_cache_without_io() {
    let transport = ScriptedTransport::new(vec![first_reply()]);
    let mut broker = StateBroker::new(Serial::new(transport), 8);

    broker.controller.status().unwrap();
    assert_eq!(broker.controller.transport.frames_written(), 1);

    let id = broker.subscribe().unwrap();

    // served from the cache: no new transport round trip
    assert_eq!(broker.controller.transport.frames_written(), 1);
    assert_eq!(broker.controller.transport.reads_made(), 1);
    assert_eq!(broker.next_notification(id), Some(first_status()));
    assert_eq!(broker.next_notification(id), None);
}

#[test]
fn first_subscriber_triggers_one_status_read() {
    let transport = ScriptedTransport::new(vec![first_reply()]);
    let mut broker = StateBroker::new(Serial::new(transport), 8);

    let id = broker.subscribe().unwrap();
    assert_eq!(broker.subscriber_count(), 1);
    assert_eq!(broker.controller.transport.frames_written(), 1);
    assert_eq!(broker.next_notification(id), Some(first_status()));
}

#[test]
fn failed_subscription_registers_nobody() {
    let transport = ScriptedTransport::new(vec![]);
    let mut broker = StateBroker::new(Serial::new(transport), 8);

    assert_eq!(broker.subscribe(), Err(AmpError::TransportTimeout));
    assert_eq!(broker.subscriber_count(), 0);
}

#[test]
fn a_failed_mutation_publishes_nothing() {
    // the effect echo comes back wrong
    let transport = ScriptedTransport::new(vec![first_reply(), vec![0x99]]);
    let mut broker = StateBroker::new(Serial::new(transport), 8);
    let id = broker.subscribe().unwrap();

    assert_eq!(broker.apply("effect_3d"), Err(AmpError::ProtocolUnexpectedEcho));

    assert_eq!(broker.next_notification(id), Some(first_status()));
    assert_eq!(broker.next_notification(id), None);
    assert_eq!(broker.controller.cache, Some(first_status()));
}

#[test]
fn a_stalled_transport_times_out() {
    let transport = ScriptedTransport::new(vec![]);
    let mut serial = Serial::new(transport);
    assert_eq!(serial.volume_up(), Err(AmpError::TransportTimeout));
}

#[test]
fn configuration_reset_needs_the_fixed_ack() {
    let ack = vec![0xAA, 0xFF, 0x01, 0x8A, 0x76, 0x36];
    let transport = ScriptedTransport::new(vec![ack]);
    let mut serial = Serial::new(transport);
    assert_eq!(serial.configuration_reset(), Ok(()));

    let wrong = vec![0xAA, 0xFF, 0x01, 0x8A, 0x76, 0x37];
    let transport = ScriptedTransport::new(vec![wrong]);
    let mut serial = Serial::new(transport);
    assert_eq!(serial.configuration_reset(), Err(AmpError::ProtocolUnexpectedEcho));
}

#[test]
fn reset_idle_timeout_expects_its_echo() {
    let transport = ScriptedTransport::new(vec![vec![0x30]]);
    let mut serial = Serial::new(transport);
    assert_eq!(serial.reset_idle_timeout(), Ok(()));
    assert_eq!(serial.transport.frame_written(0), &vec![0x30]);
}

#[test]
fn mute_exchanges_no_bytes() {
    let transport = ScriptedTransport::new(vec![]);
    let mut serial = Serial::new(transport);
    assert_eq!(serial.mute(), Err(AmpError::UnsupportedOperation));
    assert_eq!(serial.transport.frames_written(), 0);
}

#[test]
fn a_slow_subscriber_keeps_only_the_newest_snapshots() {
    let script = vec![
        first_reply(),
        vec![0x00],
        second_reply(),
        vec![0x00],
        first_reply(),
    ];
    let transport = ScriptedTransport::new(script);
    let mut broker = StateBroker::new(Serial::new(transport), 1);
    let id = broker.subscribe().unwrap();

    broker.apply("volume_up").unwrap();
    broker.apply("volume_up").unwrap();

    // bound 1, drop-oldest: only the newest snapshot is left
    assert_eq!(broker.next_notification(id), Some(first_status()));
    assert_eq!(broker.next_notification(id), None);
}

#[test]
fn raw_write_and_read() {
    let transport = ScriptedTransport::new(vec![vec![0x55]]);
    let mut serial = Serial::new(transport);
    serial.write(&vec![0x08]).unwrap();
    assert_eq!(serial.read(1), Ok(vec![0x55]));
}

#[test]
fn get_serial_primes_the_cache() {
    let transport = ScriptedTransport::new(vec![first_reply()]);
    let mut serial = get_serial(Some(transport)).unwrap();
    assert_eq!(serial.transport.frames_written(), 1);
    assert_eq!(serial.cached_status(), Ok(first_status()));
    assert_eq!(serial.transport.frames_written(), 1);
}

#[test]
fn get_serial_without_a_port() {
    assert!(get_serial::<ScriptedTransport>(None).is_none());
}
