use ble_alarm::session::{next, SessionAction, SessionState, WorkOutcome};
use ble_alarm::shared::SharedAlarmState;
use ble_alarm::slot::AlarmSlot;
use ble_alarm::wire::encode_be32;

const TPS: u64 = 16_000_000;

fn installed() -> SharedAlarmState {
    let mut st = SharedAlarmState::new(TPS);
    st.install(AlarmSlot::new());
    st
}

fn read(st: &SharedAlarmState, now: u64) -> ([u8; 4], usize) {
    let mut buf = [0xAAu8; 4];
    let n = st.ble_receive_read(0, &mut buf, now);
    (buf, n)
}

/// Runs the counter from `from` to `to` in steps of `step`, calling the
/// handler whenever the interrupt is requested; returns the ticks it ran at.
fn run_counter(st: &mut SharedAlarmState, from: u64, to: u64, step: u64) -> Vec<u64> {
    let mut fired = Vec::new();
    let mut now = from;
    while now <= to {
        st.counter_edge(now);
        if st.alarm_requested() {
            st.alarm_handler();
            fired.push(now);
        }
        now += step;
    }
    fired
}

#[test]
fn install_masks_interrupt_and_zeroes_target() {
    let mut slot = AlarmSlot::new();
    slot.enable_interrupt(true);
    let mut st = SharedAlarmState::new(TPS);
    assert_eq!(st.target_tick(), None);
    st.install(slot);
    assert_eq!(st.target_tick(), Some(0));
    let s = st.slot().unwrap();
    assert!(!s.interrupt_enabled);
    assert!(s.armed);
    assert_eq!(s.target, 0);
    assert_eq!(st.ticks_per_second(), TPS);
}

#[test]
fn write_five_seconds_then_read_and_fire() {
    let mut st = installed();
    st.ble_receive_write(0, &[0x00, 0x00, 0x00, 0x05], 1_000_000);
    assert_eq!(st.target_tick(), Some(1_000_000 + 80_000_000));
    assert_eq!(read(&st, 41_000_000), ([0, 0, 0, 2], 4));
    st.counter_edge(80_999_999);
    assert!(!st.alarm_requested());
    st.counter_edge(81_000_000);
    assert!(st.alarm_requested());
    st.alarm_handler();
    assert!(!st.alarm_requested());
    let s = st.slot().unwrap();
    assert!(!s.interrupt_enabled);
    assert!(!s.pending);
    assert_eq!(st.target_tick(), Some(81_000_000));
    assert_eq!(read(&st, 81_000_000), ([0, 0, 0, 0], 4));
    assert_eq!(read(&st, 500_000_000), ([0, 0, 0, 0], 4));
}

#[test]
fn rewrite_before_fire_fires_once() {
    let mut st = installed();
    let t0: u64 = 1_000_000;
    st.ble_receive_write(0, &[0x00, 0x00, 0x00, 0x0A], t0);
    let mut fired = run_counter(&mut st, t0, t0 + 2 * TPS - 1, TPS / 4);
    assert!(fired.is_empty());
    let t1 = t0 + 2 * TPS;
    st.ble_receive_write(0, &[0x00, 0x00, 0x00, 0x03], t1);
    fired.extend(run_counter(&mut st, t1, t0 + 20 * TPS, TPS / 4));
    assert_eq!(fired, vec![t1 + 3 * TPS]);
}

#[test]
fn one_byte_write_changes_nothing() {
    let mut st = installed();
    st.ble_receive_write(0, &[0, 0, 0, 7], 0);
    let before_target = st.target_tick();
    let before_slot = st.slot();
    st.ble_receive_write(0, &[0x00], 5 * TPS);
    assert_eq!(st.target_tick(), before_target);
    assert_eq!(st.slot(), before_slot);
    assert_eq!(read(&st, 2 * TPS), ([0, 0, 0, 5], 4));
}

#[test]
fn malformed_writes_of_any_length_change_nothing() {
    let mut st = installed();
    st.ble_receive_write(0, &[0, 0, 1, 0], 3);
    let before_target = st.target_tick();
    let before_slot = st.slot();
    for len in [0usize, 1, 2, 3, 5, 6, 8, 20] {
        let data = vec![0x11u8; len];
        st.ble_receive_write(0, &data, 1_000);
        assert_eq!(st.target_tick(), before_target);
        assert_eq!(st.slot(), before_slot);
    }
}

#[test]
fn zero_seconds_fires_on_next_edge() {
    let mut st = installed();
    let now: u64 = 7_000_000;
    st.ble_receive_write(0, &[0, 0, 0, 0], now);
    assert_eq!(st.target_tick(), Some(now));
    assert!(!st.alarm_requested());
    st.counter_edge(now);
    assert!(st.alarm_requested());
    assert_eq!(read(&st, now), ([0, 0, 0, 0], 4));
}

#[test]
fn disconnect_keeps_alarm_armed() {
    let mut st = installed();
    st.ble_receive_write(0, &[0, 0, 0, 30], 0);
    let (state, action) = next(SessionState::Advertising, WorkOutcome::DidWork);
    assert_eq!((state, action), (SessionState::Connected, SessionAction::Pump));
    let (state, action) = next(state, WorkOutcome::GotDisconnected);
    assert_eq!((state, action), (SessionState::Teardown, SessionAction::EndSession));
    let (state, action) = next(state, WorkOutcome::DidWork);
    assert_eq!((state, action), (SessionState::Advertising, SessionAction::Advertise));
    let s = st.slot().unwrap();
    assert!(s.armed && s.interrupt_enabled);
    assert_eq!(read(&st, 10 * TPS), ([0, 0, 0, 20], 4));
}

#[test]
fn largest_payload_does_not_overflow() {
    let mut st = installed();
    let now: u64 = 1_000_000;
    st.ble_receive_write(0, &[0xFF, 0xFF, 0xFF, 0xFF], now);
    assert_eq!(st.target_tick(), Some(now + 4_294_967_295 * TPS));
    assert_eq!(read(&st, now), ([0xFF, 0xFF, 0xFF, 0xFF], 4));
}

#[test]
fn target_past_counter_range_saturates() {
    let mut st = SharedAlarmState::new(u64::MAX / 2);
    st.install(AlarmSlot::new());
    st.ble_receive_write(0, &[0, 0, 0, 3], 10);
    assert_eq!(st.target_tick(), Some(u64::MAX));
    let mut st = SharedAlarmState::new(10);
    st.install(AlarmSlot::new());
    st.ble_receive_write(0, &[0, 0, 0, 1], u64::MAX - 5);
    assert_eq!(st.target_tick(), Some(u64::MAX));
    st.ble_receive_write(0, &[0, 0, 0, 1], u64::MAX - 10);
    assert_eq!(st.target_tick(), Some(u64::MAX));
    st.ble_receive_write(0, &[0, 0, 0, 1], u64::MAX - 11);
    assert_eq!(st.target_tick(), Some(u64::MAX - 1));
}

#[test]
fn remaining_count_clamps_at_u32_max() {
    let mut st = SharedAlarmState::new(1);
    st.install(AlarmSlot::new());
    st.ble_receive_write(0, &[0xFF, 0xFF, 0xFF, 0xFF], 1_000_000_000_000);
    assert_eq!(st.remaining_secs(0), Some(u32::MAX));
    assert_eq!(st.remaining_secs(1_000_000_000_000), Some(u32::MAX));
    assert_eq!(st.remaining_secs(1_000_000_000_001), Some(u32::MAX - 1));
}

#[test]
fn read_before_install_or_at_offset_returns_nothing() {
    let st = SharedAlarmState::new(TPS);
    let mut buf = [9u8; 6];
    assert_eq!(st.ble_receive_read(0, &mut buf, 5), 0);
    assert_eq!(buf, [9u8; 6]);
    assert_eq!(st.remaining_secs(5), None);
    let st = installed();
    assert_eq!(st.ble_receive_read(1, &mut buf, 5), 0);
    assert_eq!(buf, [9u8; 6]);
    assert_eq!(st.ble_receive_read(0, &mut buf, 5), 4);
    assert_eq!(buf, [0, 0, 0, 0, 9, 9]);
}

#[test]
fn write_then_read_within_a_second_gives_s_or_one_less() {
    for s in [0u32, 1, 2, 59, 3_600, 1 << 20, (1u32 << 31) - 1] {
        let mut st = installed();
        let t: u64 = 123_456;
        st.ble_receive_write(0, &encode_be32(s), t);
        for d in [0u64, 1, TPS / 2, TPS - 1, TPS] {
            let r = st.remaining_secs(t + d).unwrap();
            assert!(r == s || r + 1 == s, "s = {s}, d = {d}, r = {r}");
        }
    }
}

#[test]
fn countdown_never_grows_between_reads() {
    let mut st = installed();
    st.ble_receive_write(0, &[0, 0, 0, 9], 0);
    let mut prev = st.remaining_secs(0).unwrap();
    assert_eq!(prev, 9);
    let mut now: u64 = 0;
    while now < 12 * TPS {
        now += TPS / 3;
        st.counter_edge(now);
        if st.alarm_requested() {
            st.alarm_handler();
        }
        let r = st.remaining_secs(now).unwrap();
        assert!(r <= prev);
        prev = r;
    }
    assert_eq!(prev, 0);
}

#[test]
fn reads_stay_zero_after_target() {
    let mut st = installed();
    st.ble_receive_write(0, &[0, 0, 0, 1], 0);
    for now in [TPS, TPS + 1, 2 * TPS, 1_000 * TPS, u64::MAX] {
        st.counter_edge(now);
        st.alarm_handler();
        assert_eq!(read(&st, now), ([0, 0, 0, 0], 4));
    }
}

#[test]
fn last_write_wins_whatever_came_first() {
    for first in [[0u8, 0, 0, 0], [0, 0, 0, 1], [0, 0, 0, 50], [0xFF, 0xFF, 0xFF, 0xFF]] {
        let mut st = installed();
        st.ble_receive_write(0, &first, 1_000);
        st.counter_edge(1_000);
        if st.alarm_requested() {
            st.alarm_handler();
        }
        st.ble_receive_write(0, &[0, 0, 0, 4], 5_000);
        let mut only = installed();
        only.ble_receive_write(0, &[0, 0, 0, 4], 5_000);
        assert_eq!(st.slot(), only.slot());
        assert_eq!(st.target_tick(), Some(5_000 + 4 * TPS));
        let fired = run_counter(&mut st, 5_000, 5_000 + 10 * TPS, TPS / 8);
        assert_eq!(fired, vec![5_000 + 4 * TPS]);
    }
}

#[test]
fn handler_on_empty_cell_changes_nothing() {
    let mut st = SharedAlarmState::new(TPS);
    st.alarm_handler();
    assert_eq!(st.target_tick(), None);
    assert_eq!(st.slot(), None);
    assert!(!st.alarm_requested());
}

#[test]
fn interleaved_events_keep_target_in_comparator() {
    let mut st = installed();
    let payloads: [&[u8]; 5] = [&[0, 0, 0, 2], &[1], &[0, 0, 0, 0], &[0, 0, 1, 0, 0], &[0, 0, 0, 5]];
    let mut now: u64 = 0;
    for i in 0..40u64 {
        now += TPS / 2;
        match i % 4 {
            0 => st.ble_receive_write(0, payloads[(i / 4) as usize % 5], now),
            1 => st.counter_edge(now),
            2 => st.alarm_handler(),
            _ => {
                let _ = read(&st, now);
            }
        }
        let s = st.slot().unwrap();
        assert_eq!(Some(s.target), st.target_tick());
        assert!(!s.interrupt_enabled || s.armed || s.pending);
        if i % 4 == 2 {
            assert!(!s.interrupt_enabled && !s.pending);
        }
    }
}

#[test]
fn faults_do_not_end_a_session() {
    assert_eq!(
        next(SessionState::Connected, WorkOutcome::Failed),
        (SessionState::Connected, SessionAction::ReportAndPump)
    );
    assert_eq!(
        next(SessionState::Advertising, WorkOutcome::Failed),
        (SessionState::Advertising, SessionAction::ReportAndPump)
    );
    assert_eq!(
        next(SessionState::Advertising, WorkOutcome::GotDisconnected),
        (SessionState::Teardown, SessionAction::EndSession)
    );
    assert_eq!(
        next(SessionState::Teardown, WorkOutcome::Failed),
        (SessionState::Advertising, SessionAction::Advertise)
    );
}

#[test]
fn slot_latches_once_and_reset_disarms() {
    let mut s = AlarmSlot::new();
    s.set_target(100);
    s.edge(99);
    assert!(!s.pending);
    s.edge(100);
    assert!(s.pending && !s.armed);
    assert!(!s.interrupt_requested());
    s.enable_interrupt(true);
    assert!(s.interrupt_requested());
    s.clear_pending();
    s.edge(200);
    assert!(!s.pending);
    s.set_target(300);
    s.reset();
    s.edge(400);
    assert!(!s.pending && !s.armed);
    assert_eq!(s.target, 300);
}
