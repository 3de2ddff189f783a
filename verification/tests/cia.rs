use rust64::c64::cia::{CIA, CIATimer, CIACallbackAction, TimerState};

#[test]
fn new_timer_is_stopped() {
    let t = CIATimer::new(true);
    assert!(t.state == TimerState::STOP);
    assert_eq!(t.value, 0xFFFF);
    assert_eq!(t.latch, 1);
}

#[test]
fn stopped_timer_does_not_count() {
    let mut t = CIATimer::new(false);
    let mut icr = 0u8;
    t.update(&mut icr, false);
    assert_eq!(t.value, 0xFFFF);
    assert_eq!(icr, 0);
}

#[test]
fn cia_registers_read_zero_and_accept_writes() {
    let mut c = CIA::new_shared();
    assert_eq!(c.read_register(0xDC00), 0);
    let mut action = CIACallbackAction::CIA_NONE;
    assert!(c.write_register(0xDC0D, 0x81, &mut action));
    assert_eq!(c.key_matrix, [0xFF; 8]);
}

#[test]
fn counting_timer_underflows_and_reloads() {
    let mut t = CIATimer::new(true);
    t.state = TimerState::COUNT;
    t.is_cnt_phi2 = true;
    t.value = 2;
    t.latch = 5;
    let mut icr = 0u8;
    t.count(&mut icr, false);
    assert_eq!(t.value, 1);
    assert!(!t.underflow);
    t.count(&mut icr, false);
    assert_eq!(t.value, 5);
    assert!(t.underflow);
    assert!(t.state == TimerState::LOAD_COUNT);
    assert_eq!(icr, 0x01);
}

#[test]
fn one_shot_timer_stops_on_underflow() {
    let mut t = CIATimer::new(false);
    t.state = TimerState::COUNT;
    t.is_cnt_phi2 = true;
    t.ctrl = 0x09;
    t.value = 1;
    t.latch = 7;
    let mut icr = 0u8;
    t.count(&mut icr, false);
    assert_eq!(t.value, 7);
    assert!(t.state == TimerState::LOAD_STOP);
    assert_eq!(t.ctrl, 0x08);
    assert_eq!(icr, 0x02);
}

#[test]
fn cia_update_runs_both_timers() {
    let mut c = CIA::new_shared();
    c.update();
    assert!(c.timer_a.state == TimerState::STOP);
    assert!(c.timer_b.state == TimerState::STOP);
    c.reset();
    assert_eq!(c.icr, 0);
}

#[test]
fn timer_b_counts_only_cycles_where_timer_a_underflows() {
    let mut c = CIA::new_shared();
    c.timer_b.state = TimerState::COUNT;
    c.timer_b.cnt_ta_underflow = true;
    c.timer_b.is_cnt_phi2 = false;
    c.timer_b.value = 10;
    // timer A stopped, with an underflow left from earlier: B does not count
    c.timer_a.underflow = true;
    c.update();
    assert_eq!(c.timer_b.value, 10);
    assert!(!c.timer_a.underflow);
    // timer A counting phi2 from 1 underflows in this cycle: B counts once
    c.timer_a.state = TimerState::COUNT;
    c.timer_a.is_cnt_phi2 = true;
    c.timer_a.value = 1;
    c.update();
    assert!(c.timer_a.underflow);
    assert_eq!(c.timer_b.value, 9);
}
