use sim::{Clocked, Combinational, Register, Signal, SimError};

#[test]
fn sample_after_drive_returns_value() {
    let mut w: Signal<u32> = Signal::new();
    w.drive(7);
    assert_eq!(w.sample(), Ok(7));
    w.drive(0);
    assert_eq!(w.sample(), Ok(0));
    w.drive(u32::MAX);
    assert_eq!(w.sample(), Ok(u32::MAX));
}

#[test]
fn fresh_wire_sample_is_unset() {
    let w: Signal<u8> = Signal::new();
    assert_eq!(w.sample(), Err(SimError::UnsetRead));
    assert!(!w.has_value());
    let d: Signal<i64> = Signal::default();
    assert_eq!(d.sample(), Err(SimError::UnsetRead));
    assert!(!d.has_value());
}

#[test]
fn drive_overwrites_and_has_value() {
    let mut w: Signal<bool> = Signal::new();
    w.drive(true);
    assert!(w.has_value());
    w.drive(false);
    assert!(w.has_value());
    assert_eq!(w.sample(), Ok(false));
}

#[test]
fn cell_samples_initial_value_despite_drives() {
    let mut c: Register<usize> = Register::init(5);
    assert_eq!(c.sample(), 5);
    c.drive(9);
    assert_eq!(c.sample(), 5);
    c.drive(11);
    assert_eq!(c.sample(), 5);
}

#[test]
fn edge_commits_last_staged_value() {
    let mut c: Register<usize> = Register::init(0);
    c.drive(3);
    c.drive(4);
    assert_eq!(c.clock_tick(), Ok(()));
    assert_eq!(c.sample(), 4);
    assert_eq!(c.clock_tick(), Ok(()));
    assert_eq!(c.sample(), 4);
}

#[test]
fn edge_through_protocol_commits() {
    let mut c: Register<u8> = Register::init(1);
    c.drive(2);
    assert_eq!(c.sample(), 1);
    assert_eq!(c.sim_clock_edge(), Ok(()));
    assert_eq!(c.sample(), 2);
    assert_eq!(c.sim_comb(), Ok(()));
    assert_eq!(c.sample(), 2);
}

#[test]
fn edge_without_staged_value_is_unset() {
    let mut d: Register<u16> = Register::init(8);
    assert_eq!(d.sim_clock_edge(), Err(SimError::UnsetRead));
    assert_eq!(d.sample(), 8);
    let mut c: Register<u16> = Register::init(8);
    assert!(!c.can_clock_edge());
    assert_eq!(c.clock_tick(), Err(SimError::UnsetRead));
    assert_eq!(c.sample(), 8);
    c.drive(9);
    assert!(c.can_clock_edge());
    assert_eq!(c.sample(), 8);
}
