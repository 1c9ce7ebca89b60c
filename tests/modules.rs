use sim::{Clocked, Combinational, MyAdder, MyAdderReg, MyParametrizedAdder, SimError};

#[test]
fn combinational_adder_scenario() {
    let mut a = MyAdder::new();
    a.drive_x(1);
    a.drive_y(0);
    assert_eq!(a.sim_comb(), Ok(()));
    assert_eq!(a.sample_output(), Ok(1));
    a.drive_x(1);
    a.drive_y(1);
    assert_eq!(a.sim_comb(), Ok(()));
    assert_eq!(a.sample_output(), Ok(2));
    a.drive_x(1);
    a.drive_y(2);
    assert_eq!(a.sim_comb(), Ok(()));
    assert_eq!(a.sample_output(), Ok(3));
    assert_eq!(a.sim_clock_edge(), Ok(()));
    assert_eq!(a.sample_output(), Ok(3));
}

#[test]
fn registered_adder_scenario() {
    let mut a = MyAdderReg::new(0);
    a.drive_x(1);
    a.drive_y(0);
    assert_eq!(a.sim_comb(), Ok(()));
    assert_eq!(a.sim_clock_edge(), Ok(()));
    assert_eq!(a.sample_output(), Ok(1));
    a.drive_x(1);
    a.drive_y(1);
    assert_eq!(a.sim_comb(), Ok(()));
    assert_eq!(a.sim_clock_edge(), Ok(()));
    assert_eq!(a.sample_output(), Ok(2));
}

#[test]
fn registered_adder_output_lags_one_edge() {
    let mut a = MyAdderReg::new(0);
    a.drive_x(1);
    a.drive_y(0);
    assert_eq!(a.sim_comb(), Ok(()));
    assert_eq!(a.sample_output(), Ok(0));
    assert_eq!(a.s.sample(), 0);
    assert_eq!(a.sim_clock_edge(), Ok(()));
    assert_eq!(a.s.sample(), 1);
    assert_eq!(a.sample_output(), Ok(1));
    a.drive_y(5);
    assert_eq!(a.sim_comb(), Ok(()));
    assert_eq!(a.sample_output(), Ok(1));
    assert_eq!(a.sim_clock_edge(), Ok(()));
    assert_eq!(a.sample_output(), Ok(6));
}

#[test]
fn fresh_module_output_is_unset() {
    let a = MyAdder::new();
    assert_eq!(a.sample_output(), Err(SimError::UnsetRead));
    let mut r = MyAdderReg::new(0);
    assert_eq!(r.sample_output(), Err(SimError::UnsetRead));
    assert!(!r.can_clock_edge());
    assert!(a.can_clock_edge());
    assert_eq!(r.sim_clock_edge(), Err(SimError::UnsetRead));
    assert_eq!(r.sample_output(), Err(SimError::UnsetRead));
    let p: MyParametrizedAdder<usize> = MyParametrizedAdder::new();
    assert_eq!(p.sample_output(), Err(SimError::UnsetRead));
}

#[test]
fn settle_with_undriven_input_is_unset() {
    let mut a = MyAdder::new();
    a.drive_x(4);
    assert_eq!(a.sim_comb(), Err(SimError::UnsetRead));
    assert_eq!(a.sample_output(), Err(SimError::UnsetRead));
    let mut r = MyAdderReg::new(6);
    r.drive_y(4);
    assert_eq!(r.sim_comb(), Err(SimError::UnsetRead));
    assert_eq!(r.sample_output(), Err(SimError::UnsetRead));
    assert_eq!(r.s.sample(), 6);
    assert_eq!(r.sim_clock_edge(), Err(SimError::UnsetRead));
}

#[test]
fn parametrized_adder_runs() {
    let mut p: MyParametrizedAdder<usize> = MyParametrizedAdder::new();
    assert_eq!(p.run(), Err(SimError::UnsetRead));
    p.drive_x(40);
    p.drive_y(2);
    assert_eq!(p.run(), Ok(()));
    assert_eq!(p.sample_output(), Ok(42));
    assert_eq!(p.sim_clock_edge(), Ok(()));
    assert_eq!(p.sample_output(), Ok(42));
}
