use pylontech_mqtt_adapter::model::{ModuleState, StackState};

fn mv(volts: f64) -> i16 {
    (volts * 1000.0).round() as i16
}

fn dk(celsius: f64) -> i16 {
    (celsius * 10.0 + 2731.0).round() as i16
}

fn da(amps: f64) -> i16 {
    (amps * 10.0).round() as i16
}

fn mah(ampere_hours: f64) -> u32 {
    (ampere_hours * 1000.0).round() as u32
}

#[test]
fn stack_state_uses_global_cell_span_and_module_disbalance() {
    let first = ModuleState::new(
        2,
        vec![mv(3.31), mv(3.30)],
        dk(24.0),
        vec![dk(24.0)],
        da(-4.0),
        (50.0_f64 * 1000.0) as u16,
        mah(40.0),
        mah(50.0),
        100,
    )
    .unwrap();
    let second = ModuleState::new(
        3,
        vec![mv(3.29), mv(3.28)],
        dk(25.0),
        vec![dk(25.0)],
        da(-3.0),
        (49.8_f64 * 1000.0).round() as u16,
        mah(39.0),
        mah(50.0),
        101,
    )
    .unwrap();

    let stack = StackState::from_modules(&[first, second]).unwrap();

    assert_eq!(stack.max_module_id, 2);
    assert!((f64::from(stack.max_module_disbalance_mv) / 1000.0 - 0.01).abs() < 1e-9);
    assert!((f64::from(stack.stack_disbalance_mv) / 1000.0 - 0.03).abs() < 1e-9);
}

#[test]
fn module_state_derives_disbalance_and_refuses_bad_readings() {
    let state = ModuleState::new(4, vec![3300, 3350, 3290], 2981, vec![], 12, 52000, 1, 2, 3).unwrap();
    assert_eq!(state.disbalance_mv, 60);
    let error = ModuleState::new(4, vec![], 2981, vec![], 12, 52000, 1, 2, 3).unwrap_err();
    assert_eq!(error.message(), "invalid state: module 4 had no cell voltages");
    let error = ModuleState::new(7, vec![1], 2981, vec![], 12, 52000, 1, 0, 3).unwrap_err();
    assert_eq!(error.message(), "invalid state: module 7 total capacity must be positive");
}

#[test]
fn widest_module_is_the_first_of_equals() {
    let a = ModuleState::new(5, vec![3300, 3310], 0, vec![], 0, 0, 0, 1, 0).unwrap();
    let b = ModuleState::new(6, vec![3200, 3210], 0, vec![], 0, 0, 0, 1, 0).unwrap();
    let c = ModuleState::new(7, vec![3400, 3405], 0, vec![], 0, 0, 0, 1, 0).unwrap();
    let stack = StackState::from_modules(&[a, b, c]).unwrap();
    assert_eq!(stack.max_module_id, 5);
    assert_eq!(stack.max_module_disbalance_mv, 10);
    assert_eq!(stack.stack_disbalance_mv, 205);
    assert_eq!(StackState::from_modules(&[]).unwrap_err().message(), "invalid state: cannot derive stack state from zero modules");
}

#[test]
fn negative_cell_readings_keep_their_spread() {
    let a = ModuleState::new(1, vec![-32768, 32767], 0, vec![], 0, 0, 0, 1, 0).unwrap();
    assert_eq!(a.disbalance_mv, 65535);
    let stack = StackState::from_modules(&[a]).unwrap();
    assert_eq!(stack.stack_disbalance_mv, 65535);
}

#[test]
fn stack_spread_covers_every_module_spread() {
    let a = ModuleState::new(1, vec![3300, 3390], 0, vec![], 0, 0, 0, 1, 0).unwrap();
    let b = ModuleState::new(2, vec![3320, 3350], 0, vec![], 0, 0, 0, 1, 0).unwrap();
    let spreads = [a.disbalance_mv, b.disbalance_mv];
    let stack = StackState::from_modules(&[a, b]).unwrap();
    assert_eq!(stack.stack_disbalance_mv, 90);
    for spread in spreads {
        assert!(spread <= stack.stack_disbalance_mv);
    }
}

#[test]
fn module_without_cells_is_refused_by_the_stack() {
    let good = ModuleState::new(1, vec![3300, 3310], 0, vec![], 0, 0, 0, 1, 0).unwrap();
    let mut empty = ModuleState::new(2, vec![3300], 0, vec![], 0, 0, 0, 1, 0).unwrap();
    empty.cell_voltages_mv.clear();
    let error = StackState::from_modules(&[good, empty]).unwrap_err();
    assert_eq!(error.message(), "invalid state: module state without cell voltages");
}
