use sitira::binary_input::{BinaryInput, InputType};

#[test]
fn active_high_reads_the_level() {
    let b = BinaryInput::new(InputType::ActiveHigh);
    assert!(b.is_input_high(true));
    assert!(!b.is_input_high(false));
    assert!(b.is_input_low(false));
    assert!(!b.is_input_low(true));
    assert!(b.get_input_state(true));
    assert!(!b.get_input_state(false));
}

#[test]
fn active_low_inverts_the_level() {
    let b = BinaryInput::new(InputType::ActiveLow);
    assert!(b.is_input_high(false));
    assert!(!b.is_input_high(true));
    assert!(b.is_input_low(true));
    assert!(!b.is_input_low(false));
}

#[test]
fn new_input_saves_nothing() {
    let b = BinaryInput::new(InputType::ActiveHigh);
    assert!(!b.get_saved_state());
    assert!(!b.is_saved_state_high());
    assert!(b.is_saved_state_low());
    assert!(!b.is_triggered());
    assert!(!b.is_pressed());
}

#[test]
fn save_state_stores_the_logical_level() {
    let mut b = BinaryInput::new(InputType::ActiveHigh);
    b.save_state(true);
    assert!(b.get_saved_state());
    assert!(b.is_saved_state_high());
    assert!(!b.is_saved_state_low());
    assert!(b.is_pressed());
    b.save_state(false);
    assert!(!b.get_saved_state());
}

#[test]
fn trigger_fires_on_rising_edge_only() {
    let mut b = BinaryInput::new(InputType::ActiveHigh);
    b.save_state(false);
    assert!(!b.is_triggered());
    b.save_state(true);
    assert!(b.is_triggered());
    // Holding the level high is no longer an edge.
    b.save_state(true);
    assert!(!b.is_triggered());
    // A falling edge is not a trigger either.
    b.save_state(false);
    assert!(!b.is_triggered());
}

#[test]
fn trigger_respects_active_low_wiring() {
    let mut b = BinaryInput::new(InputType::ActiveLow);
    b.save_state(true);
    assert!(!b.is_triggered());
    // The electrical level falling is the logical rising edge.
    b.save_state(false);
    assert!(b.is_triggered());
    b.save_state(false);
    assert!(!b.is_triggered());
}
