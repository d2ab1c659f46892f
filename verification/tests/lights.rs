use peckboard::{KeyPosition, LedState, LedWrite, PeckLEDs};

#[test]
fn next_walks_the_cycle_in_order() {
    let mut state = LedState::Off;
    state.next();
    assert_eq!(state, LedState::Blue);
    state.next();
    assert_eq!(state, LedState::Red);
    state.next();
    assert_eq!(state, LedState::Green);
    state.next();
    assert_eq!(state, LedState::All);
    state.next();
    assert_eq!(state, LedState::Off);
}

#[test]
fn next_hands_back_the_light_it_moved() {
    let mut state = LedState::Off;
    let handed = state.next();
    assert_eq!(*handed, LedState::Blue);
    handed.next();
    assert_eq!(state, LedState::Red);
}

#[test]
fn five_steps_close_the_cycle_from_every_state() {
    for start in [LedState::Off, LedState::Blue, LedState::Red, LedState::Green, LedState::All] {
        let mut state = start;
        for step in 1..5 {
            state.next();
            assert_ne!(state, start, "back at the start after {} steps", step);
        }
        state.next();
        assert_eq!(state, start);
    }
}

#[test]
fn as_value_gives_the_levels_of_each_state() {
    assert_eq!(LedState::Off.as_value(), [0, 0, 0]);
    assert_eq!(LedState::Red.as_value(), [1, 0, 0]);
    assert_eq!(LedState::Blue.as_value(), [0, 1, 0]);
    assert_eq!(LedState::Green.as_value(), [0, 0, 1]);
    assert_eq!(LedState::All.as_value(), [1, 1, 1]);
}

#[test]
fn new_lights_are_all_off() {
    let leds = PeckLEDs::new();
    assert_eq!(leds.peck_position, [LedState::Off, LedState::Off, LedState::Off]);
    assert_eq!(leds.current_state(KeyPosition::Right), Some(LedState::Off));
    assert_eq!(leds.current_state(KeyPosition::Center), Some(LedState::Off));
    assert_eq!(leds.current_state(KeyPosition::Left), Some(LedState::Off));
    assert_eq!(leds.current_state(KeyPosition::NoKey), None);
}

#[test]
fn each_light_has_its_own_lines() {
    assert_eq!(PeckLEDs::lines(KeyPosition::Right), Some([0, 3, 6]));
    assert_eq!(PeckLEDs::lines(KeyPosition::Center), Some([1, 4, 7]));
    assert_eq!(PeckLEDs::lines(KeyPosition::Left), Some([2, 5, 8]));
    assert_eq!(PeckLEDs::lines(KeyPosition::NoKey), None);
    assert_eq!(PeckLEDs::RIGHT_LINES, [0, 3, 6]);
    assert_eq!(PeckLEDs::CENTER_LINES, [1, 4, 7]);
    assert_eq!(PeckLEDs::LEFT_LINES, [2, 5, 8]);
}

#[test]
fn a_peck_at_no_key_changes_nothing() {
    let mut leds = PeckLEDs::new();
    leds.pecked(KeyPosition::Left);
    leds.pecked(KeyPosition::Center);
    leds.pecked(KeyPosition::Center);
    let before = leds;
    assert_eq!(leds.pecked(KeyPosition::NoKey), None);
    assert_eq!(leds, before);
    assert_eq!(leds.peck_position, [LedState::Off, LedState::Red, LedState::Blue]);
}

#[test]
fn a_peck_moves_one_light_and_asks_for_its_write() {
    let mut leds = PeckLEDs::new();
    let write = leds.pecked(KeyPosition::Right);
    assert_eq!(
        write,
        Some(LedWrite { position: KeyPosition::Right, lines: [0, 3, 6], values: [0, 1, 0] })
    );
    assert_eq!(leds.peck_position, [LedState::Blue, LedState::Off, LedState::Off]);

    let write = leds.pecked(KeyPosition::Left);
    assert_eq!(
        write,
        Some(LedWrite { position: KeyPosition::Left, lines: [2, 5, 8], values: [0, 1, 0] })
    );
    assert_eq!(leds.peck_position, [LedState::Blue, LedState::Off, LedState::Blue]);

    let write = leds.pecked(KeyPosition::Left);
    assert_eq!(
        write,
        Some(LedWrite { position: KeyPosition::Left, lines: [2, 5, 8], values: [1, 0, 0] })
    );
    assert_eq!(leds.peck_position, [LedState::Blue, LedState::Off, LedState::Red]);
}

#[test]
fn five_pecks_at_one_position_restore_the_lights() {
    for position in [KeyPosition::Right, KeyPosition::Center, KeyPosition::Left, KeyPosition::NoKey] {
        let mut leds = PeckLEDs::new();
        leds.pecked(KeyPosition::Right);
        leds.pecked(KeyPosition::Left);
        leds.pecked(KeyPosition::Left);
        let before = leds;
        for _ in 0..5 {
            leds.pecked(position);
        }
        assert_eq!(leds, before);
    }
}

#[test]
fn five_center_pecks_write_each_colour_in_turn() {
    let mut leds = PeckLEDs::new();
    let expected: [([u8; 3], LedState); 5] = [
        ([0, 1, 0], LedState::Blue),
        ([1, 0, 0], LedState::Red),
        ([0, 0, 1], LedState::Green),
        ([1, 1, 1], LedState::All),
        ([0, 0, 0], LedState::Off),
    ];
    for (values, state) in expected {
        let write = leds.pecked(KeyPosition::Center).unwrap();
        assert_eq!(write.position, KeyPosition::Center);
        assert_eq!(write.lines, [1, 4, 7]);
        assert_eq!(write.values, values);
        assert_eq!(leds.current_state(KeyPosition::Center), Some(state));
        assert_eq!(leds.current_state(KeyPosition::Right), Some(LedState::Off));
        assert_eq!(leds.current_state(KeyPosition::Left), Some(LedState::Off));
    }
}
