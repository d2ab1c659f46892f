use peckboard::keys::{ACTIVE, POSITIONS};
use peckboard::{KeyPosition, PeckKeys};

#[test]
fn the_key_bank_sits_on_its_wired_lines() {
    let keys = PeckKeys::new();
    assert_eq!(keys.lines, [13, 14, 15]);
    assert_eq!(keys.ir, [9, 10, 11]);
    assert_eq!(PeckKeys::KEY_LINES, [13, 14, 15]);
    assert_eq!(PeckKeys::IR, [9, 10, 11]);
    assert_eq!(ACTIVE, 1);
    assert_eq!(POSITIONS, 3);
}

#[test]
fn no_active_line_resolves_to_no_key() {
    let keys = PeckKeys::new();
    assert_eq!(keys.resolve(&[0, 0, 0]), KeyPosition::NoKey);
    assert_eq!(keys.resolve(&[]), KeyPosition::NoKey);
    assert_eq!(keys.resolve(&[0]), KeyPosition::NoKey);
}

#[test]
fn a_single_active_line_resolves_to_its_position() {
    let keys = PeckKeys::new();
    assert_eq!(keys.resolve(&[1, 0, 0]), KeyPosition::Right);
    assert_eq!(keys.resolve(&[0, 1, 0]), KeyPosition::Center);
    assert_eq!(keys.resolve(&[0, 0, 1]), KeyPosition::Left);
}

#[test]
fn the_first_of_several_active_lines_wins() {
    let keys = PeckKeys::new();
    assert_eq!(keys.resolve(&[1, 1, 0]), KeyPosition::Right);
    assert_eq!(keys.resolve(&[1, 0, 1]), KeyPosition::Right);
    assert_eq!(keys.resolve(&[1, 1, 1]), KeyPosition::Right);
    assert_eq!(keys.resolve(&[0, 1, 1]), KeyPosition::Center);
}

#[test]
fn every_reading_of_three_levels_resolves_to_its_lowest_active_line() {
    let keys = PeckKeys::new();
    for bits in 0u8..8 {
        let levels = [bits & 1, (bits >> 1) & 1, (bits >> 2) & 1];
        let expected = match levels.iter().position(|&level| level == 1) {
            Some(0) => KeyPosition::Right,
            Some(1) => KeyPosition::Center,
            Some(2) => KeyPosition::Left,
            _ => KeyPosition::NoKey,
        };
        assert_eq!(keys.resolve(&levels), expected, "levels {:?}", levels);
    }
}

#[test]
fn only_the_active_level_counts_as_pressed() {
    let keys = PeckKeys::new();
    assert_eq!(keys.resolve(&[2, 0, 0]), KeyPosition::NoKey);
    assert_eq!(keys.resolve(&[255, 1, 0]), KeyPosition::Center);
}

#[test]
fn levels_past_the_third_line_belong_to_no_key() {
    let keys = PeckKeys::new();
    assert_eq!(keys.resolve(&[0, 0, 0, 1]), KeyPosition::NoKey);
    assert_eq!(keys.resolve(&[0, 0, 1, 1]), KeyPosition::Left);
    assert_eq!(keys.resolve(&[0, 1]), KeyPosition::Center);
}

#[test]
fn positions_and_indices_correspond() {
    assert_eq!(KeyPosition::Right.index(), Some(0));
    assert_eq!(KeyPosition::Center.index(), Some(1));
    assert_eq!(KeyPosition::Left.index(), Some(2));
    assert_eq!(KeyPosition::NoKey.index(), None);
    assert_eq!(KeyPosition::from_index(0), KeyPosition::Right);
    assert_eq!(KeyPosition::from_index(1), KeyPosition::Center);
    assert_eq!(KeyPosition::from_index(2), KeyPosition::Left);
    assert_eq!(KeyPosition::from_index(3), KeyPosition::NoKey);
    assert_eq!(KeyPosition::from_index(usize::MAX), KeyPosition::NoKey);
}
