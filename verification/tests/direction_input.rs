use snake_core::Direction;
use snake_core::KeySet;
use snake_core::direction::resolve_direction;

fn no_keys() -> KeySet {
    KeySet { left: false, down: false, up: false, right: false }
}

#[test]
fn opposite_pairs() {
    assert_eq!(Direction::Left.opposite(), Direction::Right);
    assert_eq!(Direction::Right.opposite(), Direction::Left);
    assert_eq!(Direction::Up.opposite(), Direction::Down);
    assert_eq!(Direction::Down.opposite(), Direction::Up);
}

#[test]
fn opposite_twice_is_identity() {
    for d in [Direction::Left, Direction::Up, Direction::Right, Direction::Down] {
        assert_eq!(d.opposite().opposite(), d);
    }
}

#[test]
fn no_key_keeps_facing() {
    for d in [Direction::Left, Direction::Up, Direction::Right, Direction::Down] {
        assert_eq!(resolve_direction(no_keys(), d), d);
    }
}

#[test]
fn priority_left_beats_down() {
    let keys = KeySet { left: true, down: true, up: false, right: false };
    assert_eq!(resolve_direction(keys, Direction::Up), Direction::Left);
}

#[test]
fn priority_down_beats_up_and_right() {
    let keys = KeySet { left: false, down: true, up: true, right: true };
    assert_eq!(resolve_direction(keys, Direction::Left), Direction::Down);
}

#[test]
fn priority_up_beats_right() {
    let keys = KeySet { left: false, down: false, up: true, right: true };
    assert_eq!(resolve_direction(keys, Direction::Left), Direction::Up);
}

#[test]
fn reversal_is_ignored() {
    let down = KeySet { left: false, down: true, up: false, right: false };
    assert_eq!(resolve_direction(down, Direction::Up), Direction::Up);
    let right = KeySet { left: false, down: false, up: false, right: true };
    assert_eq!(resolve_direction(right, Direction::Left), Direction::Left);
    let up = KeySet { left: false, down: false, up: true, right: false };
    assert_eq!(resolve_direction(up, Direction::Down), Direction::Down);
    let left = KeySet { left: true, down: false, up: false, right: false };
    assert_eq!(resolve_direction(left, Direction::Right), Direction::Right);
}

#[test]
fn turn_is_taken() {
    let left = KeySet { left: true, down: false, up: false, right: false };
    assert_eq!(resolve_direction(left, Direction::Up), Direction::Left);
    let down = KeySet { left: false, down: true, up: false, right: false };
    assert_eq!(resolve_direction(down, Direction::Left), Direction::Down);
}
