use sprite_animation::classifier::{classify, MoveVector};
use sprite_animation::registry::AnimationType;

fn vector(x: i64, y: i64) -> MoveVector {
    MoveVector { x, y }
}

#[test]
fn scenario_up_walks_back() {
    let r = classify(vector(0, 1), 200, 0);
    assert_eq!(r, Some((AnimationType::PlayerWalkBack, false)));
}

#[test]
fn scenario_left_walks_side_mirrored() {
    let r = classify(vector(-1, 0), 200, 0);
    assert_eq!(r, Some((AnimationType::PlayerWalkRight, true)));
}

#[test]
fn down_walks_forward() {
    let r = classify(vector(0, -1), 200, 0);
    assert_eq!(r, Some((AnimationType::PlayerWalkForward, false)));
}

#[test]
fn right_walks_side_unmirrored() {
    let r = classify(vector(1, 0), 200, 0);
    assert_eq!(r, Some((AnimationType::PlayerWalkRight, false)));
}

#[test]
fn down_diagonals_collapse_into_side() {
    assert_eq!(classify(vector(1, -1), 200, 0), Some((AnimationType::PlayerWalkRight, false)));
    assert_eq!(classify(vector(-1, -1), 200, 0), Some((AnimationType::PlayerWalkRight, true)));
}

#[test]
fn up_diagonals_use_side_back() {
    assert_eq!(
        classify(vector(1, 1), 200, 0),
        Some((AnimationType::PlayerWalkRightBack, false))
    );
    assert_eq!(
        classify(vector(-1, 1), 200, 0),
        Some((AnimationType::PlayerWalkRightBack, true))
    );
}

#[test]
fn zero_speed_selects_idle_family() {
    assert_eq!(classify(vector(0, 1), 0, 0), Some((AnimationType::PlayerIdleBack, false)));
    assert_eq!(classify(vector(-1, -1), 0, 0), Some((AnimationType::PlayerIdleRight, true)));
    assert_eq!(
        classify(vector(1, 1), 0, 0),
        Some((AnimationType::PlayerIdleRightBack, false))
    );
}

#[test]
fn negative_speed_clamps_to_idle() {
    assert_eq!(classify(vector(0, 1), -5, 0), Some((AnimationType::PlayerIdleBack, false)));
    assert_eq!(classify(vector(1, 0), -200, 0), Some((AnimationType::PlayerIdleRight, false)));
}

#[test]
fn zero_vector_keeps_previous_state() {
    assert_eq!(classify(vector(0, 0), 0, 0), None);
    assert_eq!(classify(vector(0, 0), 200, 0), None);
    assert_eq!(classify(vector(0, 0), -7, 0), None);
    assert_eq!(classify(vector(0, 0), 200, 50), None);
}

#[test]
fn dead_zone_swallows_small_components() {
    assert_eq!(
        classify(vector(30, 1000), 200, 50),
        Some((AnimationType::PlayerWalkBack, false))
    );
    assert_eq!(classify(vector(30, -20), 200, 50), None);
    assert_eq!(classify(vector(51, 0), 200, 50), Some((AnimationType::PlayerWalkRight, false)));
}

#[test]
fn classification_is_deterministic() {
    let inputs: Vec<(i64, i64, i64)> = vec![
        (0, 1, 200),
        (-1, 0, 200),
        (3, -9, 0),
        (0, 0, 200),
        (-4, 4, -1),
    ];
    for (x, y, speed) in inputs {
        let first = classify(vector(x, y), speed, 10);
        let second = classify(vector(x, y), speed, 10);
        assert_eq!(first, second);
    }
}
