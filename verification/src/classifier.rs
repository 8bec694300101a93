//! Directional classifier: maps a movement vector and a speed scalar to an
//! animation identifier and a horizontal-mirror flag.

use vstd::prelude::*;

use crate::registry::AnimationType;

verus! {

/// A 2D movement vector with integer components. The x axis points right,
/// the y axis points away from the viewer (up on screen).
#[derive(Clone, Copy, Debug, PartialEq, Eq, Structural)]
pub struct MoveVector {
    pub x: i64,
    pub y: i64,
}

/// The sign of one vector component once the dead zone is applied:
/// components whose magnitude does not exceed the dead zone count as zero.
#[derive(Clone, Copy, Debug, PartialEq, Eq, Structural)]
pub enum AxisSign {
    Negative,
    Zero,
    Positive,
}

/// Sign of a component under a dead zone: values in `[-dead_zone, dead_zone]`
/// compare as zero, so a small stick drift does not change the facing.
pub open spec fn sign_of(v: int, dead_zone: int) -> AxisSign {
    if v > dead_zone {
        AxisSign::Positive
    } else if v < -dead_zone {
        AxisSign::Negative
    } else {
        AxisSign::Zero
    }
}

pub fn axis_sign(v: i64, dead_zone: i64) -> (s: AxisSign)
    requires
        0 <= dead_zone,
    ensures
        s == sign_of(v as int, dead_zone as int),
{
    if v > dead_zone {
        AxisSign::Positive
    } else if v < -dead_zone {
        AxisSign::Negative
    } else {
        AxisSign::Zero
    }
}

/// What one classification pass decides. `None` means the vector lay inside
/// the dead zone on both axes: the character keeps its previous identifier
/// and mirror flag, so stopping never resets the facing.
pub open spec fn classify_spec(x: int, y: int, speed: int, dead_zone: int) -> Option<
    (AnimationType, bool),
> {
    let walking = speed > 0;
    match (sign_of(x, dead_zone), sign_of(y, dead_zone)) {
        (AxisSign::Zero, AxisSign::Zero) => None,
        // Away from the viewer: the back family, never mirrored.
        (AxisSign::Zero, AxisSign::Positive) => Some(
            (
                if walking {
                    AnimationType::PlayerWalkBack
                } else {
                    AnimationType::PlayerIdleBack
                },
                false,
            ),
        ),
        // Toward the viewer: the front family, never mirrored.
        (AxisSign::Zero, AxisSign::Negative) => Some(
            (
                if walking {
                    AnimationType::PlayerWalkForward
                } else {
                    AnimationType::PlayerIdleForward
                },
                false,
            ),
        ),
        // Right and down-right collapse into the side family, unmirrored.
        (AxisSign::Positive, AxisSign::Zero) | (AxisSign::Positive, AxisSign::Negative) => Some(
            (
                if walking {
                    AnimationType::PlayerWalkRight
                } else {
                    AnimationType::PlayerIdleRight
                },
                false,
            ),
        ),
        // Left and down-left: the same side family, mirrored horizontally.
        (AxisSign::Negative, AxisSign::Zero) | (AxisSign::Negative, AxisSign::Negative) => Some(
            (
                if walking {
                    AnimationType::PlayerWalkRight
                } else {
                    AnimationType::PlayerIdleRight
                },
                true,
            ),
        ),
        // Up-right: the side-back family, unmirrored.
        (AxisSign::Positive, AxisSign::Positive) => Some(
            (
                if walking {
                    AnimationType::PlayerWalkRightBack
                } else {
                    AnimationType::PlayerIdleRightBack
                },
                false,
            ),
        ),
        // Up-left: the side-back family, mirrored.
        (AxisSign::Negative, AxisSign::Positive) => Some(
            (
                if walking {
                    AnimationType::PlayerWalkRightBack
                } else {
                    AnimationType::PlayerIdleRightBack
                },
                true,
            ),
        ),
    }
}

/// Classify a movement vector and speed into an animation identifier and a
/// mirror flag. The result is fixed entirely by `classify_spec` applied to
/// the inputs, so identical inputs always classify identically. A speed
/// that is zero or negative selects the idle family: no directional family
/// exists for negative speed, so it is clamped to "not walking" rather
/// than propagated.
pub fn classify(direction: MoveVector, speed: i64, dead_zone: i64) -> (r: Option<
    (AnimationType, bool),
>)
    requires
        0 <= dead_zone,
    ensures
        r == classify_spec(direction.x as int, direction.y as int, speed as int, dead_zone as int),
{
    let walking = speed > 0;
    match (axis_sign(direction.x, dead_zone), axis_sign(direction.y, dead_zone)) {
        (AxisSign::Zero, AxisSign::Zero) => None,
        (AxisSign::Zero, AxisSign::Positive) => Some(
            (
                if walking {
                    AnimationType::PlayerWalkBack
                } else {
                    AnimationType::PlayerIdleBack
                },
                false,
            ),
        ),
        (AxisSign::Zero, AxisSign::Negative) => Some(
            (
                if walking {
                    AnimationType::PlayerWalkForward
                } else {
                    AnimationType::PlayerIdleForward
                },
                false,
            ),
        ),
        (AxisSign::Positive, AxisSign::Zero) | (AxisSign::Positive, AxisSign::Negative) => Some(
            (
                if walking {
                    AnimationType::PlayerWalkRight
                } else {
                    AnimationType::PlayerIdleRight
                },
                false,
            ),
        ),
        (AxisSign::Negative, AxisSign::Zero) | (AxisSign::Negative, AxisSign::Negative) => Some(
            (
                if walking {
                    AnimationType::PlayerWalkRight
                } else {
                    AnimationType::PlayerIdleRight
                },
                true,
            ),
        ),
        (AxisSign::Positive, AxisSign::Positive) => Some(
            (
                if walking {
                    AnimationType::PlayerWalkRightBack
                } else {
                    AnimationType::PlayerIdleRightBack
                },
                false,
            ),
        ),
        (AxisSign::Negative, AxisSign::Positive) => Some(
            (
                if walking {
                    AnimationType::PlayerWalkRightBack
                } else {
                    AnimationType::PlayerIdleRightBack
                },
                true,
            ),
        ),
    }
}

} // verus!
