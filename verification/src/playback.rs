//! Per-character playback state and the per-tick pipeline: movement intake,
//! identifier transition, frame advancement, and the hand-off to the
//! renderer.

use vstd::prelude::*;

use crate::atlas::{AtlasStore, FrameRect, resolve_rect};
use crate::classifier::{classify, classify_spec, MoveVector};
use crate::registry::{AnimationConfig, AnimationRegistry, AnimationType, Extent};

verus! {

/// Speed a character walks at while movement input is held, in world units
/// per second. Only its sign matters to the classifier.
pub const WALK_SPEED: i64 = 200;

/// The mutable animation state of one character. Exactly one pipeline pass
/// owns and mutates it each tick. Times are in milliseconds.
#[derive(Clone, Copy, Debug, PartialEq, Eq, Structural)]
pub struct PlayerEntity {
    /// Last movement direction with any input; kept when input stops, so
    /// the character goes on facing where it last walked.
    pub direction: MoveVector,
    /// Current speed: `WALK_SPEED` while input is held, zero otherwise.
    pub speed: i64,
    pub current_animation: AnimationType,
    /// Frame index, always in `[0, animation_config.frame_count)`.
    pub current_animation_frame: u32,
    /// Time accumulated toward the next frame, always in
    /// `[0, animation_config.frame_time)`.
    pub animation_timer: u64,
    /// Frame index handed to the atlas rect resolver; kept equal to
    /// `current_animation_frame`.
    pub atlas_index: u32,
    /// Horizontal mirror: true for left-derived side facings, since only
    /// right-facing side art exists.
    pub flip_x: bool,
    /// Copy of the registry's configuration for `current_animation`,
    /// refreshed atomically on every identifier change.
    pub animation_config: AnimationConfig,
}

/// What the renderer consumes each tick: a texture, the sub-rectangle of it
/// to display, the world-space size to draw at, and the mirror flag.
#[derive(Clone, Copy, Debug)]
pub struct SpriteState {
    pub image: u64,
    pub custom_size: Extent,
    pub rect: Option<FrameRect>,
    pub flip_x: bool,
}

impl PlayerEntity {
    /// The playback invariant: the configuration is usable, the frame index
    /// and the timer are inside their configured bounds, and the atlas
    /// index tracks the frame index.
    pub open spec fn wf(self) -> bool {
        &&& self.animation_config.wf()
        &&& self.current_animation_frame < self.animation_config.frame_count
        &&& self.animation_timer < self.animation_config.frame_time
        &&& self.atlas_index == self.current_animation_frame
    }

    /// The cached configuration agrees with the registry's entry for the
    /// current identifier.
    pub open spec fn in_sync(self, registry: AnimationRegistry) -> bool {
        registry.spec_get(self.current_animation) == Some(self.animation_config)
    }

    /// A freshly spawned character: the given identifier and configuration,
    /// first frame, timer at zero, unmirrored, standing still and facing
    /// the viewer.
    pub fn new(initial_animation: AnimationType, config: AnimationConfig) -> (r: Self)
        requires
            config.wf(),
        ensures
            r.wf(),
            r.current_animation == initial_animation,
            r.animation_config == config,
            r.current_animation_frame == 0,
            r.animation_timer == 0,
            r.atlas_index == 0,
            r.speed == 0,
            r.flip_x == false,
            r.direction == (MoveVector { x: 0i64, y: -1i64 }),
    {
        PlayerEntity {
            direction: MoveVector { x: 0, y: -1 },
            speed: 0,
            current_animation: initial_animation,
            current_animation_frame: 0,
            animation_timer: 0,
            atlas_index: 0,
            flip_x: false,
            animation_config: config,
        }
    }
}

/// Movement intake: any input away from the origin sets the direction and
/// walking speed; the origin ("no input") keeps the previous direction and
/// only stops the character.
pub open spec fn movement_model(s: PlayerEntity, input: MoveVector) -> PlayerEntity {
    if input.x == 0 && input.y == 0 {
        PlayerEntity { speed: 0, ..s }
    } else {
        PlayerEntity { direction: input, speed: WALK_SPEED as i64, ..s }
    }
}

/// Identifier transition: with no classification everything is retained;
/// with one, the mirror flag follows the classifier, and if the identifier
/// changed, the frame index and timer reset to zero and the configuration
/// is copied from the registry, atomically with the identifier.
pub open spec fn transition_model(
    s: PlayerEntity,
    classification: Option<(AnimationType, bool)>,
    registry: AnimationRegistry,
) -> PlayerEntity
    recommends
        classification matches Some((t, m)) ==> registry.contains(t),
{
    match classification {
        None => s,
        Some((t, mirror)) => {
            if t == s.current_animation {
                PlayerEntity { flip_x: mirror, ..s }
            } else {
                PlayerEntity {
                    current_animation: t,
                    current_animation_frame: 0,
                    animation_timer: 0,
                    atlas_index: 0,
                    flip_x: mirror,
                    animation_config: registry.spec_get(t).unwrap(),
                    ..s
                }
            }
        },
    }
}

/// The frame index after `delta` more milliseconds: the whole frame periods
/// contained in the accumulated time all advance the index, wrapping at the
/// frame count.
pub open spec fn advanced_frame(s: PlayerEntity, delta: int) -> int {
    (s.current_animation_frame + (s.animation_timer + delta) / (
    s.animation_config.frame_time as int)) % (s.animation_config.frame_count as int)
}

/// The leftover time after `delta` more milliseconds: what remains of the
/// accumulated time below one frame period.
pub open spec fn advanced_timer(s: PlayerEntity, delta: int) -> int {
    (s.animation_timer + delta) % (s.animation_config.frame_time as int)
}

/// Frame advancement leaves everything but the frame index, the atlas
/// index and the timer untouched.
pub open spec fn advance_model(s: PlayerEntity, delta: int) -> PlayerEntity {
    PlayerEntity {
        current_animation_frame: advanced_frame(s, delta) as u32,
        animation_timer: advanced_timer(s, delta) as u64,
        atlas_index: advanced_frame(s, delta) as u32,
        ..s
    }
}

impl PlayerEntity {
    /// Movement intake, exactly `movement_model`.
    pub fn update_movement(&mut self, input: MoveVector)
        ensures
            *final(self) == movement_model(*old(self), input),
            old(self).wf() ==> final(self).wf(),
    {
        if input.x == 0 && input.y == 0 {
            self.speed = 0;
        } else {
            self.direction = input;
            self.speed = WALK_SPEED;
        }
    }

    /// Apply one classifier verdict, exactly `transition_model`. Whenever
    /// the identifier changes, the frame index and the timer are zero
    /// immediately afterwards, and the configuration is the registry's
    /// entry for the new identifier.
    pub fn apply_transition(
        &mut self,
        classification: Option<(AnimationType, bool)>,
        registry: &AnimationRegistry,
    )
        requires
            old(self).wf(),
            registry.wf(),
            classification matches Some((t, m)) ==> registry.contains(t),
        ensures
            *final(self) == transition_model(*old(self), classification, *registry),
            final(self).wf(),
            final(self).current_animation != old(self).current_animation
                ==> final(self).current_animation_frame == 0 && final(self).animation_timer == 0,
            old(self).in_sync(*registry) ==> final(self).in_sync(*registry),
    {
        match classification {
            None => {},
            Some((t, mirror)) => {
                self.flip_x = mirror;
                if t != self.current_animation {
                    let looked_up = registry.lookup(t);
                    let config = looked_up.unwrap();
                    self.current_animation = t;
                    self.current_animation_frame = 0;
                    self.animation_timer = 0;
                    self.atlas_index = 0;
                    self.animation_config = config;
                }
            },
        }
    }

    /// Advance the frame timer by `delta` milliseconds, exactly
    /// `advance_model`: while the timer holds at least one frame period,
    /// subtract the period and step the frame index, wrapping at the frame
    /// count. A tick longer than several periods therefore advances several
    /// frames instead of dropping the surplus time.
    pub fn advance(&mut self, delta: u64)
        requires
            old(self).wf(),
            old(self).animation_timer + delta <= u64::MAX,
        ensures
            *final(self) == advance_model(*old(self), delta as int),
            final(self).wf(),
    {
        let frame_time = self.animation_config.frame_time;
        let frame_count = self.animation_config.frame_count;
        let ghost init_frame: int = self.current_animation_frame as int;
        let ghost total: int = self.animation_timer + delta;
        let mut timer: u64 = self.animation_timer + delta;
        let mut frame: u32 = self.current_animation_frame;
        let ghost mut steps: int = 0;
        proof {
            vstd::arithmetic::div_mod::lemma_small_mod(init_frame as nat, frame_count as nat);
        }
        while timer >= frame_time
            invariant
                frame_time > 0,
                frame_count > 0,
                frame < frame_count,
                0 <= init_frame,
                steps >= 0,
                timer + steps * frame_time == total,
                frame == (init_frame + steps) % (frame_count as int),
            decreases timer,
        {
            timer = timer - frame_time;
            frame = (frame + 1) % frame_count;
            proof {
                let m = frame_count as int;
                let prev = (init_frame + steps) % m;
                assert(0 <= prev < m) by {
                    vstd::arithmetic::div_mod::lemma_mod_bound(init_frame + steps, m);
                }
                if prev + 1 < m {
                    vstd::arithmetic::div_mod::lemma_small_mod((prev + 1) as nat, m as nat);
                } else {
                    vstd::arithmetic::div_mod::lemma_mod_self_0(m);
                }
                vstd::arithmetic::div_mod::lemma_add_mod_noop(init_frame + steps, 1, m);
                if m == 1 {
                    vstd::arithmetic::div_mod::lemma_mod_self_0(m);
                } else {
                    vstd::arithmetic::div_mod::lemma_small_mod(1nat, m as nat);
                }
                assert(frame == (init_frame + steps + 1) % m);
                steps = steps + 1;
                assert((steps - 1) * frame_time + frame_time == steps * frame_time)
                    by (nonlinear_arith);
            }
        }
        proof {
            vstd::arithmetic::div_mod::lemma_fundamental_div_mod_converse(
                total,
                frame_time as int,
                steps,
                timer as int,
            );
        }
        self.animation_timer = timer;
        self.current_animation_frame = frame;
        self.atlas_index = frame;
    }
}

/// One whole tick of the pipeline on the playback state: movement intake,
/// classification of the held direction and speed, identifier transition,
/// then frame advancement.
pub open spec fn tick_model(
    s: PlayerEntity,
    input: MoveVector,
    delta: int,
    dead_zone: int,
    registry: AnimationRegistry,
) -> PlayerEntity {
    let moved = movement_model(s, input);
    let classification = classify_spec(
        moved.direction.x as int,
        moved.direction.y as int,
        moved.speed as int,
        dead_zone,
    );
    let transitioned = transition_model(moved, classification, registry);
    advance_model(transitioned, delta)
}

impl PlayerEntity {
    /// Run one tick: take the movement input, classify the held direction
    /// and speed, apply the identifier transition against the registry, and
    /// advance the frame timer by `delta` milliseconds. The new state is
    /// exactly `tick_model` of the old one; the frame index and timer stay
    /// inside their configured bounds, and a state whose cached
    /// configuration agrees with the registry keeps that agreement.
    pub fn tick(
        &mut self,
        input: MoveVector,
        delta: u64,
        dead_zone: i64,
        registry: &AnimationRegistry,
    )
        requires
            old(self).wf(),
            0 <= dead_zone,
            registry.wf(),
            registry.is_complete(),
            old(self).animation_timer + delta <= u64::MAX,
        ensures
            *final(self) == tick_model(
                *old(self),
                input,
                delta as int,
                dead_zone as int,
                *registry,
            ),
            final(self).wf(),
            final(self).current_animation_frame < final(self).animation_config.frame_count,
            final(self).animation_timer < final(self).animation_config.frame_time,
            old(self).in_sync(*registry) ==> final(self).in_sync(*registry),
    {
        self.update_movement(input);
        let classification = classify(self.direction, self.speed, dead_zone);
        proof {
            match classification {
                Some((t, _)) => {
                    assert(registry.contains(t));
                },
                None => {},
            }
        }
        self.apply_transition(classification, registry);
        self.advance(delta);
    }
}

/// The sub-rectangle the renderer should display after a tick: the one at
/// the atlas index of the current layout, or the previously displayed one
/// when the index and the layout disagree (a degraded tick, never a crash).
pub open spec fn resolved_rect(
    s: PlayerEntity,
    atlases: AtlasStore,
    previous: Option<FrameRect>,
) -> Option<FrameRect> {
    match atlases.spec_layout(s.animation_config.layout_handle as int) {
        Some(frames) => if s.atlas_index < frames.len() {
            Some(frames[s.atlas_index as int])
        } else {
            previous
        },
        None => previous,
    }
}

impl PlayerEntity {
    /// Refresh what the renderer consumes: the current texture, display
    /// size and mirror flag, and the sub-rectangle for the current frame.
    /// If the atlas layout does not cover the frame index, the previous
    /// sub-rectangle stays in place.
    pub fn refresh_sprite(&self, sprite: &mut SpriteState, atlases: &AtlasStore)
        ensures
            final(sprite).image == self.animation_config.texture_handle,
            final(sprite).custom_size == self.animation_config.size,
            final(sprite).flip_x == self.flip_x,
            final(sprite).rect == resolved_rect(*self, *atlases, old(sprite).rect),
    {
        sprite.image = self.animation_config.texture_handle;
        sprite.custom_size = self.animation_config.size;
        sprite.flip_x = self.flip_x;
        match atlases.get(self.animation_config.layout_handle) {
            Some(layout) => {
                match resolve_rect(layout, self.atlas_index) {
                    Some(rect) => {
                        sprite.rect = Some(rect);
                    },
                    None => {},
                }
            },
            None => {},
        }
    }
}

} // verus!
