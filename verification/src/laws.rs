//! Laws that relate several pipeline steps: properties the per-function
//! contracts imply, written out and proved so they stand on their own.

use vstd::prelude::*;

use crate::classifier::classify_spec;
use crate::playback::{advance_model, transition_model, PlayerEntity};
use crate::registry::{AnimationRegistry, AnimationType};

verus! {

/// The playback state after `k` frame advances of `delta` milliseconds
/// each, with no identifier transition in between.
pub open spec fn advanced_times(s: PlayerEntity, delta: int, k: nat) -> PlayerEntity
    decreases k,
{
    if k == 0 {
        s
    } else {
        advance_model(advanced_times(s, delta, (k - 1) as nat), delta)
    }
}

/// Monotonic cycling: holding a constant identifier, `k` ticks of `delta`
/// milliseconds each, starting from the first frame with an empty timer,
/// land on frame `((k * delta) / frame_time) % frame_count` with
/// `(k * delta) % frame_time` on the timer — the carry loop never drops
/// surplus time, even when one tick spans several frame periods.
pub proof fn lemma_monotonic_cycling(s: PlayerEntity, delta: int, k: nat)
    requires
        s.wf(),
        s.current_animation_frame == 0,
        s.animation_timer == 0,
        delta >= 0,
    ensures
        advanced_times(s, delta, k).current_animation_frame == ((k * delta) / (
        s.animation_config.frame_time as int)) % (s.animation_config.frame_count as int),
        advanced_times(s, delta, k).animation_timer == (k * delta) % (
        s.animation_config.frame_time as int),
        advanced_times(s, delta, k).atlas_index == advanced_times(
            s,
            delta,
            k,
        ).current_animation_frame,
        advanced_times(s, delta, k).current_animation == s.current_animation,
        advanced_times(s, delta, k).animation_config == s.animation_config,
        advanced_times(s, delta, k).flip_x == s.flip_x,
    decreases k,
{
    let ft = s.animation_config.frame_time as int;
    let fc = s.animation_config.frame_count as int;
    if k == 0 {
        assert(0int * delta == 0) by (nonlinear_arith);
        vstd::arithmetic::div_mod::lemma_div_of0(ft);
        vstd::arithmetic::div_mod::lemma_small_mod(0nat, fc as nat);
        vstd::arithmetic::div_mod::lemma_small_mod(0nat, ft as nat);
    } else {
        lemma_monotonic_cycling(s, delta, (k - 1) as nat);
        let km1: int = k - 1;
        let q = (km1 * delta) / ft;
        let r = (km1 * delta) % ft;
        assert(km1 * delta >= 0) by (nonlinear_arith)
            requires
                km1 >= 0,
                delta >= 0,
        ;
        assert(q >= 0) by {
            vstd::arithmetic::div_mod::lemma_div_pos_is_pos(km1 * delta, ft);
        }
        assert(0 <= r < ft) by {
            vstd::arithmetic::div_mod::lemma_mod_bound(km1 * delta, ft);
        }
        assert(0 <= q % fc < fc) by {
            vstd::arithmetic::div_mod::lemma_mod_bound(q, fc);
        }
        // One more tick accumulates exactly `delta` more milliseconds.
        assert(k * delta == km1 * delta + delta) by (nonlinear_arith)
            requires
                km1 == k - 1,
        ;
        assert(k * delta == q * ft + (r + delta)) by {
            vstd::arithmetic::div_mod::lemma_fundamental_div_mod(km1 * delta, ft);
        }
        // Split the accumulated time into whole periods and a remainder.
        assert((k * delta) / ft == q + (r + delta) / ft) by {
            vstd::arithmetic::div_mod::lemma_hoist_over_denominator(r + delta, q, ft as nat);
        }
        assert((k * delta) % ft == (r + delta) % ft) by {
            vstd::arithmetic::div_mod::lemma_mod_multiples_vanish(q, r + delta, ft);
            assert(ft * q == q * ft) by (nonlinear_arith);
        }
        // The wrapped frame index adds up the same way modulo the count.
        assert((q % fc + (r + delta) / ft) % fc == (q + (r + delta) / ft) % fc) by {
            vstd::arithmetic::div_mod::lemma_add_mod_noop_right((r + delta) / ft, q, fc);
        }
        vstd::arithmetic::div_mod::lemma_mod_bound(q + (r + delta) / ft, fc);
        vstd::arithmetic::div_mod::lemma_mod_bound(r + delta, ft);
    }
}

/// Idle retention: a movement vector at the origin classifies as "no
/// transition" whatever the speed, and applying that verdict leaves the
/// whole playback state — identifier, mirror flag, frame and timer —
/// unchanged. A character that receives no direction keeps facing where it
/// last faced.
/// Mirroring only ever applies to the side and side-back families: whenever
/// the classifier asks for a horizontal mirror, the identifier beside it is
/// a side or side-back one. Front and back facings are never mirrored.
pub proof fn lemma_mirror_only_side_families(x: int, y: int, speed: int, dead_zone: int)
    ensures
        classify_spec(x, y, speed, dead_zone) matches Some((t, mirror)) ==> (mirror ==> t
            == AnimationType::PlayerIdleRight || t == AnimationType::PlayerWalkRight || t
            == AnimationType::PlayerIdleRightBack || t == AnimationType::PlayerWalkRightBack),
{
}

pub proof fn lemma_idle_retention(
    s: PlayerEntity,
    speed: int,
    dead_zone: int,
    registry: AnimationRegistry,
)
    requires
        dead_zone >= 0,
    ensures
        classify_spec(0, 0, speed, dead_zone) is None,
        transition_model(s, classify_spec(0, 0, speed, dead_zone), registry) == s,
{
}

} // verus!
