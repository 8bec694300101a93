//! Animation identifiers, playback configurations, and the registry that
//! maps every identifier to its configuration. The registry is built once
//! at startup and read-only afterwards.

use vstd::prelude::*;

use crate::atlas::{grid_frame, AtlasLayout, AtlasStore, FrameRect};

verus! {

/// The closed set of directional animation states: one idle and one walking
/// variant for each of the four facings (toward the viewer, away from the
/// viewer, side, and side-back). Side art exists only facing right; left
/// facings reuse it through the mirror flag.
#[derive(Clone, Copy, Debug, PartialEq, Eq, Structural)]
pub enum AnimationType {
    PlayerIdleForward,
    PlayerIdleBack,
    PlayerIdleRight,
    PlayerIdleRightBack,
    PlayerWalkForward,
    PlayerWalkBack,
    PlayerWalkRight,
    PlayerWalkRightBack,
}

impl Default for AnimationType {
    /// A freshly spawned character idles facing the viewer.
    fn default() -> (r: Self)
        ensures
            r == AnimationType::PlayerIdleForward,
    {
        AnimationType::PlayerIdleForward
    }
}

/// A width and height in whole units: pixels for atlas cells, world units
/// for display sizes.
#[derive(Clone, Copy, Debug, PartialEq, Eq, Structural)]
pub struct Extent {
    pub width: u32,
    pub height: u32,
}

/// Playback configuration for one animation: which atlas layout and texture
/// to draw from, how many frames the atlas row holds, how long each frame
/// stays visible (in milliseconds), and the world-space display size.
#[derive(Clone, Copy, Debug, PartialEq, Eq, Structural)]
pub struct AnimationConfig {
    pub layout_handle: usize,
    pub texture_handle: u64,
    pub frame_count: u32,
    pub frame_time: u64,
    pub size: Extent,
}

impl AnimationConfig {
    /// A usable configuration has at least one frame and a positive frame
    /// duration; frame advancement divides by both.
    pub open spec fn wf(self) -> bool {
        &&& self.frame_count > 0
        &&& self.frame_time > 0
    }
}

/// First-match lookup over an association list of animation entries.
pub open spec fn seq_lookup(
    entries: Seq<(AnimationType, AnimationConfig)>,
    t: AnimationType,
) -> Option<AnimationConfig>
    decreases entries.len(),
{
    if entries.len() == 0 {
        None
    } else if entries[0].0 == t {
        Some(entries[0].1)
    } else {
        seq_lookup(entries.drop_first(), t)
    }
}

/// Immutable mapping from animation identifier to configuration. Keys are
/// unique and every stored configuration is well formed; both are kept as
/// an invariant of the construction API.
pub struct AnimationRegistry {
    entries: Vec<(AnimationType, AnimationConfig)>,
}

impl AnimationRegistry {
    /// The configuration registered for `t`, if any.
    pub closed spec fn spec_get(self, t: AnimationType) -> Option<AnimationConfig> {
        seq_lookup(self.entries@, t)
    }

    pub open spec fn contains(self, t: AnimationType) -> bool {
        self.spec_get(t) is Some
    }

    /// Every stored configuration is well formed.
    pub open spec fn wf(self) -> bool {
        forall|t: AnimationType|
            #[trigger] self.spec_get(t) matches Some(c) ==> c.wf()
    }

    /// Every declared identifier has a configuration. Lookups of the
    /// playback pipeline are only meaningful once this holds; an absence
    /// is a construction bug to be caught at startup, never at a tick.
    pub open spec fn is_complete(self) -> bool {
        forall|t: AnimationType| #[trigger] self.contains(t)
    }

    pub fn new() -> (r: Self)
        ensures
            r.wf(),
            forall|t: AnimationType| #[trigger] r.spec_get(t) is None,
    {
        let r = AnimationRegistry { entries: Vec::new() };
        assert forall|t: AnimationType| #[trigger] r.spec_get(t) is None by {
            assert(r.entries@.len() == 0);
        }
        r
    }

    /// Register a configuration for an identifier that has none yet.
    /// All other identifiers keep their entries.
    pub fn insert(&mut self, t: AnimationType, config: AnimationConfig)
        requires
            old(self).wf(),
            !old(self).contains(t),
            config.wf(),
        ensures
            final(self).wf(),
            final(self).spec_get(t) == Some(config),
            forall|u: AnimationType|
                u != t ==> #[trigger] final(self).spec_get(u) == old(self).spec_get(u),
    {
        let ghost pre = self.entries@;
        self.entries.push((t, config));
        proof {
            lemma_seq_lookup_push(pre, t, config, t);
            assert forall|u: AnimationType|
                u != t implies #[trigger] self.spec_get(u) == old(self).spec_get(u) by {
                lemma_seq_lookup_push(pre, t, config, u);
            }
        }
    }

    /// Look an identifier up. Returns `None` exactly when the identifier
    /// was never registered.
    pub fn lookup(&self, t: AnimationType) -> (r: Option<AnimationConfig>)
        ensures
            r == self.spec_get(t),
    {
        let mut i: usize = 0;
        proof {
            assert(self.entries@.skip(0) =~= self.entries@);
        }
        while i < self.entries.len()
            invariant
                i <= self.entries@.len(),
                seq_lookup(self.entries@, t) == seq_lookup(self.entries@.skip(i as int), t),
            decreases self.entries@.len() - i,
        {
            let (key, config) = self.entries[i];
            proof {
                assert(self.entries@.skip(i as int)[0] == self.entries@[i as int]);
                assert(self.entries@.skip(i as int).drop_first() =~= self.entries@.skip(
                    i as int + 1,
                ));
            }
            if key == t {
                return Some(config);
            }
            i = i + 1;
        }
        proof {
            assert(self.entries@.skip(i as int) =~= Seq::empty());
        }
        None
    }

    /// Startup validation: true exactly when every identifier of the closed
    /// enumeration has a configuration.
    pub fn validate_complete(&self) -> (r: bool)
        ensures
            r == self.is_complete(),
    {
        let c1 = self.lookup(AnimationType::PlayerIdleForward).is_some();
        let c2 = self.lookup(AnimationType::PlayerIdleBack).is_some();
        let c3 = self.lookup(AnimationType::PlayerIdleRight).is_some();
        let c4 = self.lookup(AnimationType::PlayerIdleRightBack).is_some();
        let c5 = self.lookup(AnimationType::PlayerWalkForward).is_some();
        let c6 = self.lookup(AnimationType::PlayerWalkBack).is_some();
        let c7 = self.lookup(AnimationType::PlayerWalkRight).is_some();
        let c8 = self.lookup(AnimationType::PlayerWalkRightBack).is_some();
        let r = c1 && c2 && c3 && c4 && c5 && c6 && c7 && c8;
        proof {
            if r {
                assert forall|t: AnimationType| #[trigger] self.contains(t) by {
                    lemma_animation_type_cases(t);
                }
            } else if !c1 {
                assert(!self.contains(AnimationType::PlayerIdleForward));
            } else if !c2 {
                assert(!self.contains(AnimationType::PlayerIdleBack));
            } else if !c3 {
                assert(!self.contains(AnimationType::PlayerIdleRight));
            } else if !c4 {
                assert(!self.contains(AnimationType::PlayerIdleRightBack));
            } else if !c5 {
                assert(!self.contains(AnimationType::PlayerWalkForward));
            } else if !c6 {
                assert(!self.contains(AnimationType::PlayerWalkBack));
            } else if !c7 {
                assert(!self.contains(AnimationType::PlayerWalkRight));
            } else {
                assert(!self.contains(AnimationType::PlayerWalkRightBack));
            }
        }
        r
    }
}

/// Pushing a fresh entry keeps every earlier lookup result and adds the new
/// binding, provided the key was not bound before.
proof fn lemma_seq_lookup_push(
    entries: Seq<(AnimationType, AnimationConfig)>,
    t: AnimationType,
    config: AnimationConfig,
    u: AnimationType,
)
    requires
        seq_lookup(entries, t) is None,
    ensures
        seq_lookup(entries.push((t, config)), u) == (if u == t {
            Some(config)
        } else {
            seq_lookup(entries, u)
        }),
    decreases entries.len(),
{
    let pushed = entries.push((t, config));
    if entries.len() == 0 {
        assert(pushed.len() == 1 && pushed[0] == (t, config));
        assert(pushed.drop_first() =~= Seq::<(AnimationType, AnimationConfig)>::empty());
        assert(seq_lookup(pushed.drop_first(), u) is None);
        if u == t {
            assert(seq_lookup(pushed, u) == Some(config));
        } else {
            assert(seq_lookup(pushed, u) is None);
        }
    } else {
        assert(pushed[0] == entries[0]);
        assert(pushed.drop_first() =~= entries.drop_first().push((t, config)));
        lemma_seq_lookup_push(entries.drop_first(), t, config, u);
    }
}

/// Position of each identifier in the standard declaration order; the
/// caller of `standard_player_registry` hands one texture per position.
pub open spec fn variant_index(t: AnimationType) -> int {
    match t {
        AnimationType::PlayerIdleForward => 0,
        AnimationType::PlayerIdleBack => 1,
        AnimationType::PlayerIdleRight => 2,
        AnimationType::PlayerIdleRightBack => 3,
        AnimationType::PlayerWalkForward => 4,
        AnimationType::PlayerWalkBack => 5,
        AnimationType::PlayerWalkRight => 6,
        AnimationType::PlayerWalkRightBack => 7,
    }
}

/// Declared frame count of each standard player animation.
pub open spec fn standard_frame_count(t: AnimationType) -> u32 {
    match t {
        AnimationType::PlayerIdleForward => 3,
        AnimationType::PlayerIdleBack => 3,
        AnimationType::PlayerIdleRight => 4,
        AnimationType::PlayerIdleRightBack => 4,
        AnimationType::PlayerWalkForward => 4,
        AnimationType::PlayerWalkBack => 4,
        AnimationType::PlayerWalkRight => 4,
        AnimationType::PlayerWalkRightBack => 4,
    }
}

/// Declared frame duration of each standard player animation, in
/// milliseconds: idle animations play at half a second per frame, walking
/// ones slightly faster.
pub open spec fn standard_frame_time(t: AnimationType) -> u64 {
    match t {
        AnimationType::PlayerIdleForward => 500,
        AnimationType::PlayerIdleBack => 500,
        AnimationType::PlayerIdleRight => 500,
        AnimationType::PlayerIdleRightBack => 500,
        AnimationType::PlayerWalkForward => 350,
        AnimationType::PlayerWalkBack => 350,
        AnimationType::PlayerWalkRight => 350,
        AnimationType::PlayerWalkRightBack => 350,
    }
}

/// Pixel size of one atlas cell of each standard player animation.
pub open spec fn standard_cell(t: AnimationType) -> Extent {
    match t {
        AnimationType::PlayerIdleForward => Extent { width: 200, height: 250 },
        AnimationType::PlayerIdleBack => Extent { width: 200, height: 240 },
        AnimationType::PlayerIdleRight => Extent { width: 190, height: 250 },
        AnimationType::PlayerIdleRightBack => Extent { width: 200, height: 230 },
        AnimationType::PlayerWalkForward => Extent { width: 220, height: 250 },
        AnimationType::PlayerWalkBack => Extent { width: 200, height: 240 },
        AnimationType::PlayerWalkRight => Extent { width: 180, height: 270 },
        AnimationType::PlayerWalkRightBack => Extent { width: 200, height: 230 },
    }
}

/// Declared world-space display size of each standard player animation.
pub open spec fn standard_size(t: AnimationType) -> Extent {
    match t {
        AnimationType::PlayerIdleForward => Extent { width: 54, height: 75 },
        AnimationType::PlayerIdleBack => Extent { width: 54, height: 72 },
        AnimationType::PlayerIdleRight => Extent { width: 51, height: 75 },
        AnimationType::PlayerIdleRightBack => Extent { width: 54, height: 69 },
        AnimationType::PlayerWalkForward => Extent { width: 66, height: 75 },
        AnimationType::PlayerWalkBack => Extent { width: 54, height: 72 },
        AnimationType::PlayerWalkRight => Extent { width: 54, height: 81 },
        AnimationType::PlayerWalkRightBack => Extent { width: 54, height: 69 },
    }
}

/// A layout is the single-row grid of `count` cells of the given size.
pub open spec fn is_grid_layout(frames: Seq<FrameRect>, cell: Extent, count: u32) -> bool {
    &&& frames.len() == count
    &&& forall|i: int|
        0 <= i < count ==> #[trigger] frames[i] == grid_frame(cell.width, cell.height, i)
}

/// The registry entry for `t` carries the standard declaration: the given
/// texture, the standard frame count, frame time and display size, and a
/// layout handle under which the store holds the standard grid.
pub open spec fn standard_entry_ok(
    registry: AnimationRegistry,
    store: AtlasStore,
    texture: u64,
    t: AnimationType,
) -> bool {
    registry.spec_get(t) matches Some(c) && {
        &&& c.texture_handle == texture
        &&& c.frame_count == standard_frame_count(t)
        &&& c.frame_time == standard_frame_time(t)
        &&& c.size == standard_size(t)
        &&& store.spec_layout(c.layout_handle as int) matches Some(frames) && is_grid_layout(
            frames,
            standard_cell(t),
            standard_frame_count(t),
        )
    }
}

/// Register one standard animation: build its single-row grid layout, store
/// it, and insert the configuration. Existing registry entries and stored
/// layouts are untouched.
fn register_standard(
    registry: &mut AnimationRegistry,
    atlases: &mut AtlasStore,
    t: AnimationType,
    texture: u64,
    cell: Extent,
    count: u32,
    time: u64,
    size: Extent,
)
    requires
        old(registry).wf(),
        !old(registry).contains(t),
        count == standard_frame_count(t),
        time == standard_frame_time(t),
        cell == standard_cell(t),
        size == standard_size(t),
        count > 0,
        time > 0,
        count * cell.width <= u32::MAX,
    ensures
        final(registry).wf(),
        standard_entry_ok(*final(registry), *final(atlases), texture, t),
        forall|u: AnimationType|
            u != t ==> #[trigger] final(registry).spec_get(u) == old(registry).spec_get(u),
        forall|h: int|
            old(atlases).spec_layout(h) is Some ==> #[trigger] final(atlases).spec_layout(h) == old(
                atlases,
            ).spec_layout(h),
{
    let layout = AtlasLayout::from_grid(cell.width, cell.height, count);
    let layout_handle = atlases.add(layout);
    let config = AnimationConfig {
        layout_handle,
        texture_handle: texture,
        frame_count: count,
        frame_time: time,
        size,
    };
    registry.insert(t, config);
}

/// Build the full standard player registry: all eight directional
/// animations, each over its own texture (one handle per position of
/// `variant_index`) and a freshly stored single-row grid layout. The result
/// is complete, so every later lookup of the playback pipeline succeeds.
pub fn standard_player_registry(atlases: &mut AtlasStore, textures: &Vec<u64>) -> (r:
    AnimationRegistry)
    requires
        textures@.len() == 8,
    ensures
        r.wf(),
        r.is_complete(),
        forall|t: AnimationType|
            #[trigger] standard_entry_ok(r, *final(atlases), textures@[variant_index(t)], t),
{
    let mut registry = AnimationRegistry::new();
    register_standard(
        &mut registry,
        atlases,
        AnimationType::PlayerIdleForward,
        textures[0],
        Extent { width: 200, height: 250 },
        3,
        500,
        Extent { width: 54, height: 75 },
    );
    register_standard(
        &mut registry,
        atlases,
        AnimationType::PlayerIdleBack,
        textures[1],
        Extent { width: 200, height: 240 },
        3,
        500,
        Extent { width: 54, height: 72 },
    );
    register_standard(
        &mut registry,
        atlases,
        AnimationType::PlayerIdleRight,
        textures[2],
        Extent { width: 190, height: 250 },
        4,
        500,
        Extent { width: 51, height: 75 },
    );
    register_standard(
        &mut registry,
        atlases,
        AnimationType::PlayerIdleRightBack,
        textures[3],
        Extent { width: 200, height: 230 },
        4,
        500,
        Extent { width: 54, height: 69 },
    );
    register_standard(
        &mut registry,
        atlases,
        AnimationType::PlayerWalkForward,
        textures[4],
        Extent { width: 220, height: 250 },
        4,
        350,
        Extent { width: 66, height: 75 },
    );
    register_standard(
        &mut registry,
        atlases,
        AnimationType::PlayerWalkBack,
        textures[5],
        Extent { width: 200, height: 240 },
        4,
        350,
        Extent { width: 54, height: 72 },
    );
    register_standard(
        &mut registry,
        atlases,
        AnimationType::PlayerWalkRight,
        textures[6],
        Extent { width: 180, height: 270 },
        4,
        350,
        Extent { width: 54, height: 81 },
    );
    register_standard(
        &mut registry,
        atlases,
        AnimationType::PlayerWalkRightBack,
        textures[7],
        Extent { width: 200, height: 230 },
        4,
        350,
        Extent { width: 54, height: 69 },
    );
    proof {
        assert forall|t: AnimationType|
            #[trigger] standard_entry_ok(
                registry,
                *atlases,
                textures@[variant_index(t)],
                t,
            ) by {
            lemma_animation_type_cases(t);
        }
        assert forall|t: AnimationType| #[trigger] registry.contains(t) by {
            lemma_animation_type_cases(t);
            assert(standard_entry_ok(registry, *atlases, textures@[variant_index(t)], t));
        }
    }
    registry
}

/// The enumeration of animation identifiers is closed: every value is one
/// of its eight variants.
pub proof fn lemma_animation_type_cases(t: AnimationType)
    ensures
        t == AnimationType::PlayerIdleForward || t == AnimationType::PlayerIdleBack || t
            == AnimationType::PlayerIdleRight || t == AnimationType::PlayerIdleRightBack || t
            == AnimationType::PlayerWalkForward || t == AnimationType::PlayerWalkBack || t
            == AnimationType::PlayerWalkRight || t == AnimationType::PlayerWalkRightBack,
{
    match t {
        AnimationType::PlayerIdleForward => {},
        AnimationType::PlayerIdleBack => {},
        AnimationType::PlayerIdleRight => {},
        AnimationType::PlayerIdleRightBack => {},
        AnimationType::PlayerWalkForward => {},
        AnimationType::PlayerWalkBack => {},
        AnimationType::PlayerWalkRight => {},
        AnimationType::PlayerWalkRightBack => {},
    }
}

} // verus!
