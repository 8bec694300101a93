use sprite_animation::atlas::{resolve_rect, AtlasLayout, AtlasStore, FrameRect};
use sprite_animation::registry::{
    standard_player_registry, AnimationConfig, AnimationRegistry, AnimationType, Extent,
};

#[test]
fn default_identifier_faces_the_viewer() {
    assert_eq!(AnimationType::default(), AnimationType::PlayerIdleForward);
}

#[test]
fn insert_then_lookup_round_trips() {
    let mut registry = AnimationRegistry::new();
    let config = AnimationConfig {
        layout_handle: 3,
        texture_handle: 9,
        frame_count: 4,
        frame_time: 500,
        size: Extent { width: 51, height: 75 },
    };
    registry.insert(AnimationType::PlayerIdleRight, config);
    assert_eq!(registry.lookup(AnimationType::PlayerIdleRight), Some(config));
    assert_eq!(registry.lookup(AnimationType::PlayerWalkRight), None);
}

#[test]
fn incomplete_registry_fails_validation() {
    let mut registry = AnimationRegistry::new();
    assert!(!registry.validate_complete());
    let config = AnimationConfig {
        layout_handle: 0,
        texture_handle: 0,
        frame_count: 3,
        frame_time: 500,
        size: Extent { width: 54, height: 75 },
    };
    registry.insert(AnimationType::PlayerIdleForward, config);
    assert!(!registry.validate_complete());
}

#[test]
fn standard_registry_is_complete() {
    let mut atlases = AtlasStore::new();
    let textures: Vec<u64> = vec![10, 11, 12, 13, 14, 15, 16, 17];
    let registry = standard_player_registry(&mut atlases, &textures);
    assert!(registry.validate_complete());
}

#[test]
fn standard_registry_records_declared_values() {
    let mut atlases = AtlasStore::new();
    let textures: Vec<u64> = vec![10, 11, 12, 13, 14, 15, 16, 17];
    let registry = standard_player_registry(&mut atlases, &textures);

    let idle_right = registry.lookup(AnimationType::PlayerIdleRight).unwrap();
    assert_eq!(idle_right.frame_count, 4);
    assert_eq!(idle_right.frame_time, 500);
    assert_eq!(idle_right.size, Extent { width: 51, height: 75 });
    assert_eq!(idle_right.texture_handle, 12);

    let walk_forward = registry.lookup(AnimationType::PlayerWalkForward).unwrap();
    assert_eq!(walk_forward.frame_count, 4);
    assert_eq!(walk_forward.frame_time, 350);
    assert_eq!(walk_forward.size, Extent { width: 66, height: 75 });
    assert_eq!(walk_forward.texture_handle, 14);

    let idle_back = registry.lookup(AnimationType::PlayerIdleBack).unwrap();
    assert_eq!(idle_back.frame_count, 3);
    assert_eq!(idle_back.frame_time, 500);
    assert_eq!(idle_back.size, Extent { width: 54, height: 72 });
    assert_eq!(idle_back.texture_handle, 11);
}

#[test]
fn standard_registry_stores_grid_layouts() {
    let mut atlases = AtlasStore::new();
    let textures: Vec<u64> = vec![10, 11, 12, 13, 14, 15, 16, 17];
    let registry = standard_player_registry(&mut atlases, &textures);

    // Idle facing side: four 190 by 250 cells in one row.
    let config = registry.lookup(AnimationType::PlayerIdleRight).unwrap();
    let layout = atlases.get(config.layout_handle).unwrap();
    assert_eq!(layout.frame_count(), 4);
    assert_eq!(
        resolve_rect(layout, 0),
        Some(FrameRect { min_x: 0, min_y: 0, max_x: 190, max_y: 250 })
    );
    assert_eq!(
        resolve_rect(layout, 3),
        Some(FrameRect { min_x: 570, min_y: 0, max_x: 760, max_y: 250 })
    );
}

#[test]
fn from_grid_lays_cells_left_to_right() {
    let layout = AtlasLayout::from_grid(200, 240, 3);
    assert_eq!(layout.frame_count(), 3);
    assert_eq!(
        resolve_rect(&layout, 0),
        Some(FrameRect { min_x: 0, min_y: 0, max_x: 200, max_y: 240 })
    );
    assert_eq!(
        resolve_rect(&layout, 1),
        Some(FrameRect { min_x: 200, min_y: 0, max_x: 400, max_y: 240 })
    );
    assert_eq!(
        resolve_rect(&layout, 2),
        Some(FrameRect { min_x: 400, min_y: 0, max_x: 600, max_y: 240 })
    );
}

#[test]
fn resolve_rect_rejects_out_of_range_index() {
    let layout = AtlasLayout::from_grid(200, 240, 3);
    assert_eq!(resolve_rect(&layout, 3), None);
    assert_eq!(resolve_rect(&layout, 1000), None);
}

#[test]
fn atlas_store_hands_out_stable_handles() {
    let mut atlases = AtlasStore::new();
    let first = atlases.add(AtlasLayout::from_grid(200, 240, 3));
    let second = atlases.add(AtlasLayout::from_grid(190, 250, 4));
    assert_ne!(first, second);
    assert_eq!(atlases.get(first).unwrap().frame_count(), 3);
    assert_eq!(atlases.get(second).unwrap().frame_count(), 4);
    assert!(atlases.get(99).is_none());
}
