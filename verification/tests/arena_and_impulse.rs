use dice_sim::ColliderRole;
use dice_sim::StaticCollider;
use dice_sim::arena_colliders;
use dice_sim::biggest_dimension;
use dice_sim::model_asset_name;
use dice_sim::sample_impulse_dir;
use dice_sim::scene_config;
use dice_sim::AXIS_SAMPLE_BOUND;
use dice_sim::IMPULSE_MAGNITUDE;

fn half(c: &StaticCollider) -> (u32, u32, u32) {
    (c.half_extents.x, c.half_extents.y, c.half_extents.z)
}

fn center(c: &StaticCollider) -> (i32, i32, i32) {
    (c.center.x, c.center.y, c.center.z)
}

#[test]
fn arena_extents_for_wide_viewport() {
    // Viewport 800x600: the width spans x (half 4000 tenths = 400 units),
    // the height spans z (half 3000 tenths), the walls are 50 units tall,
    // and the floor and ceiling planes are squares of the larger
    // dimension, 800 units.
    let v = arena_colliders(800, 600);
    assert_eq!(v.len(), 6);

    assert!(matches!(v[0].role, ColliderRole::Floor));
    assert_eq!(half(&v[0]), (4000, 1, 3000));
    assert_eq!(center(&v[0]), (0, 0, 0));
    assert_eq!(v[0].friction_tenths, Some(10));
    assert_eq!(v[0].plane_size_tenths, Some(8000));

    assert!(matches!(v[1].role, ColliderRole::Ceiling));
    assert_eq!(half(&v[1]), (4000, 1, 3000));
    assert_eq!(center(&v[1]), (0, 500, 0));
    assert_eq!(v[1].friction_tenths, None);
    assert_eq!(v[1].plane_size_tenths, Some(8000));

    assert!(matches!(v[2].role, ColliderRole::WallPosZ));
    assert_eq!(half(&v[2]), (4000, 250, 5));
    assert_eq!(center(&v[2]), (0, 250, 3000));
    assert_eq!(v[2].plane_size_tenths, None);

    assert!(matches!(v[3].role, ColliderRole::WallNegZ));
    assert_eq!(half(&v[3]), (4000, 250, 5));
    assert_eq!(center(&v[3]), (0, 250, -3000));

    assert!(matches!(v[4].role, ColliderRole::WallPosX));
    assert_eq!(half(&v[4]), (5, 250, 3000));
    assert_eq!(center(&v[4]), (4000, 250, 0));

    assert!(matches!(v[5].role, ColliderRole::WallNegX));
    assert_eq!(half(&v[5]), (5, 250, 3000));
    assert_eq!(center(&v[5]), (-4000, 250, 0));
}

#[test]
fn arena_extents_for_tall_viewport() {
    // Viewport 600x800: the same dimensions swapped; the larger dimension
    // is 800 either way, so the planes keep their size.
    let v = arena_colliders(600, 800);
    assert_eq!(v.len(), 6);
    assert_eq!(half(&v[0]), (3000, 1, 4000));
    assert_eq!(v[0].plane_size_tenths, Some(8000));
    assert_eq!(half(&v[2]), (3000, 250, 5));
    assert_eq!(center(&v[2]), (0, 250, 4000));
    assert_eq!(half(&v[4]), (5, 250, 4000));
    assert_eq!(center(&v[4]), (3000, 250, 0));
    assert_eq!(biggest_dimension(800, 600), 800);
    assert_eq!(biggest_dimension(600, 800), 800);
}

#[test]
fn fixed_scene_constants() {
    let c = scene_config();
    assert_eq!((c.camera_pos.x, c.camera_pos.y, c.camera_pos.z), (0, 2000, 0));
    assert_eq!((c.light_pos.x, c.light_pos.y, c.light_pos.z), (0, 150, 0));
    assert_eq!(c.light_pitch_degrees, -90);
    assert_eq!(c.first_cascade_far_bound_tenths, 40);
    assert_eq!(c.shadow_max_distance_tenths, 100);
    assert_eq!(c.shadow_map_size, 4096);
    assert!(c.shadows_enabled);
    assert_eq!(model_asset_name(), "Dice20variant.gltf");
}

#[test]
fn sampled_impulses_are_flat_nonzero_and_spread() {
    let mut quadrants = [0u32; 4];
    for _ in 0..10000 {
        let d = sample_impulse_dir();
        assert_eq!(d.y, 0);
        assert!(d.x != 0 || d.z != 0);
        assert!((-AXIS_SAMPLE_BOUND..=AXIS_SAMPLE_BOUND).contains(&d.x));
        assert!((-AXIS_SAMPLE_BOUND..=AXIS_SAMPLE_BOUND).contains(&d.z));

        // The direction the host would hand the engine: normalized and
        // scaled. It must never be undefined.
        let x = d.x as f32 / 1000.0;
        let z = d.z as f32 / 1000.0;
        let len = (x * x + z * z).sqrt();
        let mag = IMPULSE_MAGNITUDE as f32;
        let impulse = (x / len * mag, z / len * mag);
        assert!(!impulse.0.is_nan() && !impulse.1.is_nan());
        assert!(impulse.0.is_finite() && impulse.1.is_finite());

        let q = match (d.x >= 0, d.z >= 0) {
            (true, true) => 0,
            (true, false) => 1,
            (false, true) => 2,
            (false, false) => 3,
        };
        quadrants[q] += 1;
    }
    // The horizontal angle is roughly uniform: every quadrant sees a
    // substantial share of 10000 draws.
    for &count in quadrants.iter() {
        assert!(count > 1500, "quadrant count {} too low", count);
    }
}
