use vstd::prelude::*;

verus! {

/// All lengths in this module are whole numbers of tenths of a world unit,
/// so that every extent the scene needs (including the 0.1-unit plane
/// thickness and the 0.5-unit wall thickness) is exact.
pub const WALL_HEIGHT_TENTHS: u32 = 500;

/// Half-thickness of the floor and ceiling slabs: 0.1 of a unit.
pub const PLANE_HALF_THICKNESS_TENTHS: u32 = 1;

/// Half-thickness of each wall: 0.5 of a unit.
pub const WALL_HALF_THICKNESS_TENTHS: u32 = 5;

/// Friction coefficient of the floor, in tenths: 1.0.
pub const FLOOR_FRICTION_TENTHS: u32 = 10;

/// A box half-extent triple, in tenths of a unit.
pub struct HalfExtents {
    pub x: u32,
    pub y: u32,
    pub z: u32,
}

/// A point in world space, in tenths of a unit.
pub struct Point {
    pub x: i32,
    pub y: i32,
    pub z: i32,
}

/// Which of the six static volumes that enclose the play area a collider is.
pub enum ColliderRole {
    Floor,
    Ceiling,
    WallPosZ,
    WallNegZ,
    WallPosX,
    WallNegX,
}

/// One static box collider of the play area: its role, its half-extents,
/// the world position of its center, its friction coefficient where one is
/// set explicitly (only the floor has one; the others keep the engine's
/// default), and, for the floor and ceiling, the side length of the square
/// render plane drawn for it — the larger viewport dimension, which is not
/// simply twice the collider's half-extents. The walls carry `None`: their
/// boxes are drawn at exactly twice the half-extents.
pub struct StaticCollider {
    pub role: ColliderRole,
    pub half_extents: HalfExtents,
    pub center: Point,
    pub friction_tenths: Option<u32>,
    pub plane_size_tenths: Option<u32>,
}

/// The fixed camera and lighting of the scene, set up once at startup.
/// Positions are in tenths of a unit.
pub struct SceneConfig {
    /// The camera sits here, looking at the world origin: 200 units up.
    pub camera_pos: Point,
    /// The directional light's position: 15 units up.
    pub light_pos: Point,
    /// The light is pitched a quarter turn down, shining straight at the
    /// floor.
    pub light_pitch_degrees: i32,
    /// Shadow cascade near bound: 4 units.
    pub first_cascade_far_bound_tenths: u32,
    /// Shadow cascade maximum distance: 10 units.
    pub shadow_max_distance_tenths: u32,
    /// Side length of the directional light's shadow map, in texels.
    pub shadow_map_size: u32,
    /// The directional light casts shadows.
    pub shadows_enabled: bool,
}

/// The one-time camera and light setup: an elevated camera over the
/// origin, and one shadow-casting directional light pointed straight down
/// with fixed cascade bounds.
pub fn scene_config() -> (c: SceneConfig)
    ensures
        c == (SceneConfig {
            camera_pos: Point { x: 0, y: 2000, z: 0 },
            light_pos: Point { x: 0, y: 150, z: 0 },
            light_pitch_degrees: (-90) as i32,
            first_cascade_far_bound_tenths: 40,
            shadow_max_distance_tenths: 100,
            shadow_map_size: 4096,
            shadows_enabled: true,
        }),
{
    SceneConfig {
        camera_pos: Point { x: 0, y: 2000, z: 0 },
        light_pos: Point { x: 0, y: 150, z: 0 },
        light_pitch_degrees: -90,
        first_cascade_far_bound_tenths: 40,
        shadow_max_distance_tenths: 100,
        shadow_map_size: 4096,
        shadows_enabled: true,
    }
}

/// The larger of the two viewport dimensions, which sizes the square
/// ground and ceiling planes.
pub open spec fn spec_biggest(width: u16, height: u16) -> u16 {
    if height > width {
        height
    } else {
        width
    }
}

/// Returns the larger viewport dimension.
pub fn biggest_dimension(width: u16, height: u16) -> (r: u16)
    ensures
        r == spec_biggest(width, height),
{
    if height > width {
        height
    } else {
        width
    }
}

/// The six static colliders that bound the play area for a given viewport,
/// in the order floor, ceiling, then the four walls. The viewport width
/// spans the world x axis and the viewport height the world z axis; the
/// enclosure is `WALL_HEIGHT_TENTHS` tall, and the floor and ceiling are
/// drawn as square planes sized to the larger viewport dimension.
pub open spec fn spec_arena_colliders(width: u16, height: u16) -> Seq<StaticCollider> {
    let hx = (width * 5) as u32;
    let hz = (height * 5) as u32;
    let cx: int = width * 5;
    let cz: int = height * 5;
    let plane = (spec_biggest(width, height) * 10) as u32;
    let wall_mid = (WALL_HEIGHT_TENTHS / 2) as i32;
    seq![
        StaticCollider {
            role: ColliderRole::Floor,
            half_extents: HalfExtents { x: hx, y: PLANE_HALF_THICKNESS_TENTHS, z: hz },
            center: Point { x: 0, y: 0, z: 0 },
            friction_tenths: Some(FLOOR_FRICTION_TENTHS),
            plane_size_tenths: Some(plane),
        },
        StaticCollider {
            role: ColliderRole::Ceiling,
            half_extents: HalfExtents { x: hx, y: PLANE_HALF_THICKNESS_TENTHS, z: hz },
            center: Point { x: 0, y: WALL_HEIGHT_TENTHS as i32, z: 0 },
            friction_tenths: None,
            plane_size_tenths: Some(plane),
        },
        StaticCollider {
            role: ColliderRole::WallPosZ,
            half_extents: HalfExtents { x: hx, y: WALL_HEIGHT_TENTHS / 2, z: WALL_HALF_THICKNESS_TENTHS },
            center: Point { x: 0, y: wall_mid, z: cz as i32 },
            friction_tenths: None,
            plane_size_tenths: None,
        },
        StaticCollider {
            role: ColliderRole::WallNegZ,
            half_extents: HalfExtents { x: hx, y: WALL_HEIGHT_TENTHS / 2, z: WALL_HALF_THICKNESS_TENTHS },
            center: Point { x: 0, y: wall_mid, z: (-cz) as i32 },
            friction_tenths: None,
            plane_size_tenths: None,
        },
        StaticCollider {
            role: ColliderRole::WallPosX,
            half_extents: HalfExtents { x: WALL_HALF_THICKNESS_TENTHS, y: WALL_HEIGHT_TENTHS / 2, z: hz },
            center: Point { x: cx as i32, y: wall_mid, z: 0 },
            friction_tenths: None,
            plane_size_tenths: None,
        },
        StaticCollider {
            role: ColliderRole::WallNegX,
            half_extents: HalfExtents { x: WALL_HALF_THICKNESS_TENTHS, y: WALL_HEIGHT_TENTHS / 2, z: hz },
            center: Point { x: (-cx) as i32, y: wall_mid, z: 0 },
            friction_tenths: None,
            plane_size_tenths: None,
        },
    ]
}

/// Builds the six static colliders bounding the play area for a viewport of
/// the given width and height: a floor with friction 1, a frictionless
/// ceiling at the wall height, and four walls closing the sides, each half a
/// unit thick. The viewport width sizes the x span and the viewport height
/// the z span; the floor and ceiling carry the side length of their square
/// render planes, the larger viewport dimension. Every extent is determined
/// by the viewport alone.
pub fn arena_colliders(width: u16, height: u16) -> (v: Vec<StaticCollider>)
    ensures
        v@ =~= spec_arena_colliders(width, height),
{
    let half_x: u32 = (width as u32) * 5;
    let half_z: u32 = (height as u32) * 5;
    let plane: u32 = (biggest_dimension(width, height) as u32) * 10;
    let wall_mid: i32 = (WALL_HEIGHT_TENTHS / 2) as i32;
    let mut v: Vec<StaticCollider> = Vec::new();
    v.push(StaticCollider {
        role: ColliderRole::Floor,
        half_extents: HalfExtents { x: half_x, y: PLANE_HALF_THICKNESS_TENTHS, z: half_z },
        center: Point { x: 0, y: 0, z: 0 },
        friction_tenths: Some(FLOOR_FRICTION_TENTHS),
        plane_size_tenths: Some(plane),
    });
    v.push(StaticCollider {
        role: ColliderRole::Ceiling,
        half_extents: HalfExtents { x: half_x, y: PLANE_HALF_THICKNESS_TENTHS, z: half_z },
        center: Point { x: 0, y: WALL_HEIGHT_TENTHS as i32, z: 0 },
        friction_tenths: None,
        plane_size_tenths: Some(plane),
    });
    v.push(StaticCollider {
        role: ColliderRole::WallPosZ,
        half_extents: HalfExtents {
            x: half_x,
            y: WALL_HEIGHT_TENTHS / 2,
            z: WALL_HALF_THICKNESS_TENTHS,
        },
        center: Point { x: 0, y: wall_mid, z: half_z as i32 },
        friction_tenths: None,
        plane_size_tenths: None,
    });
    v.push(StaticCollider {
        role: ColliderRole::WallNegZ,
        half_extents: HalfExtents {
            x: half_x,
            y: WALL_HEIGHT_TENTHS / 2,
            z: WALL_HALF_THICKNESS_TENTHS,
        },
        center: Point { x: 0, y: wall_mid, z: -(half_z as i32) },
        friction_tenths: None,
        plane_size_tenths: None,
    });
    v.push(StaticCollider {
        role: ColliderRole::WallPosX,
        half_extents: HalfExtents {
            x: WALL_HALF_THICKNESS_TENTHS,
            y: WALL_HEIGHT_TENTHS / 2,
            z: half_z,
        },
        center: Point { x: half_x as i32, y: wall_mid, z: 0 },
        friction_tenths: None,
        plane_size_tenths: None,
    });
    v.push(StaticCollider {
        role: ColliderRole::WallNegX,
        half_extents: HalfExtents {
            x: WALL_HALF_THICKNESS_TENTHS,
            y: WALL_HEIGHT_TENTHS / 2,
            z: half_z,
        },
        center: Point { x: -(half_x as i32), y: wall_mid, z: 0 },
        friction_tenths: None,
        plane_size_tenths: None,
    });
    v
}

} // verus!
