use fps_core::fixed::{isqrt_u64, norm_sq_u64, Vec3Fx};
use fps_core::projectile::{
    advance_position, fire_weapon, spawn_velocity, update_projectiles, Projectile,
    SpawnedProjectile, AIM_DISTANCE, PROJECTILE_SPEED,
};

#[test]
fn projectile_default_is_at_rest() {
    let p = Projectile::default();
    assert_eq!(p.velocity, Vec3Fx { x: 0, y: 0, z: 0 });
}

#[test]
fn zero_frame_delta_leaves_position_unchanged() {
    let position = Vec3Fx { x: 1_234, y: -5_678, z: 9_012 };
    let velocity = Vec3Fx { x: 40_000, y: -40_000, z: 17 };
    assert_eq!(advance_position(position, velocity, 0), position);
}

#[test]
fn zero_velocity_leaves_position_unchanged() {
    let position = Vec3Fx { x: 1_234, y: -5_678, z: 9_012 };
    let velocity = Vec3Fx { x: 0, y: 0, z: 0 };
    assert_eq!(advance_position(position, velocity, 250), position);
}

#[test]
fn advance_moves_by_velocity_times_delta() {
    // Half a second at 40 units per second forward: 20 units.
    let position = Vec3Fx { x: 1_000, y: 2_000, z: 3_000 };
    let velocity = Vec3Fx { x: 40_000, y: 0, z: -40_000 };
    let moved = advance_position(position, velocity, 500);
    assert_eq!(moved, Vec3Fx { x: 21_000, y: 2_000, z: -17_000 });
}

#[test]
fn update_advances_every_projectile() {
    let mut positions = vec![
        Vec3Fx { x: 0, y: 0, z: 0 },
        Vec3Fx { x: 1_000, y: 1_000, z: 1_000 },
    ];
    let projectiles = vec![
        Projectile { velocity: Vec3Fx { x: 1_000, y: 0, z: 0 } },
        Projectile { velocity: Vec3Fx { x: 0, y: -2_000, z: 0 } },
    ];
    update_projectiles(&mut positions, &projectiles, 1_000);
    assert_eq!(positions[0], Vec3Fx { x: 1_000, y: 0, z: 0 });
    assert_eq!(positions[1], Vec3Fx { x: 1_000, y: -1_000, z: 1_000 });
}

#[test]
fn spawned_velocity_has_fixed_speed() {
    // A 3-4-5 aim offset: the normalization is exact, and the spawned
    // velocity's length is exactly the projectile speed.
    let origin = Vec3Fx { x: 0, y: 0, z: 0 };
    let target = Vec3Fx { x: 3_000, y: 0, z: 4_000 };
    let v = spawn_velocity(target, origin, PROJECTILE_SPEED).unwrap();
    assert_eq!(v, Vec3Fx { x: 24_000, y: 0, z: 32_000 });
    let speed_sq: i128 = (v.x as i128) * (v.x as i128) + (v.y as i128) * (v.y as i128) + (v.z as i128)
        * (v.z as i128);
    assert_eq!(speed_sq, (PROJECTILE_SPEED as i128) * (PROJECTILE_SPEED as i128));
}

#[test]
fn spawned_velocity_is_parallel_to_aim() {
    let origin = Vec3Fx { x: 1_000, y: 2_000, z: 3_000 };
    let target = Vec3Fx { x: 4_000, y: 2_000, z: 7_000 };
    let v = spawn_velocity(target, origin, PROJECTILE_SPEED).unwrap();
    // Cross product of the velocity and the aim offset (3000, 0, 4000).
    let (dx, dy, dz) = (3_000i64, 0i64, 4_000i64);
    assert_eq!(v.y * dz - v.z * dy, 0);
    assert_eq!(v.z * dx - v.x * dz, 0);
    assert_eq!(v.x * dy - v.y * dx, 0);
}

#[test]
fn aim_at_own_position_spawns_nothing() {
    let origin = Vec3Fx { x: 1_000, y: 2_000, z: 3_000 };
    assert_eq!(spawn_velocity(origin, origin, PROJECTILE_SPEED), None);
}

#[test]
fn fire_at_window_center_shoots_straight_ahead() {
    // Camera at the origin facing negative Z, cursor at the window center:
    // the aim point lies 100 units straight ahead, and the projectile
    // leaves at 40 units per second toward negative Z.
    let camera = Vec3Fx { x: 0, y: 0, z: 0 };
    let aim = Some(Vec3Fx { x: 0, y: 0, z: -AIM_DISTANCE });
    let spawned = fire_weapon(true, aim, camera);
    assert_eq!(
        spawned,
        Some(SpawnedProjectile {
            origin: Vec3Fx { x: 0, y: 0, z: 0 },
            velocity: Vec3Fx { x: 0, y: 0, z: -40_000 },
        })
    );
}

#[test]
fn fire_without_edge_is_skipped() {
    let camera = Vec3Fx { x: 0, y: 0, z: 0 };
    let aim = Some(Vec3Fx { x: 0, y: 0, z: -AIM_DISTANCE });
    assert_eq!(fire_weapon(false, aim, camera), None);
}

#[test]
fn fire_without_cursor_is_skipped() {
    let camera = Vec3Fx { x: 0, y: 0, z: 0 };
    assert_eq!(fire_weapon(true, None, camera), None);
}

#[test]
fn fire_at_degenerate_target_is_skipped() {
    let camera = Vec3Fx { x: 5_000, y: 0, z: 0 };
    assert_eq!(fire_weapon(true, Some(camera), camera), None);
}

#[test]
fn isqrt_brackets_its_argument() {
    assert_eq!(isqrt_u64(0), 0);
    assert_eq!(isqrt_u64(1), 1);
    assert_eq!(isqrt_u64(24), 4);
    assert_eq!(isqrt_u64(25), 5);
    assert_eq!(isqrt_u64(10_000_000_000), 100_000);
    assert_eq!(isqrt_u64(u64::MAX), 4_294_967_295);
}

#[test]
fn norm_sq_sums_squares() {
    let v = Vec3Fx { x: 3, y: -4, z: 12 };
    assert_eq!(norm_sq_u64(v), 169);
    assert_eq!(norm_sq_u64(Vec3Fx { x: 0, y: 0, z: 0 }), 0);
}
