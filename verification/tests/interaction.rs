//! The pointer press/drag/release interaction on concrete scenes.

use drag_sandbox::aesthetics::{change_mouse_icon, CursorIcon};
use drag_sandbox::cube::change_color_on_click_system;
use drag_sandbox::features::{debug, handle_cube_drag, CameraOrientation, DebugTimer};
use drag_sandbox::fixed::{Vec2Fx, Vec3Fx, SCALE};
use drag_sandbox::scene::{Dragged, EntityRec, MouseButtonEvent, PickOutcome, Scene};

fn ent(id: u64, x: i64, y: i64, z: i64, clickable: bool) -> EntityRec {
    EntityRec {
        id,
        translation: Vec3Fx { x, y, z },
        yaw: 0,
        clickable,
        dragged: None,
    }
}

fn sandbox_scene() -> Scene {
    // Two clickable cubes and one wall, as the sandbox spawns them.
    Scene {
        entities: vec![
            ent(1, 500_000, 500_000, 0, true),
            ent(2, -500_000, 500_000, 0, true),
            ent(3, 0, 37_500, -1_962_500, false),
        ],
    }
}

fn axis_snapshot() -> CameraOrientation {
    CameraOrientation {
        forward: Vec3Fx { x: 0, y: 0, z: -SCALE },
        right: Vec3Fx { x: SCALE, y: 0, z: 0 },
    }
}

#[test]
fn press_hit_on_clickable_starts_drag_on_exactly_that_entity() {
    let mut scene = sandbox_scene();
    let cursor = Vec2Fx { x: 320 * SCALE, y: 240 * SCALE };
    let icon = change_mouse_icon(
        &mut scene,
        MouseButtonEvent::Pressed,
        Some(cursor),
        PickOutcome::Hit(2),
    );
    assert_eq!(icon, Some(CursorIcon::Move));
    assert_eq!(scene.entities[0].dragged, None);
    assert_eq!(
        scene.entities[1].dragged,
        Some(Dragged {
            start_position: Vec3Fx { x: -500_000, y: 500_000, z: 0 },
            start_cursor_position: cursor,
        })
    );
    assert_eq!(scene.entities[2].dragged, None);
    // Everything else about the grabbed entity is untouched.
    assert_eq!(scene.entities[1].translation, Vec3Fx { x: -500_000, y: 500_000, z: 0 });
    assert_eq!(scene.entities[1].yaw, 0);
    assert!(scene.entities[1].clickable);
}

#[test]
fn press_miss_starts_no_drag() {
    let mut scene = sandbox_scene();
    let icon = change_mouse_icon(
        &mut scene,
        MouseButtonEvent::Pressed,
        Some(Vec2Fx { x: 0, y: 0 }),
        PickOutcome::Miss,
    );
    assert_eq!(icon, Some(CursorIcon::Normal));
    for e in &scene.entities {
        assert_eq!(e.dragged, None);
    }
}

#[test]
fn press_hit_on_wall_starts_no_drag() {
    let mut scene = sandbox_scene();
    let icon = change_mouse_icon(
        &mut scene,
        MouseButtonEvent::Pressed,
        Some(Vec2Fx { x: 0, y: 0 }),
        PickOutcome::Hit(3),
    );
    assert_eq!(icon, Some(CursorIcon::Normal));
    for e in &scene.entities {
        assert_eq!(e.dragged, None);
    }
}

#[test]
fn press_hit_on_unknown_entity_starts_no_drag() {
    let mut scene = sandbox_scene();
    let icon = change_mouse_icon(
        &mut scene,
        MouseButtonEvent::Pressed,
        Some(Vec2Fx { x: 0, y: 0 }),
        PickOutcome::Hit(99),
    );
    assert_eq!(icon, Some(CursorIcon::Normal));
    for e in &scene.entities {
        assert_eq!(e.dragged, None);
    }
}

#[test]
fn press_without_cursor_does_nothing() {
    let mut scene = sandbox_scene();
    let icon = change_mouse_icon(&mut scene, MouseButtonEvent::Pressed, None, PickOutcome::Hit(1));
    assert_eq!(icon, None);
    for e in &scene.entities {
        assert_eq!(e.dragged, None);
    }
}

#[test]
fn press_without_ray_does_nothing() {
    let mut scene = sandbox_scene();
    let icon = change_mouse_icon(
        &mut scene,
        MouseButtonEvent::Pressed,
        Some(Vec2Fx { x: 0, y: 0 }),
        PickOutcome::NoRay,
    );
    assert_eq!(icon, None);
    for e in &scene.entities {
        assert_eq!(e.dragged, None);
    }
}

#[test]
fn release_clears_every_drag_marker() {
    // Even a table where several rows (incorrectly) carry drag state
    // comes back fully cleared.
    let mut scene = sandbox_scene();
    let stale = Some(Dragged {
        start_position: Vec3Fx { x: 1, y: 2, z: 3 },
        start_cursor_position: Vec2Fx { x: 4, y: 5 },
    });
    scene.entities[0].dragged = stale;
    scene.entities[1].dragged = stale;
    scene.entities[2].dragged = stale;
    let icon = change_mouse_icon(&mut scene, MouseButtonEvent::Released, None, PickOutcome::NoRay);
    assert_eq!(icon, Some(CursorIcon::Normal));
    for e in &scene.entities {
        assert_eq!(e.dragged, None);
    }
    // The rest of each row is kept.
    assert_eq!(scene.entities[0].translation, Vec3Fx { x: 500_000, y: 500_000, z: 0 });
    assert_eq!(scene.entities[2].translation, Vec3Fx { x: 0, y: 37_500, z: -1_962_500 });
}

#[test]
fn idle_frame_changes_nothing() {
    let mut scene = sandbox_scene();
    let icon = change_mouse_icon(
        &mut scene,
        MouseButtonEvent::Neither,
        Some(Vec2Fx { x: 0, y: 0 }),
        PickOutcome::Hit(1),
    );
    assert_eq!(icon, None);
    for e in &scene.entities {
        assert_eq!(e.dragged, None);
    }
}

#[test]
fn horizontal_drag_moves_along_right_axis() {
    // With right = (1,0,0) and forward = (0,0,-1), a delta of (100, 0)
    // pixels moves x by 100 / K_MOVE = 0.2 world units and leaves z alone.
    let mut scene = sandbox_scene();
    let o = axis_snapshot();
    handle_cube_drag(&mut scene, 1, Vec2Fx { x: 100 * SCALE, y: 0 }, &o, false);
    assert_eq!(
        scene.entities[0].translation,
        Vec3Fx { x: 500_000 + 200_000, y: 500_000, z: 0 }
    );
    // The same delta also turns the cube by 100 / K_ROT = 0.4 radians.
    assert_eq!(scene.entities[0].yaw, 400_000);
    // The other entities are untouched.
    assert_eq!(scene.entities[1].translation, Vec3Fx { x: -500_000, y: 500_000, z: 0 });
    assert_eq!(scene.entities[1].yaw, 0);
}

#[test]
fn vertical_drag_moves_against_forward_axis() {
    // A delta of (0, 100) pixels subtracts forward * 0.2: with forward
    // = (0,0,-1) the z translation grows by 0.2 world units (toward the
    // camera) and x is unchanged.
    let mut scene = sandbox_scene();
    let o = axis_snapshot();
    handle_cube_drag(&mut scene, 1, Vec2Fx { x: 0, y: 100 * SCALE }, &o, false);
    assert_eq!(
        scene.entities[0].translation,
        Vec3Fx { x: 500_000, y: 500_000, z: 200_000 }
    );
    assert_eq!(scene.entities[0].yaw, 0);
}

#[test]
fn modifier_key_suppresses_rotation_but_not_translation() {
    let mut scene = sandbox_scene();
    let o = axis_snapshot();
    handle_cube_drag(&mut scene, 1, Vec2Fx { x: 100 * SCALE, y: 0 }, &o, true);
    assert_eq!(
        scene.entities[0].translation,
        Vec3Fx { x: 500_000 + 200_000, y: 500_000, z: 0 }
    );
    assert_eq!(scene.entities[0].yaw, 0);
}

#[test]
fn drag_on_wall_changes_nothing() {
    let mut scene = sandbox_scene();
    let o = axis_snapshot();
    handle_cube_drag(&mut scene, 3, Vec2Fx { x: 100 * SCALE, y: 0 }, &o, false);
    assert_eq!(scene.entities[2].translation, Vec3Fx { x: 0, y: 37_500, z: -1_962_500 });
    assert_eq!(scene.entities[2].yaw, 0);
}

#[test]
fn drag_follows_a_rotated_snapshot() {
    // With the camera yawed so right = (0,0,-1) and forward = (1,0,0),
    // the same horizontal delta now moves the cube along -z.
    let mut scene = sandbox_scene();
    let o = CameraOrientation {
        forward: Vec3Fx { x: SCALE, y: 0, z: 0 },
        right: Vec3Fx { x: 0, y: 0, z: -SCALE },
    };
    handle_cube_drag(&mut scene, 1, Vec2Fx { x: 100 * SCALE, y: 0 }, &o, true);
    assert_eq!(
        scene.entities[0].translation,
        Vec3Fx { x: 500_000, y: 500_000, z: -200_000 }
    );
}

#[test]
fn color_click_picks_the_clickable_hit() {
    let scene = sandbox_scene();
    let cursor = Some(Vec2Fx { x: 0, y: 0 });
    assert_eq!(
        change_color_on_click_system(&scene, true, cursor, PickOutcome::Hit(1)),
        Some(1)
    );
    assert_eq!(change_color_on_click_system(&scene, true, cursor, PickOutcome::Hit(3)), None);
    assert_eq!(change_color_on_click_system(&scene, true, cursor, PickOutcome::Miss), None);
    assert_eq!(change_color_on_click_system(&scene, true, cursor, PickOutcome::NoRay), None);
    assert_eq!(
        change_color_on_click_system(&scene, false, cursor, PickOutcome::Hit(1)),
        None
    );
    assert_eq!(change_color_on_click_system(&scene, true, None, PickOutcome::Hit(1)), None);
}

#[test]
fn debug_timer_fires_every_ten_seconds() {
    let mut t = DebugTimer { elapsed_micros: 0 };
    assert!(!debug(&mut t, 5_000_000));
    assert_eq!(t.elapsed_micros, 5_000_000);
    assert!(!debug(&mut t, 4_999_999));
    assert_eq!(t.elapsed_micros, 9_999_999);
    assert!(debug(&mut t, 1));
    assert_eq!(t.elapsed_micros, 0);
    assert!(debug(&mut t, 10_000_000));
    assert_eq!(t.elapsed_micros, 0);
}

#[test]
fn debug_timer_saturates_on_a_huge_delta() {
    let mut t = DebugTimer { elapsed_micros: 3 };
    assert!(debug(&mut t, u64::MAX));
    assert_eq!(t.elapsed_micros, 0);
}
