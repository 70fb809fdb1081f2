//! The camera orientation tracker, the drag-move handler, and the
//! periodic debug timer.
//!
//! Once per tick the tracker decomposes the active camera's forward
//! direction into a horizontal forward vector and a horizontal right
//! vector (forward projected onto the ground plane and its clockwise
//! perpendicular, both rescaled to unit length in fixed-point units).
//! The drag handler then reprojects a 2D pointer delta onto those two
//! axes, so dragging feels the same whatever the camera's yaw, and turns
//! the horizontal part of the delta into a rotation about world-up unless
//! a modifier key suppresses it.

use vstd::prelude::*;

use crate::fixed::{
    Vec2Fx, Vec3Fx, SCALE, abs_mag, add_clamped, clamp_i64, div_trunc, is_sqrt_floor, isqrt,
    lemma_sqrt_floor, lemma_sqrt_floor_unique, mul_div_clamped, sqrt_floor, sub_clamped,
};
use crate::scene::{EntityRec, Scene, find_clickable_index, find_id, has_clickable, ids_unique};

verus! {

/// Pointer pixels per world unit of translation while dragging.
pub const K_MOVE: u64 = 500;

/// Pointer pixels per radian of rotation while dragging.
pub const K_ROT: u64 = 250;

/// Divisor taking a fixed-point pixel delta times a fixed-point axis
/// component to a fixed-point translation step: `K_MOVE * SCALE`.
pub const MOVE_DIV: u64 = K_MOVE * 1_000_000;

/// How long the debug timer runs before it fires, in microseconds.
pub const DEBUG_PERIOD_MICROS: u64 = 10_000_000;

/// The camera orientation snapshot the drag handler consumes: the
/// camera's horizontal forward and right directions, unit length in
/// fixed-point units, recomputed every tick.
#[derive(Clone, Copy, PartialEq, Eq, Structural, Debug)]
pub struct CameraOrientation {
    pub forward: Vec3Fx,
    pub right: Vec3Fx,
}

/// The squared length of the horizontal part of `f`.
pub open spec fn horiz_norm_sq(f: Vec3Fx) -> int {
    f.x * f.x + f.z * f.z
}

/// `o` is the orientation snapshot of a camera whose forward direction is
/// `f`: `o.forward` is the horizontal part of `f` rescaled to length
/// `SCALE` (each component truncated toward zero), and `o.right` is its
/// clockwise perpendicular in the ground plane, the cross product of `f`
/// with world-up, rescaled the same way.
pub open spec fn is_snapshot(o: CameraOrientation, f: Vec3Fx) -> bool {
    let l = sqrt_floor(horiz_norm_sq(f));
    &&& o.forward.x == div_trunc(f.x * SCALE, l)
    &&& o.forward.y == 0
    &&& o.forward.z == div_trunc(f.z * SCALE, l)
    &&& o.right.x == -o.forward.z
    &&& o.right.y == 0
    &&& o.right.z == o.forward.x
}

/// The dot product of two fixed-point vectors.
pub open spec fn dot3(a: Vec3Fx, b: Vec3Fx) -> int {
    a.x * b.x + a.y * b.y + a.z * b.z
}

/// The squared length of a fixed-point vector.
pub open spec fn norm_sq3(a: Vec3Fx) -> int {
    dot3(a, a)
}

proof fn lemma_component_le_sqrt(x: int, z: int, l: int)
    by (nonlinear_arith)
    requires
        is_sqrt_floor(x * x + z * z, l),
    ensures
        -l <= x <= l,
        -l <= z <= l,
        (x != 0 || z != 0) ==> 1 <= l,
{
}

proof fn lemma_div_le(u: int, l: int, m: int)
    by (nonlinear_arith)
    requires
        1 <= l,
        0 <= m,
        0 <= u <= l * m,
    ensures
        0 <= u / l <= m,
{
}

proof fn lemma_div_trunc_bounded(a: int, l: int, m: int)
    requires
        1 <= l,
        0 <= m,
        -(l * m) <= a <= l * m,
    ensures
        -m <= div_trunc(a, l) <= m,
{
    if a >= 0 {
        lemma_div_le(a, l, m);
    } else {
        lemma_div_le(-a, l, m);
    }
}

proof fn lemma_scaled_component_bound(x: int, l: int)
    by (nonlinear_arith)
    requires
        -l <= x <= l,
    ensures
        -(l * SCALE) <= x * SCALE <= l * SCALE,
{
}

/// Read the active camera's forward direction into the shared orientation
/// snapshot. With no camera (or a forward direction parallel to world-up,
/// whose horizontal part vanishes) the prior snapshot is kept, stale but
/// valid.
pub fn update_camera_orientation(
    orientation: &mut CameraOrientation,
    camera_forward: Option<Vec3Fx>,
)
    ensures
        match camera_forward {
            None => *final(orientation) == *old(orientation),
            Some(f) => if f.x == 0 && f.z == 0 {
                *final(orientation) == *old(orientation)
            } else {
                is_snapshot(*final(orientation), f)
            },
        },
{
    match camera_forward {
        None => {},
        Some(f) => {
            if f.x == 0 && f.z == 0 {
            } else {
                let xa: u128 = abs_mag(f.x);
                let za: u128 = abs_mag(f.z);
                proof {
                    assert(xa * xa + za * za <= 0x8000000000000000u128 * 0x8000000000000000u128
                        + 0x8000000000000000u128 * 0x8000000000000000u128) by (nonlinear_arith)
                        requires
                            0 <= xa <= 0x8000000000000000u128,
                            0 <= za <= 0x8000000000000000u128,
                    ;
                    assert(xa * xa == f.x * f.x && za * za == f.z * f.z) by (nonlinear_arith)
                        requires
                            xa == if f.x >= 0 { f.x as int } else { -(f.x as int) },
                            za == if f.z >= 0 { f.z as int } else { -(f.z as int) },
                    ;
                }
                let n: u128 = xa * xa + za * za;
                let l: u64 = isqrt(n);
                proof {
                    lemma_component_le_sqrt(f.x as int, f.z as int, l as int);
                    lemma_scaled_component_bound(f.x as int, l as int);
                    lemma_scaled_component_bound(f.z as int, l as int);
                    lemma_div_trunc_bounded(f.x * SCALE, l as int, SCALE as int);
                    lemma_div_trunc_bounded(f.z * SCALE, l as int, SCALE as int);
                    lemma_sqrt_floor(horiz_norm_sq(f));
                    lemma_sqrt_floor_unique(
                        horiz_norm_sq(f),
                        l as int,
                        sqrt_floor(horiz_norm_sq(f)),
                    );
                }
                let qx: i64 = mul_div_clamped(f.x, SCALE, l);
                let qz: i64 = mul_div_clamped(f.z, SCALE, l);
                orientation.forward = Vec3Fx { x: qx, y: 0, z: qz };
                orientation.right = Vec3Fx { x: -qz, y: 0, z: qx };
            }
        },
    }
}

/// Law: for every camera forward direction not parallel to world-up, the
/// snapshot's `right` and `forward` are horizontal, mutually orthogonal,
/// of equal (and nonzero) length, and no longer than `SCALE` in each
/// component.
pub proof fn lemma_snapshot_axes(o: CameraOrientation, f: Vec3Fx)
    requires
        f.x != 0 || f.z != 0,
        is_snapshot(o, f),
    ensures
        o.forward.y == 0,
        o.right.y == 0,
        dot3(o.right, o.forward) == 0,
        norm_sq3(o.right) == norm_sq3(o.forward),
        1 <= norm_sq3(o.forward) <= 2 * SCALE * SCALE,
        -SCALE <= o.forward.x <= SCALE,
        -SCALE <= o.forward.z <= SCALE,
{
    let l = sqrt_floor(horiz_norm_sq(f));
    assert(0 <= f.x * f.x + f.z * f.z) by (nonlinear_arith);
    lemma_sqrt_floor(horiz_norm_sq(f));
    lemma_component_le_sqrt(f.x as int, f.z as int, l);
    lemma_scaled_component_bound(f.x as int, l);
    lemma_scaled_component_bound(f.z as int, l);
    lemma_div_trunc_bounded(f.x * SCALE, l, SCALE as int);
    lemma_div_trunc_bounded(f.z * SCALE, l, SCALE as int);
    let qx = o.forward.x as int;
    let qz = o.forward.z as int;
    assert(dot3(o.right, o.forward) == (-qz) * qx + qx * qz) by (nonlinear_arith)
        requires
            o.right.x == -qz,
            o.right.y == 0,
            o.right.z == qx,
            o.forward.x == qx,
            o.forward.y == 0,
            o.forward.z == qz,
    ;
    assert((-qz) * qx + qx * qz == 0) by (nonlinear_arith);
    assert((-qz) * (-qz) == qz * qz) by (nonlinear_arith);
    assert(norm_sq3(o.forward) <= 2 * SCALE * SCALE) by (nonlinear_arith)
        requires
            norm_sq3(o.forward) == qx * qx + 0 * 0 + qz * qz,
            -SCALE <= qx <= SCALE,
            -SCALE <= qz <= SCALE,
    ;
    lemma_snapshot_nonzero(f.x as int, f.z as int, l, qx, qz);
    assert(1 <= norm_sq3(o.forward)) by (nonlinear_arith)
        requires
            norm_sq3(o.forward) == qx * qx + 0 * 0 + qz * qz,
            qx != 0 || qz != 0,
    ;
}

proof fn lemma_div_sq_bounds(u: int, l: int)
    by (nonlinear_arith)
    requires
        1 <= l,
        0 <= u,
    ensures
        ((u / l) * l) * ((u / l) * l) <= u * u,
        u * u - 2 * u * l <= ((u / l) * l) * ((u / l) * l),
{
}

proof fn lemma_div_trunc_sq_bounds(a: int, l: int, q: int)
    requires
        1 <= l,
        q == div_trunc(a, l),
    ensures
        (q * l) * (q * l) <= a * a,
        a * a - 2 * (if a >= 0 { a } else { -a }) * l <= (q * l) * (q * l),
{
    if a >= 0 {
        lemma_div_sq_bounds(a, l);
    } else {
        lemma_div_sq_bounds(-a, l);
        assert(q == -((-a) / l));
        assert((q * l) * (q * l) == (((-a) / l) * l) * (((-a) / l) * l)) by (nonlinear_arith)
            requires
                q == -((-a) / l),
        ;
        assert(a * a == (-a) * (-a)) by (nonlinear_arith);
    }
}

/// Law: the snapshot axes are unit length up to fixed-point rounding.
/// Writing `l` for the length of the horizontal part of the camera
/// forward `f` (rounded down) and `h` for its squared length, the squared
/// length of `o.forward` lands, after scaling by `l * l`, within the
/// rounding band below `SCALE * SCALE * h`; with `h` itself within
/// `[l * l, (l + 1) * (l + 1))` this pins the snapshot's length to
/// `SCALE` as closely as truncating division allows. The same holds for
/// `o.right`, whose squared length is the same.
pub proof fn lemma_snapshot_near_unit(o: CameraOrientation, f: Vec3Fx)
    requires
        f.x != 0 || f.z != 0,
        is_snapshot(o, f),
    ensures
        ({
            let h = horiz_norm_sq(f);
            let l = sqrt_floor(h);
            let ax = if f.x >= 0 { f.x as int } else { -(f.x as int) };
            let az = if f.z >= 0 { f.z as int } else { -(f.z as int) };
            &&& l * l <= h < (l + 1) * (l + 1)
            &&& norm_sq3(o.forward) * (l * l) <= SCALE * SCALE * h
            &&& SCALE * SCALE * h - 2 * SCALE * l * (ax + az) <= norm_sq3(o.forward) * (l * l)
        }),
{
    let h = horiz_norm_sq(f);
    let l = sqrt_floor(h);
    assert(0 <= f.x * f.x + f.z * f.z) by (nonlinear_arith);
    lemma_sqrt_floor(h);
    lemma_component_le_sqrt(f.x as int, f.z as int, l);
    let qx = o.forward.x as int;
    let qz = o.forward.z as int;
    let ax = if f.x >= 0 { f.x as int } else { -(f.x as int) };
    let az = if f.z >= 0 { f.z as int } else { -(f.z as int) };
    lemma_div_trunc_sq_bounds(f.x * SCALE, l, qx);
    lemma_div_trunc_sq_bounds(f.z * SCALE, l, qz);
    assert((if f.x * SCALE >= 0 { f.x * SCALE } else { -(f.x * SCALE) }) == ax * SCALE)
        by (nonlinear_arith)
        requires
            ax == if f.x >= 0 { f.x as int } else { -(f.x as int) },
    ;
    assert((if f.z * SCALE >= 0 { f.z * SCALE } else { -(f.z * SCALE) }) == az * SCALE)
        by (nonlinear_arith)
        requires
            az == if f.z >= 0 { f.z as int } else { -(f.z as int) },
    ;
    assert((f.x * SCALE) * (f.x * SCALE) == SCALE * SCALE * (f.x * f.x)) by (nonlinear_arith);
    assert((f.z * SCALE) * (f.z * SCALE) == SCALE * SCALE * (f.z * f.z)) by (nonlinear_arith);
    assert(norm_sq3(o.forward) * (l * l) == (qx * l) * (qx * l) + (qz * l) * (qz * l))
        by (nonlinear_arith)
        requires
            norm_sq3(o.forward) == qx * qx + 0 * 0 + qz * qz,
    ;
    assert(SCALE * SCALE * h == SCALE * SCALE * (f.x * f.x) + SCALE * SCALE * (f.z * f.z))
        by (nonlinear_arith)
        requires
            h == f.x * f.x + f.z * f.z,
    ;
    assert(2 * (ax * SCALE) * l + 2 * (az * SCALE) * l == 2 * SCALE * l * (ax + az))
        by (nonlinear_arith);
}

proof fn lemma_div_trunc_zero(a: int, l: int)
    by (nonlinear_arith)
    requires
        1 <= l,
        div_trunc(a, l) == 0,
    ensures
        -l < a < l,
{
}

proof fn lemma_snapshot_nonzero(fx: int, fz: int, l: int, qx: int, qz: int)
    requires
        fx != 0 || fz != 0,
        is_sqrt_floor(fx * fx + fz * fz, l),
        1 <= l,
        qx == div_trunc(fx * SCALE, l),
        qz == div_trunc(fz * SCALE, l),
    ensures
        qx != 0 || qz != 0,
{
    if qx == 0 && qz == 0 {
        lemma_div_trunc_zero(fx * SCALE, l);
        lemma_div_trunc_zero(fz * SCALE, l);
        assert(false) by (nonlinear_arith)
            requires
                fx != 0 || fz != 0,
                l * l <= fx * fx + fz * fz,
                -l < fx * SCALE < l,
                -l < fz * SCALE < l,
        ;
    }
}

/// One translation component after a drag delta: the `right` axis scaled
/// by the horizontal pixel delta is added, the `forward` axis scaled by
/// the vertical pixel delta is subtracted, each step divided by
/// `K_MOVE * SCALE` and truncated, and each sum saturated.
pub open spec fn drag_translation_component(t: i64, r: i64, f: i64, delta: Vec2Fx) -> int {
    clamp_i64(
        clamp_i64(t + clamp_i64(div_trunc(r * delta.x, MOVE_DIV as int))) - clamp_i64(
            div_trunc(f * delta.y, MOVE_DIV as int),
        ),
    )
}

/// The yaw after a drag delta: unchanged while the modifier key is held,
/// else advanced by the horizontal pixel delta divided by `K_ROT`.
pub open spec fn rotated_yaw(yaw: i64, delta: Vec2Fx, modifier_held: bool) -> int {
    if modifier_held {
        yaw as int
    } else {
        clamp_i64(yaw + clamp_i64(div_trunc(delta.x as int, K_ROT as int)))
    }
}

/// One entity after a drag delta under the given orientation snapshot.
pub open spec fn dragged_entity(
    e: EntityRec,
    delta: Vec2Fx,
    o: CameraOrientation,
    modifier_held: bool,
) -> EntityRec {
    EntityRec {
        id: e.id,
        translation: Vec3Fx {
            x: drag_translation_component(e.translation.x, o.right.x, o.forward.x, delta) as i64,
            y: drag_translation_component(e.translation.y, o.right.y, o.forward.y, delta) as i64,
            z: drag_translation_component(e.translation.z, o.right.z, o.forward.z, delta) as i64,
        },
        yaw: rotated_yaw(e.yaw, delta, modifier_held) as i64,
        clickable: e.clickable,
        dragged: e.dragged,
    }
}

/// What one drag-move event does to the entity table: the clickable entity
/// the event targets moves (and, modifier permitting, rotates); any other
/// target leaves the table unchanged.
pub open spec fn cube_drag_step(
    s: Seq<EntityRec>,
    target: u64,
    delta: Vec2Fx,
    o: CameraOrientation,
    modifier_held: bool,
) -> Seq<EntityRec> {
    if has_clickable(s, target) {
        let i: int = find_id(s, target);
        s.update(i, dragged_entity(s[i], delta, o, modifier_held))
    } else {
        s
    }
}

/// Apply one drag-move event carrying a 2D pixel delta to the entity it
/// targets, translating along the camera-relative axes and rotating about
/// world-up unless the modifier key is held.
pub fn handle_cube_drag(
    scene: &mut Scene,
    target: u64,
    delta: Vec2Fx,
    orientation: &CameraOrientation,
    modifier_held: bool,
)
    requires
        old(scene).wf(),
    ensures
        final(scene).wf(),
        final(scene)@ == cube_drag_step(old(scene)@, target, delta, *orientation, modifier_held),
{
    match find_clickable_index(scene, target) {
        Some(i) => {
            let mut e = scene.entities[i];
            let rx: i64 = mul_div_clamped(orientation.right.x, delta.x, MOVE_DIV);
            let ry: i64 = mul_div_clamped(orientation.right.y, delta.x, MOVE_DIV);
            let rz: i64 = mul_div_clamped(orientation.right.z, delta.x, MOVE_DIV);
            let fx: i64 = mul_div_clamped(orientation.forward.x, delta.y, MOVE_DIV);
            let fy: i64 = mul_div_clamped(orientation.forward.y, delta.y, MOVE_DIV);
            let fz: i64 = mul_div_clamped(orientation.forward.z, delta.y, MOVE_DIV);
            e.translation = Vec3Fx {
                x: sub_clamped(add_clamped(e.translation.x, rx), fx),
                y: sub_clamped(add_clamped(e.translation.y, ry), fy),
                z: sub_clamped(add_clamped(e.translation.z, rz), fz),
            };
            if !modifier_held {
                let d: i64 = mul_div_clamped(delta.x, 1, K_ROT);
                e.yaw = add_clamped(e.yaw, d);
            }
            scene.entities[i] = e;
            proof {
                let s = old(scene)@;
                assert(has_clickable(s, target));
                let k: int = find_id(s, target);
                assert(0 <= k < s.len() && s[k].id == target);
                assert(k == i as int);
                assert(final(scene)@ =~= cube_drag_step(
                    s,
                    target,
                    delta,
                    *orientation,
                    modifier_held,
                ));
            }
        },
        None => {},
    }
}

/// Law: the modifier key gates rotation and only rotation. With it held a
/// drag-move leaves the target's yaw untouched; without it the yaw
/// advances by the horizontal delta over `K_ROT`; the translation moves
/// the same either way.
pub proof fn lemma_modifier_key_gates_rotation(
    s: Seq<EntityRec>,
    target: u64,
    delta: Vec2Fx,
    o: CameraOrientation,
)
    requires
        ids_unique(s),
        has_clickable(s, target),
    ensures
        ({
            let i: int = find_id(s, target);
            let held = cube_drag_step(s, target, delta, o, true);
            let free = cube_drag_step(s, target, delta, o, false);
            &&& held[i].yaw == s[i].yaw
            &&& free[i].yaw == clamp_i64(
                s[i].yaw + clamp_i64(div_trunc(delta.x as int, K_ROT as int)),
            )
            &&& held[i].translation == free[i].translation
        }),
{
    let i: int = find_id(s, target);
    let w = choose|k: int| 0 <= k < s.len() && s[k].id == target && s[k].clickable;
    assert(0 <= w < s.len() && s[w].id == target);
    assert(0 <= i < s.len() && s[i].id == target);
}

/// The once-per-frame state of the periodic debug report.
#[derive(Clone, Copy, PartialEq, Eq, Structural, Debug)]
pub struct DebugTimer {
    /// Time accumulated since the last report, in microseconds.
    pub elapsed_micros: u64,
}

/// Advance the debug timer by one frame's delta and decide whether the
/// periodic debug report is due; when it is, the timer resets.
pub fn debug(timer: &mut DebugTimer, delta_micros: u64) -> (report: bool)
    ensures
        report == (old(timer).elapsed_micros + delta_micros >= DEBUG_PERIOD_MICROS),
        report ==> final(timer).elapsed_micros == 0,
        !report ==> final(timer).elapsed_micros == old(timer).elapsed_micros + delta_micros,
{
    let e: u64 = if delta_micros > u64::MAX - timer.elapsed_micros {
        u64::MAX
    } else {
        timer.elapsed_micros + delta_micros
    };
    if e >= DEBUG_PERIOD_MICROS {
        timer.elapsed_micros = 0;
        true
    } else {
        timer.elapsed_micros = e;
        false
    }
}

} // verus!
