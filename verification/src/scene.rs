//! The entity table the interaction logic works on.
//!
//! The host engine owns the real scene graph and physics world; this module
//! keeps the slice of it that the pointer interaction reads and writes: for
//! each entity an identifier, a translation, a yaw angle, whether it may be
//! picked up, and the drag state attached while it is being dragged.

use vstd::prelude::*;

use crate::fixed::{Vec2Fx, Vec3Fx};

verus! {

/// Transient drag state, attached to the one entity being dragged:
/// the entity's translation and the cursor position at grab time.
#[derive(Clone, Copy, PartialEq, Eq, Structural, Debug)]
pub struct Dragged {
    pub start_position: Vec3Fx,
    pub start_cursor_position: Vec2Fx,
}

/// One entity as the interaction logic sees it.
#[derive(Clone, Copy, Debug)]
pub struct EntityRec {
    /// The engine's identifier for the entity.
    pub id: u64,
    /// World-space translation in fixed-point micro-units.
    pub translation: Vec3Fx,
    /// Accumulated rotation about the world-up axis, micro-radians.
    pub yaw: i64,
    /// Whether the entity may be picked up by the pointer.
    pub clickable: bool,
    /// Drag state while the entity is being dragged, `None` otherwise.
    pub dragged: Option<Dragged>,
}

/// The entity table: a snapshot of every entity the interaction may touch.
#[derive(Debug)]
pub struct Scene {
    pub entities: Vec<EntityRec>,
}

impl View for Scene {
    type V = Seq<EntityRec>;

    open spec fn view(&self) -> Seq<EntityRec> {
        self.entities@
    }
}

impl Scene {
    /// Entity identifiers are unique, so "the entity hit by the ray"
    /// names at most one row of the table.
    pub open spec fn wf(self) -> bool {
        ids_unique(self@)
    }
}

/// No two rows share an identifier.
pub open spec fn ids_unique(s: Seq<EntityRec>) -> bool {
    forall|i: int, j: int| 0 <= i < j < s.len() ==> s[i].id != s[j].id
}

/// Some row carries `id`.
pub open spec fn contains_id(s: Seq<EntityRec>, id: u64) -> bool {
    exists|i: int| 0 <= i < s.len() && s[i].id == id
}

/// Some row carries `id` and may be picked up.
pub open spec fn has_clickable(s: Seq<EntityRec>, id: u64) -> bool {
    exists|i: int| 0 <= i < s.len() && s[i].id == id && s[i].clickable
}

/// An index of the row carrying `id` (the index, once ids are unique).
pub open spec fn find_id(s: Seq<EntityRec>, id: u64) -> int {
    choose|i: int| 0 <= i < s.len() && s[i].id == id
}

/// What a pointer-button frame reports: a press, a release, or neither.
#[derive(Clone, Copy, PartialEq, Eq, Structural, Debug)]
pub enum MouseButtonEvent {
    Pressed,
    Released,
    Neither,
}

/// What the ray cast through the cursor reported: no ray could be formed
/// (no camera, or the cursor is outside the viewport), a ray that hit
/// nothing, or the entity the nearest solid hit belongs to.
#[derive(Clone, Copy, PartialEq, Eq, Structural, Debug)]
pub enum PickOutcome {
    NoRay,
    Miss,
    Hit(u64),
}

/// Decide whether the table is well formed, that is, whether its entity
/// identifiers are unique. Callers that assemble a table from outside
/// input can test this before handing the table to the interaction.
pub fn check_ids_unique(scene: &Scene) -> (r: bool)
    ensures
        r == scene.wf(),
{
    let n: usize = scene.entities.len();
    let mut i: usize = 0;
    while i < n
        invariant
            i <= n,
            n == scene@.len(),
            forall|p: int, q: int| 0 <= p < q < scene@.len() && p < i ==> scene@[p].id != scene@[q].id,
        decreases n - i,
    {
        let mut j: usize = i + 1;
        while j < n
            invariant
                i < j <= n,
                n == scene@.len(),
                forall|q: int| i < q < j ==> scene@[i as int].id != scene@[q].id,
            decreases n - j,
        {
            if scene.entities[i].id == scene.entities[j].id {
                return false;
            }
            j += 1;
        }
        i += 1;
    }
    true
}

/// Find the row carrying `id`, if it is clickable.
pub fn find_clickable_index(scene: &Scene, id: u64) -> (r: Option<usize>)
    ensures
        match r {
            Some(i) => i < scene@.len() && scene@[i as int].id == id && scene@[i as int].clickable,
            None => !has_clickable(scene@, id),
        },
{
    let n: usize = scene.entities.len();
    let mut j: usize = 0;
    while j < n
        invariant
            j <= n,
            n == scene@.len(),
            forall|k: int| 0 <= k < j ==> !(scene@[k].id == id && scene@[k].clickable),
        decreases n - j,
    {
        let e = &scene.entities[j];
        if e.id == id && e.clickable {
            return Some(j);
        }
        j += 1;
    }
    None
}

} // verus!
