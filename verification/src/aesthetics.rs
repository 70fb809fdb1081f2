//! The pointer press/release resolver.
//!
//! On a press, the engine hands in the cursor position and the outcome of a
//! ray cast from the camera through that cursor into the physics world.
//! If the ray hit a clickable entity, that entity - and only that one -
//! gets drag state snapshotting its translation and the cursor position,
//! and the cursor glyph switches to a "move" indicator. A miss, or a hit
//! on an entity that is not clickable, starts no drag. On a release every
//! entity loses its drag state, however many carried it.

use vstd::prelude::*;

use crate::fixed::Vec2Fx;
use crate::scene::{
    Dragged, EntityRec, MouseButtonEvent, PickOutcome, Scene, find_clickable_index, find_id,
    has_clickable, ids_unique,
};

verus! {

/// The cursor glyph the window should show.
#[derive(Clone, Copy, PartialEq, Eq, Structural, Debug)]
pub enum CursorIcon {
    /// The ordinary arrow.
    Normal,
    /// The "move" indicator shown while something is grabbed.
    Move,
}

/// The table with drag state attached to the row at index `i`,
/// snapshotting that row's translation and the press cursor position.
pub open spec fn with_drag(s: Seq<EntityRec>, i: int, cursor: Vec2Fx) -> Seq<EntityRec> {
    s.update(
        i,
        EntityRec {
            id: s[i].id,
            translation: s[i].translation,
            yaw: s[i].yaw,
            clickable: s[i].clickable,
            dragged: Some(
                Dragged { start_position: s[i].translation, start_cursor_position: cursor },
            ),
        },
    )
}

/// The table with every row's drag state removed.
pub open spec fn all_released(s: Seq<EntityRec>) -> Seq<EntityRec> {
    s.map_values(
        |e: EntityRec| EntityRec {
            id: e.id,
            translation: e.translation,
            yaw: e.yaw,
            clickable: e.clickable,
            dragged: None,
        },
    )
}

/// What one pointer-button frame does: the new entity table and the cursor
/// glyph to show (`None` leaves the glyph as it is).
pub open spec fn mouse_icon_step(
    s: Seq<EntityRec>,
    event: MouseButtonEvent,
    cursor: Option<Vec2Fx>,
    pick: PickOutcome,
) -> (Seq<EntityRec>, Option<CursorIcon>) {
    match event {
        MouseButtonEvent::Pressed => match cursor {
            None => (s, None),
            Some(c) => match pick {
                PickOutcome::NoRay => (s, None),
                PickOutcome::Miss => (s, Some(CursorIcon::Normal)),
                PickOutcome::Hit(id) => if has_clickable(s, id) {
                    (with_drag(s, find_id(s, id), c), Some(CursorIcon::Move))
                } else {
                    (s, Some(CursorIcon::Normal))
                },
            },
        },
        MouseButtonEvent::Released => (all_released(s), Some(CursorIcon::Normal)),
        MouseButtonEvent::Neither => (s, None),
    }
}

/// Resolve one pointer-button frame against the entity table.
///
/// `pick` is the outcome the physics world reported for a ray cast from
/// the active camera through `cursor`; the caller performs that cast and
/// this function decides everything that follows from it.
pub fn change_mouse_icon(
    scene: &mut Scene,
    event: MouseButtonEvent,
    cursor: Option<Vec2Fx>,
    pick: PickOutcome,
) -> (icon: Option<CursorIcon>)
    requires
        old(scene).wf(),
    ensures
        final(scene).wf(),
        (final(scene)@, icon) == mouse_icon_step(old(scene)@, event, cursor, pick),
{
    match event {
        MouseButtonEvent::Pressed => {
            let c = match cursor {
                None => {
                    return None;
                },
                Some(c) => c,
            };
            match pick {
                PickOutcome::NoRay => None,
                PickOutcome::Miss => Some(CursorIcon::Normal),
                PickOutcome::Hit(id) => {
                    match find_clickable_index(scene, id) {
                        Some(i) => {
                            let mut e = scene.entities[i];
                            e.dragged = Some(
                                Dragged {
                                    start_position: e.translation,
                                    start_cursor_position: c,
                                },
                            );
                            scene.entities[i] = e;
                            proof {
                                let s = old(scene)@;
                                assert(has_clickable(s, id));
                                let k: int = find_id(s, id);
                                assert(0 <= k < s.len() && s[k].id == id);
                                assert(k == i as int);
                                assert(final(scene)@ =~= with_drag(s, k, c));
                            }
                            Some(CursorIcon::Move)
                        },
                        None => Some(CursorIcon::Normal),
                    }
                },
            }
        },
        MouseButtonEvent::Released => {
            let n: usize = scene.entities.len();
            let mut j: usize = 0;
            while j < n
                invariant
                    j <= n,
                    n == scene@.len(),
                    scene@.len() == old(scene)@.len(),
                    forall|k: int| 0 <= k < j ==> scene@[k] == all_released(old(scene)@)[k],
                    forall|k: int| j <= k < n ==> scene@[k] == old(scene)@[k],
                decreases n - j,
            {
                let mut e = scene.entities[j];
                e.dragged = None;
                scene.entities[j] = e;
                j += 1;
            }
            proof {
                assert(final(scene)@ =~= all_released(old(scene)@));
            }
            Some(CursorIcon::Normal)
        },
        MouseButtonEvent::Neither => None,
    }
}

/// Law: a ray cast that misses every collider never creates drag state -
/// the entity table comes back unchanged, and when a cursor position was
/// available the glyph falls back to the ordinary arrow.
pub proof fn lemma_miss_never_drags(s: Seq<EntityRec>, cursor: Option<Vec2Fx>)
    ensures
        mouse_icon_step(s, MouseButtonEvent::Pressed, cursor, PickOutcome::Miss).0 == s,
        cursor is Some ==> mouse_icon_step(s, MouseButtonEvent::Pressed, cursor, PickOutcome::Miss).1
            == Some(CursorIcon::Normal),
{
}

/// Law: a ray cast hitting an entity that is not clickable (or not in the
/// table at all) never creates drag state.
pub proof fn lemma_unclickable_hit_never_drags(s: Seq<EntityRec>, cursor: Option<Vec2Fx>, id: u64)
    requires
        !has_clickable(s, id),
    ensures
        mouse_icon_step(s, MouseButtonEvent::Pressed, cursor, PickOutcome::Hit(id)).0 == s,
        cursor is Some ==> mouse_icon_step(s, MouseButtonEvent::Pressed, cursor, PickOutcome::Hit(id)).1
            == Some(CursorIcon::Normal),
{
}

/// Law: a ray cast hitting a clickable entity creates drag state on exactly
/// that entity, and the stored start translation is the entity's translation
/// at that instant; every other row is untouched.
pub proof fn lemma_clickable_hit_drags_exactly(s: Seq<EntityRec>, c: Vec2Fx, id: u64)
    requires
        ids_unique(s),
        has_clickable(s, id),
    ensures
        ({
            let i: int = find_id(s, id);
            let (s2, icon) = mouse_icon_step(s, MouseButtonEvent::Pressed, Some(c), PickOutcome::Hit(id));
            &&& 0 <= i < s.len() && s[i].id == id && s[i].clickable
            &&& s2.len() == s.len()
            &&& s2[i].dragged == Some(
                Dragged { start_position: s[i].translation, start_cursor_position: c },
            )
            &&& s2[i].id == s[i].id && s2[i].translation == s[i].translation && s2[i].yaw == s[i].yaw
                && s2[i].clickable == s[i].clickable
            &&& forall|j: int| 0 <= j < s.len() && j != i ==> s2[j] == s[j]
            &&& icon == Some(CursorIcon::Move)
        }),
{
    let i: int = find_id(s, id);
    let w = choose|k: int| 0 <= k < s.len() && s[k].id == id && s[k].clickable;
    assert(0 <= w < s.len() && s[w].id == id);
    assert(0 <= i < s.len() && s[i].id == id);
    assert(i == w);
}

/// Law: the resolver keeps the data-model invariant that at most one
/// entity carries drag state. Starting from a table where none does, any
/// pointer-button frame leaves at most one row dragging.
pub proof fn lemma_at_most_one_drag(
    s: Seq<EntityRec>,
    event: MouseButtonEvent,
    cursor: Option<Vec2Fx>,
    pick: PickOutcome,
)
    requires
        ids_unique(s),
        forall|i: int| 0 <= i < s.len() ==> s[i].dragged is None,
    ensures
        ({
            let s2 = mouse_icon_step(s, event, cursor, pick).0;
            forall|i: int, j: int|
                0 <= i < j < s2.len() ==> !(s2[i].dragged is Some && s2[j].dragged is Some)
        }),
{
    let s2 = mouse_icon_step(s, event, cursor, pick).0;
    match event {
        MouseButtonEvent::Pressed => {
            match pick {
                PickOutcome::Hit(id) => {
                    if cursor is Some && has_clickable(s, id) {
                        let k: int = find_id(s, id);
                        assert(0 <= k < s.len() && s[k].id == id);
                        assert(forall|i: int|
                            0 <= i < s2.len() && i != k ==> s2[i].dragged is None);
                    }
                },
                _ => {},
            }
        },
        MouseButtonEvent::Released => {
            assert(forall|i: int| 0 <= i < s2.len() ==> s2[i].dragged is None);
        },
        MouseButtonEvent::Neither => {},
    }
}

/// Law: after a release, no entity retains drag state, however many rows
/// carried it beforehand; everything else about every row is kept.
pub proof fn lemma_release_clears_all(s: Seq<EntityRec>, cursor: Option<Vec2Fx>, pick: PickOutcome)
    ensures
        ({
            let (s2, icon) = mouse_icon_step(s, MouseButtonEvent::Released, cursor, pick);
            &&& s2.len() == s.len()
            &&& forall|i: int| 0 <= i < s.len() ==> s2[i].dragged is None
            &&& forall|i: int| 0 <= i < s.len() ==> s2[i].id == s[i].id
                && s2[i].translation == s[i].translation && s2[i].yaw == s[i].yaw
                && s2[i].clickable == s[i].clickable
            &&& icon == Some(CursorIcon::Normal)
        }),
{
}

} // verus!
