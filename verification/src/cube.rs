//! The click-to-recolor interaction.
//!
//! On a pointer press, a ray cast through the cursor may hit a clickable
//! cube; that cube's material is then replaced with a freshly drawn random
//! color. Drawing the color and swapping the material are the host
//! engine's work; this module makes the one decision in the interaction:
//! which entity, if any, is to be recolored this frame.

use vstd::prelude::*;

use crate::fixed::Vec2Fx;
use crate::scene::{EntityRec, PickOutcome, Scene, find_clickable_index, has_clickable};

verus! {

/// The entity whose material a pointer press replaces: the ray-cast hit,
/// when there was a press, a cursor position, and the hit entity is
/// clickable; no entity otherwise.
pub open spec fn color_click_target(
    s: Seq<EntityRec>,
    pressed: bool,
    cursor: Option<Vec2Fx>,
    pick: PickOutcome,
) -> Option<u64> {
    match pick {
        PickOutcome::Hit(id) => if pressed && cursor is Some && has_clickable(s, id) {
            Some(id)
        } else {
            None
        },
        _ => None,
    }
}

/// Decide which entity, if any, gets a new random color this frame.
///
/// `pick` is the outcome the physics world reported for a ray cast from
/// the active camera through `cursor`; the caller performs that cast and
/// draws the color for the entity this returns.
pub fn change_color_on_click_system(
    scene: &Scene,
    pressed: bool,
    cursor: Option<Vec2Fx>,
    pick: PickOutcome,
) -> (target: Option<u64>)
    ensures
        target == color_click_target(scene@, pressed, cursor, pick),
{
    if !pressed {
        return None;
    }
    if cursor.is_none() {
        return None;
    }
    match pick {
        PickOutcome::Hit(id) => {
            match find_clickable_index(scene, id) {
                Some(_) => Some(id),
                None => None,
            }
        },
        _ => None,
    }
}

} // verus!
