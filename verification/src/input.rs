//! The input interpreter: one frame's pointer and key events become geometry
//! mutations, driven by a two-state machine (Idle / Extending) over the hole
//! collection.

use vstd::prelude::*;

use crate::geometry::EditingState;
use crate::geometry::GeometryStore;
use crate::geometry::InvariantViolation;
use crate::geometry::Point;
use crate::geometry::StoreView;

verus! {

/// The discrete input events of one frame, as the windowing layer reports
/// them: whether the primary pointer button was just pressed, which modifier
/// keys are held, whether the hole modifier was just released, and the
/// pointer's projected world-space position (`None` when the pointer is
/// outside the viewport, in which case no click may mutate the geometry).
#[derive(Clone, Copy, Debug)]
pub struct FrameInput {
    pub primary_click: bool,
    pub map_key_held: bool,
    pub hole_key_held: bool,
    pub hole_key_released: bool,
    pub pointer: Option<Point>,
}

/// The map branch fires on a primary click with the map modifier held.
pub open spec fn fires_map(i: FrameInput) -> bool {
    i.primary_click && i.map_key_held
}

/// The hole branch fires on a primary click with the hole modifier held.
/// The two branches are tested independently: a click with both modifiers
/// held fires both, mutating the map and the holes from one gesture.
pub open spec fn fires_hole(i: FrameInput) -> bool {
    i.primary_click && i.hole_key_held
}

/// The unreachable-by-design defect: the hole branch asks to extend the
/// current hole while the hole collection is empty.
pub open spec fn hole_defect(v: StoreView, i: FrameInput) -> bool {
    &&& fires_hole(i)
    &&& i.pointer is Some
    &&& v.state is Extending
    &&& v.holes.len() == 0
}

/// Effect of the map branch on the document.
pub open spec fn after_map(v: StoreView, i: FrameInput) -> StoreView {
    if fires_map(i) && i.pointer is Some {
        StoreView { map: v.map.push(i.pointer->Some_0), ..v }
    } else {
        v
    }
}

/// Effect of the hole branch on the document: extend the last hole while
/// Extending, else open a new single-point hole and move to Extending.
pub open spec fn after_hole(v: StoreView, i: FrameInput) -> StoreView {
    if fires_hole(i) && i.pointer is Some {
        if v.state is Extending {
            StoreView {
                holes: v.holes.update(v.holes.len() - 1, v.holes.last().push(i.pointer->Some_0)),
                ..v
            }
        } else {
            StoreView {
                holes: v.holes.push(seq![i.pointer->Some_0]),
                state: EditingState::Extending,
                ..v
            }
        }
    } else {
        v
    }
}

/// Effect of a hole-key release: the state returns to Idle; the geometry
/// itself never moves on a release.
pub open spec fn after_release(v: StoreView, i: FrameInput) -> StoreView {
    if i.hole_key_released {
        StoreView { state: EditingState::Idle, ..v }
    } else {
        v
    }
}

/// One whole frame, in the order the events are processed: the map branch,
/// then the hole branch, then the release.
pub open spec fn frame_step(v: StoreView, i: FrameInput) -> StoreView {
    after_release(after_hole(after_map(v, i), i), i)
}

/// How many clicks of this frame are ignored because the pointer is outside
/// the viewport; each one is owed exactly one diagnostic.
pub open spec fn ignored_clicks(i: FrameInput) -> int {
    (if fires_map(i) && i.pointer is None { 1int } else { 0int })
    + (if fires_hole(i) && i.pointer is None { 1int } else { 0int })
}

/// Apply one frame of input to the document. On success the document is
/// exactly `frame_step` of its old value and the returned count says how
/// many clicks were ignored for want of a pointer position. `Err` reports
/// the unrecoverable defect (extending with no hole): the map branch has
/// then already been applied, and the hole collection and state are as they
/// were — the caller is expected to abort, not to continue.
pub fn apply_frame(store: &mut GeometryStore, input: &FrameInput) -> (r: Result<
    u32,
    InvariantViolation,
>)
    ensures
        r is Ok <==> !hole_defect(old(store)@, *input),
        r is Ok ==> final(store)@ =~~= frame_step(old(store)@, *input),
        r is Ok ==> r->Ok_0 == ignored_clicks(*input),
        r is Err ==> final(store)@ =~~= after_map(old(store)@, *input),
{
    let mut diags: u32 = 0;
    if input.primary_click && input.map_key_held {
        match input.pointer {
            Some(p) => store.append_to_map(p),
            None => diags = diags + 1,
        }
    }
    if input.primary_click && input.hole_key_held {
        match input.pointer {
            Some(p) => {
                match store.editing_state() {
                    EditingState::Extending => {
                        match store.append_to_current_hole(p) {
                            Ok(()) => {},
                            Err(e) => {
                                return Err(e);
                            },
                        }
                    },
                    EditingState::Idle => store.start_new_hole(p),
                }
            },
            None => diags = diags + 1,
        }
    }
    if input.hole_key_released {
        store.finish_hole();
    }
    Ok(diags)
}

/// Law: a hole click while Idle always creates exactly one new hole, of
/// length one, and moves the state to Extending.
pub proof fn lemma_hole_click_while_idle_starts_hole(v: StoreView, i: FrameInput)
    requires
        fires_hole(i),
        i.pointer is Some,
        v.state is Idle,
    ensures
        after_hole(v, i).holes =~~= v.holes.push(seq![i.pointer->Some_0]),
        after_hole(v, i).holes.last().len() == 1,
        after_hole(v, i).state is Extending,
{
}

/// Law: while Extending, no frame can create a hole — the transition table
/// only reaches the append, so the number of holes never grows.
pub proof fn lemma_extending_never_starts_hole(v: StoreView, i: FrameInput)
    requires
        v.state is Extending,
        !hole_defect(v, i),
    ensures
        frame_step(v, i).holes.len() == v.holes.len(),
{
}

/// Law: a release never moves the geometry — map and holes are identical
/// before and after it, whatever else the frame holds.
pub proof fn lemma_release_touches_no_geometry(v: StoreView, i: FrameInput)
    ensures
        after_release(v, i).map =~= v.map,
        after_release(v, i).holes =~~= v.holes,
{
}

/// Law: releasing the hole key while Idle, in a frame with no click, is a
/// complete no-op: the document after the frame equals the document before.
pub proof fn lemma_release_while_idle_is_noop(v: StoreView, i: FrameInput)
    requires
        v.state is Idle,
        !i.primary_click,
        i.hole_key_released,
    ensures
        frame_step(v, i) =~~= v,
{
}

} // verus!
