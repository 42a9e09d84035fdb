//! The drag-and-drop state machine shared by all draggable regions.
use vstd::prelude::*;

use crate::types::Vec2;
use crate::Id;

verus! {

/// Pixels the pointer must travel from where it was pressed before a press becomes a drag.
pub const DRAG_THRESHOLD: i32 = 5;

/// The phase of the one drag in progress.
#[derive(Copy, Clone, Debug, PartialEq, Eq, Structural)]
pub enum DragState {
    /// Pressed at the given point, not yet moved far enough.
    Clicked(Vec2),
    /// Being dragged; the point is where it was pressed.
    Dragging(Vec2),
}

/// What a draggable region reports to its caller in one frame.
#[derive(Copy, Clone, Debug, PartialEq, Eq, Structural)]
pub enum Drag {
    No,
    /// Being dragged: the pointer, and the other region under it last frame.
    Dragging(Vec2, Option<Id>),
    /// Released: the pointer, and the other region under it last frame.
    Dropped(Vec2, Option<Id>),
}

/// The pointer as one draggable region sees it in one frame.
#[derive(Copy, Clone, Debug, PartialEq, Eq, Structural)]
pub struct PointerFrame {
    pub position: Vec2,
    pub is_mouse_down: bool,
    pub click_down: bool,
    /// Whether the pointer is over the region.
    pub hovered: bool,
}

/// The outcome of one frame of the drag machine for one region.
#[derive(Copy, Clone, Debug)]
pub struct DragStep {
    /// The drag in progress afterwards, and the region that owns it.
    pub dragging: Option<(Id, DragState)>,
    /// What the region reports.
    pub drag: Drag,
    /// Whether the region is the other region under a drag owned by someone else.
    pub drop_target: bool,
}

/// The drag in progress after a press may have started one.
pub open spec fn after_press(
    dragging: Option<(Id, DragState)>,
    id: Id,
    draggable: bool,
    p: PointerFrame,
) -> Option<(Id, DragState)> {
    if draggable && dragging.is_none() && p.hovered && p.click_down {
        Some((id, DragState::Clicked(p.position)))
    } else {
        dragging
    }
}

/// The drag in progress after a press may have turned into a drag, or been let go.
pub open spec fn after_move(dragging: Option<(Id, DragState)>, id: Id, p: PointerFrame) -> Option<
    (Id, DragState),
> {
    match dragging {
        Some((owner, DragState::Clicked(origin))) => {
            if !p.is_mouse_down {
                None
            } else if owner == id && p.position.spec_farther_than(origin, DRAG_THRESHOLD as int) {
                Some((id, DragState::Dragging(origin)))
            } else {
                dragging
            }
        },
        _ => dragging,
    }
}

/// One frame of the drag machine, as seen by region `id`.
pub open spec fn spec_drag_step(
    dragging: Option<(Id, DragState)>,
    id: Id,
    draggable: bool,
    p: PointerFrame,
    hovered_previous_frame: Option<Id>,
) -> DragStep {
    let d = after_move(after_press(dragging, id, draggable, p), id, p);
    match d {
        Some((owner, DragState::Dragging(_))) => {
            if owner == id {
                if p.is_mouse_down {
                    DragStep {
                        dragging: d,
                        drag: Drag::Dragging(p.position, hovered_previous_frame),
                        drop_target: false,
                    }
                } else {
                    DragStep {
                        dragging: None,
                        drag: Drag::Dropped(p.position, hovered_previous_frame),
                        drop_target: false,
                    }
                }
            } else {
                DragStep { dragging: d, drag: Drag::No, drop_target: p.hovered }
            }
        },
        _ => DragStep { dragging: d, drag: Drag::No, drop_target: false },
    }
}

/// Runs one frame of the drag machine for region `id`.
pub fn drag_step(
    dragging: Option<(Id, DragState)>,
    id: Id,
    draggable: bool,
    p: PointerFrame,
    hovered_previous_frame: Option<Id>,
) -> (r: DragStep)
    ensures
        r == spec_drag_step(dragging, id, draggable, p, hovered_previous_frame),
{
    let mut dragging = dragging;
    let mut drag = Drag::No;
    let mut drop_target = false;
    if draggable && dragging.is_none() && p.hovered && p.click_down {
        dragging = Some((id, DragState::Clicked(p.position)));
    }
    if let Some((owner, DragState::Clicked(origin))) = dragging {
        if owner == id && p.is_mouse_down && p.position.farther_than(origin, DRAG_THRESHOLD) {
            dragging = Some((id, DragState::Dragging(origin)));
        }
        if !p.is_mouse_down {
            dragging = None;
        }
    }
    if let Some((owner, DragState::Dragging(_))) = dragging {
        if owner == id {
            drag = Drag::Dragging(p.position, hovered_previous_frame);
            if !p.is_mouse_down {
                dragging = None;
                drag = Drag::Dropped(p.position, hovered_previous_frame);
            }
        } else if p.hovered {
            drop_target = true;
        }
    }
    DragStep { dragging, drag, drop_target }
}

/// The results of running the drag machine for region `id` over a run of frames.
pub open spec fn drag_run(
    dragging: Option<(Id, DragState)>,
    id: Id,
    frames: Seq<PointerFrame>,
    hovered_previous_frame: Option<Id>,
) -> Seq<DragStep>
    decreases frames.len(),
{
    if frames.len() == 0 {
        Seq::empty()
    } else {
        let s = spec_drag_step(dragging, id, true, frames[0], hovered_previous_frame);
        seq![s] + drag_run(s.dragging, id, frames.drop_first(), hovered_previous_frame)
    }
}

/// A run has one result per frame.
pub proof fn lemma_drag_run_len(
    dragging: Option<(Id, DragState)>,
    id: Id,
    frames: Seq<PointerFrame>,
    hovered_previous_frame: Option<Id>,
)
    ensures
        drag_run(dragging, id, frames, hovered_previous_frame).len() == frames.len(),
    decreases frames.len(),
{
    if frames.len() > 0 {
        let s = spec_drag_step(dragging, id, true, frames[0], hovered_previous_frame);
        lemma_drag_run_len(s.dragging, id, frames.drop_first(), hovered_previous_frame);
    }
}

/// A press, a move beyond the threshold and a release take the machine from idle
/// through `Clicked` and `Dragging` back to idle, and report exactly one `Dropped`:
/// on the release.
pub proof fn lemma_press_move_release(
    id: Id,
    press: PointerFrame,
    hold: PointerFrame,
    release: PointerFrame,
    hovered_previous_frame: Option<Id>,
)
    requires
        press.click_down && press.hovered && press.is_mouse_down,
        hold.is_mouse_down && !hold.click_down,
        hold.position.spec_farther_than(press.position, DRAG_THRESHOLD as int),
        !release.is_mouse_down && !release.click_down,
    ensures
        ({
            let run = drag_run(None, id, seq![press, hold, release], hovered_previous_frame);
            &&& run.len() == 3
            &&& run[0].dragging == Some((id, DragState::Clicked(press.position)))
            &&& run[1].dragging == Some((id, DragState::Dragging(press.position)))
            &&& run[2].dragging.is_none()
            &&& run[0].drag == Drag::No
            &&& run[1].drag == Drag::Dragging(hold.position, hovered_previous_frame)
            &&& run[2].drag == Drag::Dropped(release.position, hovered_previous_frame)
        }),
{
    let frames = seq![press, hold, release];
    let s0 = spec_drag_step(None, id, true, press, hovered_previous_frame);
    assert(!press.position.spec_farther_than(press.position, DRAG_THRESHOLD as int));
    let s1 = spec_drag_step(s0.dragging, id, true, hold, hovered_previous_frame);
    let s2 = spec_drag_step(s1.dragging, id, true, release, hovered_previous_frame);
    assert(frames.drop_first() =~= seq![hold, release]);
    assert(seq![hold, release].drop_first() =~= seq![release]);
    assert(seq![release].drop_first() =~= Seq::<PointerFrame>::empty());
    let r2 = drag_run(s2.dragging, id, Seq::<PointerFrame>::empty(), hovered_previous_frame);
    assert(r2 =~= Seq::<DragStep>::empty());
    let r1 = drag_run(s1.dragging, id, seq![release], hovered_previous_frame);
    assert(r1 =~= seq![s2]);
    let r0 = drag_run(s0.dragging, id, seq![hold, release], hovered_previous_frame);
    assert(r0 =~= seq![s1, s2]);
    assert(drag_run(None, id, frames, hovered_previous_frame) =~= seq![s0, s1, s2]);
}

/// A press that never travels more than the threshold from where it began never
/// becomes a drag and drops nothing, however long it is held and whenever it is
/// released: every frame leaves the machine idle or `Clicked` at the press point,
/// and reports `Drag::No`.
pub proof fn lemma_short_press_never_drags(
    id: Id,
    origin: Vec2,
    frames: Seq<PointerFrame>,
    hovered_previous_frame: Option<Id>,
)
    requires
        forall|i: int|
            0 <= i < frames.len() ==> !(#[trigger] frames[i]).position.spec_farther_than(
                origin,
                DRAG_THRESHOLD as int,
            ),
        frames.len() > 0 ==> frames[0].click_down && frames[0].hovered && frames[0].position
            == origin,
        forall|i: int| 1 <= i < frames.len() ==> !(#[trigger] frames[i]).click_down,
    ensures
        forall|i: int|
            0 <= i < frames.len() ==> {
                let s = #[trigger] drag_run(None, id, frames, hovered_previous_frame)[i];
                &&& s.drag == Drag::No
                &&& (s.dragging == Some((id, DragState::Clicked(origin))) || s.dragging.is_none())
            },
    decreases frames.len(),
{
    if frames.len() > 0 {
        let s = spec_drag_step(None, id, true, frames[0], hovered_previous_frame);
        let rest = frames.drop_first();
        assert forall|i: int| 0 <= i < rest.len() implies !(#[trigger] rest[i]).click_down
            && !rest[i].position.spec_farther_than(origin, DRAG_THRESHOLD as int) by {
            assert(rest[i] == frames[i + 1]);
        }
        lemma_short_press_continues(id, origin, s.dragging, rest, hovered_previous_frame);
        let run = drag_run(None, id, frames, hovered_previous_frame);
        lemma_drag_run_len(s.dragging, id, rest, hovered_previous_frame);
        assert(run == seq![s] + drag_run(s.dragging, id, rest, hovered_previous_frame));
        assert forall|i: int| 0 <= i < frames.len() implies {
            let t = #[trigger] run[i];
            &&& t.drag == Drag::No
            &&& (t.dragging == Some((id, DragState::Clicked(origin))) || t.dragging.is_none())
        } by {
            if i > 0 {
                assert(run[i] == drag_run(s.dragging, id, rest, hovered_previous_frame)[i - 1]);
            }
        }
    }
}

/// The inner step of [`lemma_short_press_never_drags`], from any state that is idle or
/// `Clicked` at the press point.
proof fn lemma_short_press_continues(
    id: Id,
    origin: Vec2,
    dragging: Option<(Id, DragState)>,
    frames: Seq<PointerFrame>,
    hovered_previous_frame: Option<Id>,
)
    requires
        dragging == Some((id, DragState::Clicked(origin))) || dragging.is_none(),
        forall|i: int|
            0 <= i < frames.len() ==> !(#[trigger] frames[i]).position.spec_farther_than(
                origin,
                DRAG_THRESHOLD as int,
            ),
        forall|i: int| 0 <= i < frames.len() ==> !(#[trigger] frames[i]).click_down,
    ensures
        forall|i: int|
            0 <= i < frames.len() ==> {
                let s = #[trigger] drag_run(dragging, id, frames, hovered_previous_frame)[i];
                &&& s.drag == Drag::No
                &&& (s.dragging == Some((id, DragState::Clicked(origin))) || s.dragging.is_none())
            },
    decreases frames.len(),
{
    if frames.len() > 0 {
        let s = spec_drag_step(dragging, id, true, frames[0], hovered_previous_frame);
        let rest = frames.drop_first();
        assert forall|i: int| 0 <= i < rest.len() implies !(#[trigger] rest[i]).click_down
            && !rest[i].position.spec_farther_than(origin, DRAG_THRESHOLD as int) by {
            assert(rest[i] == frames[i + 1]);
        }
        lemma_short_press_continues(id, origin, s.dragging, rest, hovered_previous_frame);
        let run = drag_run(dragging, id, frames, hovered_previous_frame);
        lemma_drag_run_len(s.dragging, id, rest, hovered_previous_frame);
        assert(run == seq![s] + drag_run(s.dragging, id, rest, hovered_previous_frame));
        assert forall|i: int| 0 <= i < frames.len() implies {
            let t = #[trigger] run[i];
            &&& t.drag == Drag::No
            &&& (t.dragging == Some((id, DragState::Clicked(origin))) || t.dragging.is_none())
        } by {
            if i > 0 {
                assert(run[i] == drag_run(s.dragging, id, rest, hovered_previous_frame)[i - 1]);
            }
        }
    }
}

} // verus!
