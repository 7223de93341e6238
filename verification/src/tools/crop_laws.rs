//! What holds of the crop tool as a whole.

use vstd::prelude::*;

use super::crop::{
    dragged_crop, handle_pos, Crop, CropHandle, CropToolAction, CropToolView, DragHandleState,
    MoveState, HANDLE_BORDER, HANDLE_RADIUS,
};
use crate::canvas::{DrawOp, Ink};
use crate::math::{positive_rect, Vec2D};
use crate::math_laws::{greater, law_length_of_a_vector, law_whole_pixel_quotients, lesser};
use crate::scalar::{Scalar, EXACT};
use crate::sketch_board::{
    Key, KeyEventMsg, MouseButton, MouseEventMsg, MouseEventType, SketchBoardInput,
    SketchBoardOutput, ToolUpdateResult,
};

verus! {

/// The tool after the mouse was dragged to each of the given places in turn.
pub open spec fn dragged_along<S: Scalar>(
    tool: CropToolView<S>,
    directions: Seq<Vec2D<S>>,
) -> CropToolView<S>
    decreases directions.len(),
{
    if directions.len() == 0 {
        tool
    } else {
        dragged_along(tool, directions.drop_last()).update_drag(directions.last())
    }
}

/// Releasing the mouse finishes the crop: it stays, and is not edited any more.
pub proof fn law_release_finishes_the_crop<S: Scalar>(tool: CropToolView<S>, direction: Vec2D<S>)
    requires
        tool.dragging(),
    ensures
        tool.end_drag(direction).crop matches Some(c) && !c.editing,
        tool.end_drag(direction).action is None,
{
}

/// A crop that is not being edited leaves every key to its other handlers, and stays as it is.
pub proof fn law_finished_crop_leaves_keys_alone<S: Scalar>(
    tool: CropToolView<S>,
    event: KeyEventMsg,
)
    requires
        !tool.editing(),
    ensures
        tool.key_event(event) == (tool, ToolUpdateResult::<Crop<S>>::Unmodified),
{
}

/// An event that resets a crop goes nowhere else, and only such an event is answered so.
pub proof fn law_reset_swallows_its_event<S: Scalar>(
    tool: CropToolView<S>,
    key: KeyEventMsg,
    mouse: MouseEventMsg<S>,
)
    requires
        tool.crop is Some,
    ensures
        tool.key_event(key).0.crop is None <==> tool.key_event(key).1 is RedrawAndStopPropagation,
        tool.mouse_event(mouse).0.crop is None <==> tool.mouse_event(
            mouse,
        ).1 is RedrawAndStopPropagation,
{
}

/// Escape while a crop is edited resets it, and is not seen by anybody else.
pub proof fn law_escape_resets_an_edited_crop<S: Scalar>(
    tool: CropToolView<S>,
    event: KeyEventMsg,
)
    requires
        tool.editing(),
        event.key == Key::Escape,
    ensures
        tool.key_event(event).0.crop is None,
        tool.key_event(event).1 is RedrawAndStopPropagation,
{
}

/// Control and a click of the secondary button reset a crop, finished or not. Without a crop the
/// click is left to its other handlers.
pub proof fn law_control_secondary_click<S: Scalar>(
    tool: CropToolView<S>,
    event: MouseEventMsg<S>,
)
    requires
        event.type_ == MouseEventType::Click,
        event.button == MouseButton::Secondary,
        event.modifier.control,
    ensures
        tool.crop is Some ==> tool.mouse_event(event) == (
            tool.dismissed(),
            ToolUpdateResult::<Crop<S>>::RedrawAndStopPropagation,
        ),
        tool.crop is None ==> tool.mouse_event(event) == (
            tool,
            ToolUpdateResult::<Crop<S>>::Unmodified,
        ),
{
}

/// The tool never commits anything: a crop is not one of the drawables.
pub proof fn law_crop_never_commits<S: Scalar>(
    tool: CropToolView<S>,
    key: KeyEventMsg,
    mouse: MouseEventMsg<S>,
)
    ensures
        !(tool.key_event(key).1 is Commit),
        !(tool.mouse_event(mouse).1 is Commit),
{
}

/// A crop is being edited exactly while a drag goes on, whatever happens.
pub proof fn law_editing_means_dragging<S: Scalar>(
    tool: CropToolView<S>,
    key: KeyEventMsg,
    mouse: MouseEventMsg<S>,
)
    requires
        tool.wf(),
    ensures
        tool.key_event(key).0.wf(),
        tool.mouse_event(mouse).0.wf(),
        tool.deactivated().wf(),
        tool.dismissed().wf(),
{
}

proof fn lemma_updates_keep_the_drag<S: Scalar>(
    tool: CropToolView<S>,
    directions: Seq<Vec2D<S>>,
    direction: Vec2D<S>,
)
    requires
        tool.dragging(),
    ensures
        ({
            let after = dragged_along(tool, directions);
            &&& after.dragging()
            &&& after.action == tool.action
            &&& after.sender == tool.sender
            &&& after.input_enabled == tool.input_enabled
            &&& after.crop->0.editing == tool.crop->0.editing
            &&& dragged_crop(after.crop->0, tool.action->0, direction) == dragged_crop(
                tool.crop->0,
                tool.action->0,
                direction,
            )
        }),
    decreases directions.len(),
{
    if directions.len() > 0 {
        lemma_updates_keep_the_drag(tool, directions.drop_last(), direction);
    }
}

/// Where a drag went on its way does not matter: the crop depends on where it ended alone.
pub proof fn law_only_the_end_of_a_drag_counts<S: Scalar>(
    tool: CropToolView<S>,
    directions: Seq<Vec2D<S>>,
    direction: Vec2D<S>,
)
    requires
        tool.dragging(),
    ensures
        dragged_along(tool, directions).end_drag(direction).crop == tool.end_drag(direction).crop,
        dragged_along(tool, directions).end_drag(direction).action is None,
{
    lemma_updates_keep_the_drag(tool, directions, direction);
}

/// A press, a drag and the release draw a crop from the press to the release, where there was
/// none.
pub proof fn law_drawing_a_crop<S: Scalar>(
    tool: CropToolView<S>,
    pos: Vec2D<S>,
    directions: Seq<Vec2D<S>>,
    size: Vec2D<S>,
)
    requires
        tool.crop is None,
    ensures
        dragged_along(tool.begin_drag(pos), directions).end_drag(size).crop == Some(
            (Crop { pos, size, editing: false }),
        ),
{
    lemma_updates_keep_the_drag(tool.begin_drag(pos), directions, size);
}

/// Moving a crop does not change its size.
pub proof fn law_moving_keeps_the_size<S: Scalar>(
    tool: CropToolView<S>,
    directions: Seq<Vec2D<S>>,
    direction: Vec2D<S>,
)
    requires
        tool.dragging(),
        tool.action->0 is Move,
    ensures
        dragged_along(tool, directions).end_drag(direction).crop->0.size == tool.crop->0.size,
{
    lemma_updates_keep_the_drag(tool, directions, direction);
}

/// The message that tells the size of the cropped area.
pub open spec fn size_notice<S: Scalar>(crop: Option<Crop<S>>) -> SketchBoardInput {
    SketchBoardInput::Output(
        SketchBoardOutput::DimensionsUpdate(
            match crop {
                Some(c) => {
                    let size = positive_rect(c.pos, c.size).1;
                    Some((size.x.spec_to_nearest(), size.y.spec_to_nearest()))
                },
                None => None,
            },
        ),
    )
}

/// With a channel, the sketch board is told of every change of the size of a crop: when a drag
/// ends, while one goes on that does not only move the crop, and when the crop is reset.
pub proof fn law_size_is_told<S: Scalar>(tool: CropToolView<S>, direction: Vec2D<S>)
    requires
        tool.sender is Some,
    ensures
        tool.dismissed().outbox == tool.outbox.push(size_notice::<S>(None)),
        tool.dragging() ==> tool.end_drag(direction).outbox == tool.outbox.push(
            size_notice(tool.end_drag(direction).crop),
        ),
        tool.dragging() && !(tool.action->0 is Move) ==> tool.update_drag(direction).outbox
            == tool.outbox.push(size_notice(tool.update_drag(direction).crop)),
{
}

/// No event takes a message back or sends more than one, and without a channel none is sent.
pub proof fn law_messages_are_kept<S: Scalar>(
    tool: CropToolView<S>,
    key: KeyEventMsg,
    mouse: MouseEventMsg<S>,
)
    ensures
        tool.outbox.is_prefix_of(tool.key_event(key).0.outbox),
        tool.outbox.is_prefix_of(tool.mouse_event(mouse).0.outbox),
        tool.key_event(key).0.outbox.len() <= tool.outbox.len() + 1,
        tool.mouse_event(mouse).0.outbox.len() <= tool.outbox.len() + 1,
        tool.sender is None ==> tool.key_event(key).0.outbox == tool.outbox,
        tool.sender is None ==> tool.mouse_event(mouse).0.outbox == tool.outbox,
{
}

/// Handles are drawn for as long as a crop exists: a crop that is being edited and one that is
/// finished look the same.
pub proof fn law_finished_crop_keeps_its_handles<S: Scalar>(
    edited: Crop<S>,
    finished: Crop<S>,
    scale: S,
    bounds: (Vec2D<S>, Vec2D<S>),
)
    requires
        edited.pos == finished.pos,
        edited.size == finished.size,
    ensures
        edited.spec_draw(scale, bounds) == finished.spec_draw(scale, bounds),
{
}

/// Every handle is drawn, at the place at which it is grabbed.
pub proof fn law_every_handle_is_drawn<S: Scalar>(
    crop: Crop<S>,
    scale: S,
    bounds: (Vec2D<S>, Vec2D<S>),
    handle: CropHandle,
)
    ensures
        exists|i: int|
            0 <= i && i + 2 <= crop.spec_draw(scale, bounds).len()
                && #[trigger] crop.spec_draw(scale, bounds).subrange(i, i + 2)
                == Crop::<S>::spec_draw_single_handle(
                handle_pos(crop.pos, crop.size, handle),
                scale,
            ),
{
    let i: int = match handle {
        CropHandle::TopLeftCorner => 3,
        CropHandle::TopEdge => 5,
        CropHandle::TopRightCorner => 7,
        CropHandle::LeftEdge => 9,
        CropHandle::BottomLeftCorner => 11,
        CropHandle::BottomEdge => 13,
        CropHandle::BottomRightCorner => 15,
        CropHandle::RightEdge => 17,
    };
    assert(crop.spec_draw(scale, bounds).subrange(i, i + 2) =~= Crop::<S>::spec_draw_single_handle(
        handle_pos(crop.pos, crop.size, handle),
        scale,
    ));
}

// ---------------------------------------------------------------------------------------------
// Geometry, in whole pixels

/// Whether a vector is within the bound.
pub open spec fn exact(v: Vec2D<i64>) -> bool {
    -EXACT <= v.x <= EXACT && -EXACT <= v.y <= EXACT
}

/// The rectangle of a crop has no negative size, and a rectangle without one stays as it is.
pub proof fn law_rectangle_is_positive(pos: Vec2D<i64>, size: Vec2D<i64>)
    ensures
        positive_rect(pos, size).1.x >= 0,
        positive_rect(pos, size).1.y >= 0,
        size.x >= 0 && size.y >= 0 ==> positive_rect(pos, size) == (pos, size),
        positive_rect(positive_rect(pos, size).0, positive_rect(pos, size).1) == positive_rect(
            pos,
            size,
        ),
{
}

/// The rectangle of a crop is the area that a press counts as inside, whichever way the crop was
/// drawn.
pub proof fn law_rectangle_is_the_inside(crop: Crop<i64>, mouse_pos: Vec2D<i64>)
    requires
        exact(crop.pos),
        exact(crop.size),
    ensures
        ({
            let (pos, size) = positive_rect(crop.pos, crop.size);
            crop.spec_inside(mouse_pos, 0) <==> pos.x < mouse_pos.x < pos.x + size.x && pos.y
                < mouse_pos.y < pos.y + size.y
        }),
{
}

/// Whether dragging a handle moves the left, the upper, the right and the lower edge.
pub open spec fn moved_edges(handle: CropHandle) -> (bool, bool, bool, bool) {
    match handle {
        CropHandle::TopLeftCorner => (true, true, false, false),
        CropHandle::TopEdge => (false, true, false, false),
        CropHandle::TopRightCorner => (false, true, true, false),
        CropHandle::RightEdge => (false, false, true, false),
        CropHandle::BottomRightCorner => (false, false, true, true),
        CropHandle::BottomEdge => (false, false, false, true),
        CropHandle::BottomLeftCorner => (true, false, false, true),
        CropHandle::LeftEdge => (true, false, false, false),
    }
}

/// Dragging a handle moves the edges that it is named after, by as much as it is dragged, and no
/// others.
pub proof fn law_handle_moves_its_edges(
    crop: Crop<i64>,
    state: DragHandleState<i64>,
    direction: Vec2D<i64>,
)
    requires
        exact(state.top_left_start),
        exact(state.bottom_right_start),
        exact(direction),
    ensures
        ({
            let after = dragged_crop(crop, CropToolAction::DragHandle(state), direction);
            let (left, top, right, bottom) = moved_edges(state.handle);
            &&& after.pos.x == state.top_left_start.x + (if left { direction.x as int } else { 0 })
            &&& after.pos.y == state.top_left_start.y + (if top { direction.y as int } else { 0 })
            &&& after.pos.x + after.size.x == state.bottom_right_start.x + (if right {
                direction.x as int
            } else {
                0
            })
            &&& after.pos.y + after.size.y == state.bottom_right_start.y + (if bottom {
                direction.y as int
            } else {
                0
            })
        }),
{
}

/// A press on a crop that is released where it began leaves the crop where it is.
pub proof fn law_drag_by_nothing(tool: CropToolView<i64>, pos: Vec2D<i64>)
    requires
        tool.crop matches Some(c) && exact(c.pos) && exact(c.size),
        !(tool.drag_action(pos) is NewCrop),
    ensures
        tool.begin_drag(pos).end_drag(Vec2D::spec_zero()).crop == Some(
            (Crop { editing: false, ..tool.crop->0 }),
        ),
{
}

proof fn lemma_closest_of_first(crop: Crop<i64>, mouse_pos: Vec2D<i64>, n: nat)
    requires
        n <= 8,
    ensures
        ({
            let best = crop.closest_of_first(mouse_pos, n);
            &&& forall|i: int|
                0 <= i < n ==> best.1 <= crop.distance2(
                    #[trigger] CropHandle::spec_all()[i],
                    mouse_pos,
                )
            &&& n > 0 ==> best.1 == crop.distance2(best.0, mouse_pos)
            &&& n > 0 ==> exists|k: int|
                0 <= k < n && best.0 == #[trigger] CropHandle::spec_all()[k] && forall|i: int|
                    0 <= i < k ==> best.1 < crop.distance2(
                        #[trigger] CropHandle::spec_all()[i],
                        mouse_pos,
                    )
        }),
    decreases n,
{
    if n > 0 {
        lemma_closest_of_first(crop, mouse_pos, (n - 1) as nat);
        let last = CropHandle::spec_all()[n - 1];
        let before = crop.closest_of_first(mouse_pos, (n - 1) as nat);
        let best = crop.closest_of_first(mouse_pos, n);
        if crop.distance2(last, mouse_pos) < before.1 {
            assert(best.0 == CropHandle::spec_all()[n - 1]);
        } else if n == 1 {
            assert(best.0 == CropHandle::spec_all()[0]);
        }
    }
}

/// The closest handle is no farther away than any other, and the first of those at its distance.
pub proof fn law_closest_handle(crop: Crop<i64>, mouse_pos: Vec2D<i64>)
    ensures
        ({
            let (handle, distance2) = crop.spec_closest_handle(mouse_pos);
            &&& distance2 == crop.distance2(handle, mouse_pos)
            &&& forall|h: CropHandle| distance2 <= #[trigger] crop.distance2(h, mouse_pos)
            &&& exists|k: int|
                0 <= k < 8 && handle == #[trigger] CropHandle::spec_all()[k] && forall|i: int|
                    0 <= i < k ==> distance2 < crop.distance2(
                        #[trigger] CropHandle::spec_all()[i],
                        mouse_pos,
                    )
        }),
{
    lemma_closest_of_first(crop, mouse_pos, 8);
    let distance2 = crop.spec_closest_handle(mouse_pos).1;
    assert forall|h: CropHandle| distance2 <= #[trigger] crop.distance2(h, mouse_pos) by {
        let all = CropHandle::spec_all();
        let i: int = match h {
            CropHandle::TopLeftCorner => 0,
            CropHandle::TopEdge => 1,
            CropHandle::TopRightCorner => 2,
            CropHandle::RightEdge => 3,
            CropHandle::BottomRightCorner => 4,
            CropHandle::BottomEdge => 5,
            CropHandle::BottomLeftCorner => 6,
            CropHandle::LeftEdge => 7,
        };
        assert(all[i] == h);
    }
}

/// A press exactly on a handle grabs that handle, or another one that is at the same place.
pub proof fn law_press_on_a_handle_grabs_it(tool: CropToolView<i64>, handle: CropHandle)
    requires
        tool.crop is Some,
    ensures
        ({
            let c = tool.crop->0;
            let pos = handle_pos(c.pos, c.size, handle);
            tool.drag_action(pos) matches CropToolAction::DragHandle(state) && handle_pos(
                c.pos,
                c.size,
                state.handle,
            ) == pos
        }),
{
    let c = tool.crop->0;
    let pos = handle_pos(c.pos, c.size, handle);
    law_closest_handle(c, pos);
    let (closest, distance2) = c.spec_closest_handle(pos);
    let here = pos.spec_minus(pos);
    assert(here.x == 0 && here.y == 0);
    assert(here.x * here.x == 0 && here.y * here.y == 0) by (nonlinear_arith)
        requires
            here.x == 0,
            here.y == 0,
    ;
    assert(c.distance2(handle, pos) == 0);
    let d = handle_pos(c.pos, c.size, closest).spec_minus(pos);
    assert(d.x * d.x >= 0 && (d.x * d.x == 0 ==> d.x == 0)) by (nonlinear_arith);
    assert(d.y * d.y >= 0 && (d.y * d.y == 0 ==> d.y == 0)) by (nonlinear_arith);
    assert(distance2 == 0);
    lemma_handle_size();
}

// ---------------------------------------------------------------------------------------------
// What a drag does, in whole pixels

/// A drag that moves a crop puts it where it was when the drag began, displaced by as much as the
/// mouse was, in both coordinates. This is so while the drag goes on and when it ends.
pub proof fn law_moving_follows_the_mouse(
    tool: CropToolView<i64>,
    state: MoveState<i64>,
    direction: Vec2D<i64>,
)
    requires
        tool.crop is Some,
        tool.action == Some(CropToolAction::Move(state)),
        exact(state.start),
        exact(direction),
    ensures
        ({
            let during = tool.update_drag(direction).crop->0;
            let after = tool.end_drag(direction).crop->0;
            &&& during.pos.x == state.start.x + direction.x
            &&& during.pos.y == state.start.y + direction.y
            &&& during.size == tool.crop->0.size
            &&& after.pos.x == state.start.x + direction.x
            &&& after.pos.y == state.start.y + direction.y
            &&& after.size == tool.crop->0.size
        }),
{
}

/// In every number type, a drag that moves a crop adds the way of the mouse to where the crop was
/// when the drag began, coordinate by coordinate, and keeps its size.
pub proof fn law_moving_in_every_number_type<S: Scalar>(
    tool: CropToolView<S>,
    state: MoveState<S>,
    direction: Vec2D<S>,
)
    requires
        tool.crop is Some,
        tool.action == Some(CropToolAction::Move(state)),
    ensures
        ({
            let during = tool.update_drag(direction).crop->0;
            let after = tool.end_drag(direction).crop->0;
            let x = state.start.x.spec_plus(direction.x);
            let y = state.start.y.spec_plus(direction.y);
            &&& during == (Crop { pos: Vec2D { x, y }, ..tool.crop->0 })
            &&& after == (Crop { pos: Vec2D { x, y }, editing: false, ..tool.crop->0 })
        }),
{
}

/// A press inside a crop, away from its handles, moves the whole crop by as much as the mouse moves
/// until the button is released.
pub proof fn law_dragging_the_inside_moves_the_crop(
    tool: CropToolView<i64>,
    pos: Vec2D<i64>,
    directions: Seq<Vec2D<i64>>,
    direction: Vec2D<i64>,
)
    requires
        tool.crop matches Some(c) && exact(c.pos),
        tool.drag_action(pos) is Move,
        exact(direction),
    ensures
        ({
            let before = tool.crop->0;
            let after = dragged_along(tool.begin_drag(pos), directions).end_drag(direction).crop->0;
            &&& after.pos.x - before.pos.x == direction.x
            &&& after.pos.y - before.pos.y == direction.y
            &&& after.size == before.size
            &&& !after.editing
        }),
{
    law_only_the_end_of_a_drag_counts(tool.begin_drag(pos), directions, direction);
}

/// A crop that is being drawn reaches from the press to the mouse.
pub proof fn law_new_crop_follows_the_mouse<S: Scalar>(
    tool: CropToolView<S>,
    direction: Vec2D<S>,
)
    requires
        tool.crop is Some,
        tool.action == Some(CropToolAction::<S>::NewCrop),
    ensures
        ({
            let during = tool.update_drag(direction).crop->0;
            let after = tool.end_drag(direction).crop->0;
            &&& during.pos == tool.crop->0.pos && during.size == direction
            &&& after.pos == tool.crop->0.pos && after.size == direction
        }),
{
}

/// While a drag goes on, the crop is where it would be if the button were released, and it is still
/// being edited by the same drag.
pub proof fn law_crop_is_shown_as_it_will_be<S: Scalar>(
    tool: CropToolView<S>,
    direction: Vec2D<S>,
)
    requires
        tool.dragging(),
    ensures
        ({
            let during = tool.update_drag(direction);
            let after = tool.end_drag(direction);
            &&& during.crop->0.pos == after.crop->0.pos
            &&& during.crop->0.size == after.crop->0.size
            &&& during.crop->0.editing == tool.crop->0.editing
            &&& during.action == tool.action
        }),
{
}

/// In every number type, a drag adds what the mouse has moved to the edges that it moves, and the
/// size is what is between the edges.
pub proof fn law_edges_of_a_dragged_crop<S: Scalar>(
    crop: Crop<S>,
    state: DragHandleState<S>,
    direction: Vec2D<S>,
)
    ensures
        ({
            let after = dragged_crop(crop, CropToolAction::DragHandle(state), direction);
            let (tl, br) = (state.top_left_start, state.bottom_right_start);
            let (left, top, right, bottom) = moved_edges(state.handle);
            let zero = S::spec_from_int(0);
            let moved = |from: S, by: S, moves: bool, row: bool|
                if moves {
                    from.spec_plus(by)
                } else if row {
                    from.spec_plus(zero)
                } else {
                    from
                };
            // An edge that stays has nothing added to it where the other coordinate of its corner
            // moves.
            let x = moved(tl.x, direction.x, left, top);
            let y = moved(tl.y, direction.y, top, left);
            let right_x = moved(br.x, direction.x, right, bottom);
            let bottom_y = moved(br.y, direction.y, bottom, right);
            &&& after.pos == (Vec2D { x, y })
            &&& after.size == (Vec2D { x: right_x.spec_minus(x), y: bottom_y.spec_minus(y) })
            &&& after.editing == crop.editing
        }),
{
}

// ---------------------------------------------------------------------------------------------
// What is pressed, in whole pixels

/// A handle is on the edges that it moves, and half way along an edge whose ends stay: at the pixel
/// next to the middle on the side of the corner where there is none in the middle.
pub proof fn law_handles_are_on_their_edges(crop: Crop<i64>, handle: CropHandle)
    requires
        exact(crop.pos),
        exact(crop.size),
    ensures
        ({
            let at = handle_pos(crop.pos, crop.size, handle);
            let (left, top, right, bottom) = moved_edges(handle);
            let (x, y) = (at.x - crop.pos.x, at.y - crop.pos.y);
            &&& left ==> x == 0
            &&& top ==> y == 0
            &&& right ==> x == crop.size.x
            &&& bottom ==> y == crop.size.y
            &&& !left && !right ==> half_of(x, crop.size.x as int)
            &&& !top && !bottom ==> half_of(y, crop.size.y as int)
        }),
{
    law_whole_pixel_quotients(crop.size.x, 2);
    law_whole_pixel_quotients(crop.size.y, 2);
}

/// Whether `h` is half of `n`, rounded toward zero.
pub open spec fn half_of(h: int, n: int) -> bool {
    if n >= 0 {
        n - 1 <= 2 * h <= n
    } else {
        n <= 2 * h <= n + 1
    }
}

/// In every number type, the handles in the middle of edges are at half of the size.
pub proof fn law_handles_in_the_middle<S: Scalar>(pos: Vec2D<S>, size: Vec2D<S>, handle: CropHandle)
    ensures
        ({
            let at = handle_pos(pos, size, handle);
            let (left, top, right, bottom) = moved_edges(handle);
            let (zero, two) = (S::spec_from_int(0), S::spec_from_int(2));
            let across = if left {
                zero
            } else if right {
                size.x
            } else {
                size.x.spec_over(two)
            };
            let down = if top {
                zero
            } else if bottom {
                size.y
            } else {
                size.y.spec_over(two)
            };
            if left && top {
                at == pos
            } else {
                at == (Vec2D { x: pos.x.spec_plus(across), y: pos.y.spec_plus(down) })
            }
        }),
{
}

/// The handles come clockwise from the top left corner, each once.
pub proof fn law_order_of_the_handles(i: int, j: int)
    requires
        0 <= i < 8,
        0 <= j < 8,
    ensures
        CropHandle::spec_all().len() == 8,
        CropHandle::spec_all()[i] == CropHandle::spec_all()[j] ==> i == j,
        moved_edges(CropHandle::spec_all()[i]) == ((i == 0 || i == 6 || i == 7), i <= 2, (2 <= i
            && i <= 4), (4 <= i && i <= 6)),
{
}

/// The square of the distance between the mouse and a handle.
pub proof fn law_distance_to_a_handle(crop: Crop<i64>, handle: CropHandle, mouse_pos: Vec2D<i64>)
    requires
        ({
            let at = handle_pos(crop.pos, crop.size, handle);
            -0x4000_0000 <= at.x - mouse_pos.x <= 0x4000_0000 && -0x4000_0000 <= at.y - mouse_pos.y
                <= 0x4000_0000
        }),
    ensures
        ({
            let at = handle_pos(crop.pos, crop.size, handle);
            crop.distance2(handle, mouse_pos) == (at.x - mouse_pos.x) * (at.x - mouse_pos.x) + (at.y
                - mouse_pos.y) * (at.y - mouse_pos.y)
        }),
{
    let at = handle_pos(crop.pos, crop.size, handle);
    law_length_of_a_vector(at.spec_minus(mouse_pos));
}

/// A handle is grabbed by a press that is nearer to it than its own size of seven and the margin
/// allow: then it is the closest of all handles.
pub proof fn law_reach_of_a_handle(crop: Crop<i64>, mouse_pos: Vec2D<i64>, margin2: i64)
    requires
        0 <= margin2 <= 0x1000_0000,
    ensures
        crop.spec_handle_hit(mouse_pos, margin2) is Some <==> exists|h: CropHandle|
            #[trigger] crop.distance2(h, mouse_pos) < 7 * 7 + margin2,
        crop.spec_handle_hit(mouse_pos, margin2) matches Some(handle) ==> forall|h: CropHandle|
            crop.distance2(handle, mouse_pos) <= #[trigger] crop.distance2(h, mouse_pos),
{
    lemma_handle_size();
    law_closest_handle(crop, mouse_pos);
    let (handle, distance2) = crop.spec_closest_handle(mouse_pos);
    assert(distance2 == crop.distance2(handle, mouse_pos));
}

proof fn lemma_handle_size()
    ensures
        Crop::<i64>::handle_size2() == 49,
{
    let size: i64 = <i64 as Scalar>::spec_from_int(HANDLE_RADIUS).spec_plus(
        <i64 as Scalar>::spec_from_int(HANDLE_BORDER),
    );
    assert(size * size == 49) by (nonlinear_arith)
        requires
            size == 7,
    ;
}

/// A position counts as inside a crop where it is between the edges of the crop, or outside them by
/// less than the margin, in both coordinates.
pub proof fn law_inside_of_a_crop(crop: Crop<i64>, mouse_pos: Vec2D<i64>, margin: i64)
    requires
        exact(crop.pos),
        exact(crop.size),
        0 <= margin <= EXACT,
    ensures
        ({
            let (left, right) = (
                lesser(crop.pos.x as int, crop.pos.x + crop.size.x),
                greater(crop.pos.x as int, crop.pos.x + crop.size.x),
            );
            let (top, bottom) = (
                lesser(crop.pos.y as int, crop.pos.y + crop.size.y),
                greater(crop.pos.y as int, crop.pos.y + crop.size.y),
            );
            crop.spec_inside(mouse_pos, margin) <==> left - mouse_pos.x < margin && mouse_pos.x
                - right < margin && top - mouse_pos.y < margin && mouse_pos.y - bottom < margin
        }),
{
}

/// What a press does to a crop: less than the square root of 274 from a handle it grabs the closest
/// handle, else inside the crop it moves the crop, else less than forty outside it grabs the
/// closest handle, and else it begins a new crop. A grabbed handle is dragged from the crop's own
/// corners, and a crop is moved from its own position.
pub proof fn law_what_a_press_does(tool: CropToolView<i64>, pos: Vec2D<i64>)
    requires
        tool.crop matches Some(c) && exact(c.pos) && exact(c.size),
    ensures
        ({
            let c = tool.crop->0;
            let near = exists|h: CropHandle| #[trigger] c.distance2(h, pos) < 274;
            match tool.drag_action(pos) {
                CropToolAction::DragHandle(state) => {
                    &&& near || (!c.spec_inside(pos, 0) && c.spec_inside(pos, 40))
                    &&& forall|h: CropHandle|
                        c.distance2(state.handle, pos) <= #[trigger] c.distance2(h, pos)
                    &&& state.top_left_start == c.pos
                    &&& state.bottom_right_start.x == c.pos.x + c.size.x
                    &&& state.bottom_right_start.y == c.pos.y + c.size.y
                },
                CropToolAction::Move(state) => !near && c.spec_inside(pos, 0) && state.start
                    == c.pos,
                CropToolAction::NewCrop => !near && !c.spec_inside(pos, 0) && !c.spec_inside(
                    pos,
                    40,
                ),
            }
        }),
{
    law_reach_of_a_handle(tool.crop->0, pos, 225);
    law_closest_handle(tool.crop->0, pos);
}

/// In every number type, the closest handle is the one that is dragged, by the crop's own corners.
pub proof fn law_grabbed_handle_is_the_closest<S: Scalar>(tool: CropToolView<S>, pos: Vec2D<S>)
    ensures
        tool.crop is None ==> tool.drag_action(pos) is NewCrop,
        tool.crop matches Some(c) ==> {
            let (handle, distance2) = c.spec_closest_handle(pos);
            let size = S::spec_from_int(5).spec_plus(S::spec_from_int(2));
            let near = distance2.spec_below(
                size.spec_times(size).spec_plus(S::spec_from_int(225)),
            );
            let inside = c.spec_inside(pos, S::spec_from_int(0));
            let beside = c.spec_inside(pos, S::spec_from_int(40));
            &&& near || (!inside && beside) ==> tool.drag_action(pos) == CropToolAction::DragHandle(
                (DragHandleState {
                    handle,
                    top_left_start: c.pos,
                    bottom_right_start: c.pos.spec_plus(c.size),
                }),
            )
            &&& !near && inside ==> tool.drag_action(pos) == CropToolAction::Move(
                (MoveState { start: c.pos }),
            )
            &&& !near && !inside && !beside ==> tool.drag_action(pos) is NewCrop
        },
{
}

/// In every number type, a handle is as far away as the mouse is from its place.
pub proof fn law_distance_is_that_of_the_place<S: Scalar>(
    crop: Crop<S>,
    handle: CropHandle,
    mouse_pos: Vec2D<S>,
)
    ensures
        ({
            let at = handle_pos(crop.pos, crop.size, handle);
            let (dx, dy) = (at.x.spec_minus(mouse_pos.x), at.y.spec_minus(mouse_pos.y));
            crop.distance2(handle, mouse_pos) == dx.spec_times(dx).spec_plus(dy.spec_times(dy))
        }),
{
}

/// In every number type, what is inside is between the edges with the margin added, in whichever
/// order the edges come.
pub proof fn law_inside_is_between_the_edges<S: Scalar>(
    crop: Crop<S>,
    mouse_pos: Vec2D<S>,
    margin: S,
)
    ensures
        ({
            let (a, b) = (crop.pos.x, crop.pos.x.spec_plus(crop.size.x));
            let (c, d) = (crop.pos.y, crop.pos.y.spec_plus(crop.size.y));
            let (left, right) = if b.spec_below(a) {
                (b, a)
            } else {
                (a, b)
            };
            let (top, bottom) = if d.spec_below(c) {
                (d, c)
            } else {
                (c, d)
            };
            crop.spec_inside(mouse_pos, margin) <==> {
                &&& left.spec_minus(margin).spec_below(mouse_pos.x)
                &&& mouse_pos.x.spec_below(right.spec_plus(margin))
                &&& top.spec_minus(margin).spec_below(mouse_pos.y)
                &&& mouse_pos.y.spec_below(bottom.spec_plus(margin))
            }
        }),
{
}

/// A press begins to edit: a new crop at the press, without a size yet, or the crop that there is,
/// where it is. Nothing is sent.
pub proof fn law_press_begins_to_edit<S: Scalar>(tool: CropToolView<S>, pos: Vec2D<S>)
    ensures
        ({
            let after = tool.begin_drag(pos);
            let fresh = tool.crop is None || tool.drag_action(pos) is NewCrop;
            let zero = Vec2D { x: S::spec_from_int(0), y: S::spec_from_int(0) };
            &&& after.crop matches Some(c) && c.editing
            &&& fresh ==> after.crop->0.pos == pos && after.crop->0.size == zero
            &&& !fresh ==> after.crop->0.pos == tool.crop->0.pos && after.crop->0.size
                == tool.crop->0.size
            &&& after.action == Some(tool.drag_action(pos))
            &&& after.outbox == tool.outbox && after.sender == tool.sender
                && after.input_enabled == tool.input_enabled
        }),
{
}

// ---------------------------------------------------------------------------------------------
// Events

/// What each key does: nothing, but for Escape and Return while the crop is being edited. Return
/// leaves the crop where it is, finished, and sends nothing.
pub proof fn law_keys_of_the_crop_tool<S: Scalar>(tool: CropToolView<S>, event: KeyEventMsg)
    ensures
        ({
            let (after, result) = tool.key_event(event);
            let editing = tool.crop matches Some(c) && c.editing;
            &&& editing && event.key == Key::Return ==> {
                &&& result == ToolUpdateResult::<Crop<S>>::Redraw
                &&& after.crop == Some((Crop { editing: false, ..tool.crop->0 }))
                &&& after.action is None
                &&& after.outbox == tool.outbox
            }
            &&& editing && event.key == Key::Escape ==> {
                &&& result == ToolUpdateResult::<Crop<S>>::RedrawAndStopPropagation
                &&& after.crop is None && after.action is None
                &&& after.outbox == (if tool.sender is Some {
                    tool.outbox.push(size_notice::<S>(None))
                } else {
                    tool.outbox
                })
            }
            &&& !editing || (event.key != Key::Return && event.key != Key::Escape) ==> after == tool
                && result == ToolUpdateResult::<Crop<S>>::Unmodified
            &&& after.sender == tool.sender && after.input_enabled == tool.input_enabled
        }),
{
}

/// What the mouse does: drags of the primary button without Control draw, move and resize; with
/// Control its click finishes the crop as it is, and a click of the secondary button resets it.
/// Nothing else does anything.
pub proof fn law_mouse_on_the_crop_tool<S: Scalar>(
    tool: CropToolView<S>,
    event: MouseEventMsg<S>,
)
    ensures
        ({
            let (after, result) = tool.mouse_event(event);
            let control = event.modifier.control;
            let primary = event.button == MouseButton::Primary;
            let answer = if tool.crop is Some && tool.action is Some {
                ToolUpdateResult::<Crop<S>>::Redraw
            } else {
                ToolUpdateResult::Unmodified
            };
            let drag = primary && !control;
            let finish = event.type_ == MouseEventType::Click && primary && control;
            let reset = event.type_ == MouseEventType::Click && event.button
                == MouseButton::Secondary && control && tool.crop is Some;
            let begin = event.type_ == MouseEventType::BeginDrag && drag;
            let update = event.type_ == MouseEventType::UpdateDrag && drag;
            let end = event.type_ == MouseEventType::EndDrag && drag;
            &&& begin ==> after == tool.begin_drag(event.pos) && result
                == ToolUpdateResult::<Crop<S>>::Redraw
            &&& update ==> after == tool.update_drag(event.pos) && result == answer
            &&& end ==> after == tool.end_drag(event.pos) && result == answer
            &&& finish ==> {
                &&& result == ToolUpdateResult::<Crop<S>>::Redraw
                &&& after.action is None && after.outbox == tool.outbox
                &&& after.crop is Some <==> tool.crop is Some
                &&& tool.crop matches Some(c) ==> after.crop == Some(
                    (Crop { editing: false, ..c }),
                )
            }
            &&& reset ==> result == ToolUpdateResult::<Crop<S>>::RedrawAndStopPropagation
                && after.crop is None && after.action is None
            &&& !begin && !update && !end && !finish && !reset ==> after == tool && result
                == ToolUpdateResult::<Crop<S>>::Unmodified
            &&& after.sender == tool.sender && after.input_enabled == tool.input_enabled
        }),
{
}

/// A drag that did not begin has no effect.
pub proof fn law_no_drag_without_a_press<S: Scalar>(tool: CropToolView<S>, direction: Vec2D<S>)
    requires
        tool.crop is None || tool.action is None,
    ensures
        tool.update_drag(direction) == tool,
        tool.end_drag(direction) == tool,
{
}

/// The size that is told is that of the crop's rectangle in whole pixels, whichever way it was
/// drawn.
pub proof fn law_told_size(crop: Crop<i64>)
    requires
        -0x7fff_ffff <= crop.size.x <= 0x7fff_ffff,
        -0x7fff_ffff <= crop.size.y <= 0x7fff_ffff,
    ensures
        size_notice(Some(crop)) == SketchBoardInput::Output(
            SketchBoardOutput::DimensionsUpdate(
                Some(
                    (
                        vstd::math::abs(crop.size.x as int) as i32,
                        vstd::math::abs(crop.size.y as int) as i32,
                    ),
                ),
            ),
        ),
{
}

/// While a crop is moved, its size is not told.
pub proof fn law_moving_tells_nothing<S: Scalar>(tool: CropToolView<S>, direction: Vec2D<S>)
    requires
        tool.dragging(),
        tool.action->0 is Move,
    ensures
        tool.update_drag(direction).outbox == tool.outbox,
{
}

// ---------------------------------------------------------------------------------------------
// Drawing

/// A handle is a disc of radius five on the screen, translucent black, with a light border two
/// wide.
pub proof fn law_looks_of_a_handle<S: Scalar>(center: Vec2D<S>, scale: S)
    ensures
        ({
            let ops = Crop::<S>::spec_draw_single_handle(center, scale);
            let radius = S::spec_from_int(5).spec_over(scale);
            let tenths = |n: i32| S::spec_from_int(n).spec_over(S::spec_from_int(10));
            &&& ops.len() == 2
            &&& ops[0] == (DrawOp::FillCircle {
                center,
                radius,
                ink: Ink::Rgba {
                    r: S::spec_from_int(0),
                    g: S::spec_from_int(0),
                    b: S::spec_from_int(0),
                    a: tenths(4),
                },
            })
            &&& ops[1] == (DrawOp::StrokeCircle {
                center,
                radius,
                ink: Ink::Rgba { r: tenths(9), g: tenths(9), b: tenths(9), a: S::spec_from_int(1) },
                width: S::spec_from_int(2).spec_over(scale),
            })
        }),
{
}

/// A crop is drawn between a save and a restore: half of the light is taken from what of the image
/// is outside the crop, and the crop has a dark border two wide, under its eight handles.
pub proof fn law_looks_of_a_crop<S: Scalar>(
    crop: Crop<S>,
    scale: S,
    bounds: (Vec2D<S>, Vec2D<S>),
)
    ensures
        ({
            let ops = crop.spec_draw(scale, bounds);
            let tenths = |n: i32| S::spec_from_int(n).spec_over(S::spec_from_int(10));
            let zero = S::spec_from_int(0);
            &&& ops.len() == 20
            &&& ops[0] is Save && ops[19] is Restore
            &&& ops[1] == (DrawOp::FillFrame {
                outer_pos: bounds.0,
                outer_size: Vec2D {
                    x: bounds.1.x.spec_minus(bounds.0.x),
                    y: bounds.1.y.spec_minus(bounds.0.y),
                },
                inner_pos: crop.pos,
                inner_size: crop.size,
                ink: Ink::Rgba { r: zero, g: zero, b: zero, a: tenths(5) },
            })
            &&& ops[2] == (DrawOp::StrokeRect {
                pos: crop.pos,
                size: crop.size,
                ink: Ink::Rgba { r: tenths(1), g: tenths(1), b: tenths(1), a: S::spec_from_int(1) },
                width: S::spec_from_int(2),
            })
            &&& forall|i: int| 3 <= i < 19 ==> #[trigger] ops[i] is FillCircle || ops[i] is StrokeCircle
        }),
{
}

} // verus!
