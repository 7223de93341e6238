//! The crop tool: an area of the image that is drawn, moved and resized with the mouse.

use vstd::prelude::*;

use crate::canvas::{DrawOp, Ink};
use crate::math::{positive_rect, rect_ensure_positive_size, Vec2D};
use crate::scalar::{ratio, ratio_spec, Scalar};
use crate::sketch_board::{
    Key, KeyEventMsg, MouseButton, MouseEventMsg, MouseEventType, Sender, SketchBoardInput,
    SketchBoardOutput, ToolUpdateResult, Tools,
};

verus! {

/// The radius of the circle that marks a handle.
pub const HANDLE_RADIUS: i32 = 5;

/// The width of the line round that circle.
pub const HANDLE_BORDER: i32 = 2;

/// How far from a handle a press still grabs it, inside the crop or out: squared, and on top of
/// the handle's own size.
pub const HANDLE_MARGIN_IN_2: i32 = 225;

/// How far outside the crop a press still grabs the closest handle.
pub const HANDLE_MARGIN_OUT: i32 = 40;

/// The area that is kept of the image.
///
/// `editing` is set only while the area is drawn or adjusted, from the press of the mouse button
/// to its release. A crop that exists is always applied to the output, so the release is what
/// commits it, and nothing is left for Enter to confirm or for Escape to take back.
#[derive(Clone, Copy, Debug, PartialEq)]
pub struct Crop<S> {
    pub pos: Vec2D<S>,
    pub size: Vec2D<S>,
    pub editing: bool,
}

/// The places at which the edges of a crop can be grabbed.
#[derive(Clone, Copy, Debug, PartialEq, Eq, Structural)]
pub enum CropHandle {
    TopLeftCorner,
    TopEdge,
    TopRightCorner,
    RightEdge,
    BottomRightCorner,
    BottomEdge,
    BottomLeftCorner,
    LeftEdge,
}

impl CropHandle {
    /// Every handle, clockwise from the top left corner.
    pub open spec fn spec_all() -> Seq<CropHandle> {
        seq![
            CropHandle::TopLeftCorner,
            CropHandle::TopEdge,
            CropHandle::TopRightCorner,
            CropHandle::RightEdge,
            CropHandle::BottomRightCorner,
            CropHandle::BottomEdge,
            CropHandle::BottomLeftCorner,
            CropHandle::LeftEdge,
        ]
    }

    pub fn all() -> (r: [CropHandle; 8])
        ensures
            r@ == Self::spec_all(),
    {
        let r = [
            CropHandle::TopLeftCorner,
            CropHandle::TopEdge,
            CropHandle::TopRightCorner,
            CropHandle::RightEdge,
            CropHandle::BottomRightCorner,
            CropHandle::BottomEdge,
            CropHandle::BottomLeftCorner,
            CropHandle::LeftEdge,
        ];
        assert(r@ =~= Self::spec_all());
        r
    }
}

/// Where a handle is: on the corner, or in the middle of the edge, that it is named after.
pub open spec fn handle_pos<S: Scalar>(
    pos: Vec2D<S>,
    size: Vec2D<S>,
    handle: CropHandle,
) -> Vec2D<S> {
    let zero = S::spec_from_int(0);
    let half_width = size.x.spec_over(S::spec_from_int(2));
    let half_height = size.y.spec_over(S::spec_from_int(2));
    match handle {
        CropHandle::TopLeftCorner => pos,
        CropHandle::TopEdge => pos.spec_plus(Vec2D { x: half_width, y: zero }),
        CropHandle::TopRightCorner => pos.spec_plus(Vec2D { x: size.x, y: zero }),
        CropHandle::RightEdge => pos.spec_plus(Vec2D { x: size.x, y: half_height }),
        CropHandle::BottomRightCorner => pos.spec_plus(size),
        CropHandle::BottomEdge => pos.spec_plus(Vec2D { x: half_width, y: size.y }),
        CropHandle::BottomLeftCorner => pos.spec_plus(Vec2D { x: zero, y: size.y }),
        CropHandle::LeftEdge => pos.spec_plus(Vec2D { x: zero, y: half_height }),
    }
}

/// Whether `value` lies strictly between `a` and `b`, in whichever order they come, or outside
/// by less than `margin`.
pub open spec fn strictly_between<S: Scalar>(value: S, a: S, b: S, margin: S) -> bool {
    let (low, high) = if b.spec_below(a) {
        (b, a)
    } else {
        (a, b)
    };
    low.spec_minus(margin).spec_below(value) && value.spec_below(high.spec_plus(margin))
}

impl<S: Scalar> Crop<S> {
    /// The squared distance from `mouse_pos` to a handle.
    pub open spec fn distance2(self, handle: CropHandle, mouse_pos: Vec2D<S>) -> S {
        handle_pos(self.pos, self.size, handle).spec_minus(mouse_pos).spec_norm2()
    }

    /// Of the first `n` handles, the one that is closest to `mouse_pos` and its squared distance:
    /// a later handle takes the place of an earlier one only where it is closer.
    pub open spec fn closest_of_first(self, mouse_pos: Vec2D<S>, n: nat) -> (CropHandle, S)
        decreases n,
    {
        if n == 0 {
            (CropHandle::TopLeftCorner, S::spec_largest())
        } else {
            let best = self.closest_of_first(mouse_pos, (n - 1) as nat);
            let handle = CropHandle::spec_all()[n - 1];
            let distance2 = self.distance2(handle, mouse_pos);
            if distance2.spec_below(best.1) {
                (handle, distance2)
            } else {
                best
            }
        }
    }

    pub open spec fn spec_closest_handle(self, mouse_pos: Vec2D<S>) -> (CropHandle, S) {
        self.closest_of_first(mouse_pos, 8)
    }

    /// The squared size of a handle, border and all.
    pub open spec fn handle_size2() -> S {
        let size = S::spec_from_int(HANDLE_RADIUS).spec_plus(S::spec_from_int(HANDLE_BORDER));
        size.spec_times(size)
    }

    pub open spec fn spec_handle_hit(self, mouse_pos: Vec2D<S>, margin2: S) -> Option<CropHandle> {
        let (handle, distance2) = self.spec_closest_handle(mouse_pos);
        if distance2.spec_below(Self::handle_size2().spec_plus(margin2)) {
            Some(handle)
        } else {
            None
        }
    }

    /// Whether `mouse_pos` is inside the area, or outside it by less than `margin`.
    pub open spec fn spec_inside(self, mouse_pos: Vec2D<S>, margin: S) -> bool {
        strictly_between(mouse_pos.x, self.pos.x, self.pos.x.spec_plus(self.size.x), margin)
            && strictly_between(mouse_pos.y, self.pos.y, self.pos.y.spec_plus(self.size.y), margin)
    }

    /// A crop that is about to be drawn from `pos` on.
    pub open spec fn spec_new(pos: Vec2D<S>) -> Self {
        Crop { pos, size: Vec2D::spec_zero(), editing: true }
    }

    pub fn new(pos: Vec2D<S>) -> (r: Self)
        ensures
            r == Self::spec_new(pos),
    {
        Crop { pos, size: Vec2D::zero(), editing: true }
    }

    /// The commands that draw one handle: a translucent disc with a light border. Both keep their
    /// size on the screen, whatever the scale of the canvas.
    pub open spec fn spec_draw_single_handle(center: Vec2D<S>, scale: S) -> Seq<DrawOp<S>> {
        let (zero, light) = (S::spec_from_int(0), ratio_spec::<S>(9, 10));
        let radius = S::spec_from_int(HANDLE_RADIUS).spec_over(scale);
        seq![
            DrawOp::FillCircle {
                center,
                radius,
                ink: Ink::Rgba { r: zero, g: zero, b: zero, a: ratio_spec(4, 10) },
            },
            DrawOp::StrokeCircle {
                center,
                radius,
                ink: Ink::Rgba { r: light, g: light, b: light, a: S::spec_from_int(1) },
                width: S::spec_from_int(HANDLE_BORDER).spec_over(scale),
            },
        ]
    }

    /// Draws one handle.
    pub fn draw_single_handle(ops: &mut Vec<DrawOp<S>>, center: Vec2D<S>, scale: S)
        ensures
            final(ops)@ == old(ops)@ + Self::spec_draw_single_handle(center, scale),
    {
        let (zero, light): (S, S) = (S::from_int(0), ratio(9, 10));
        let radius = S::from_int(HANDLE_RADIUS).over(scale);
        ops.push(
            DrawOp::FillCircle {
                center,
                radius,
                ink: Ink::Rgba { r: zero, g: zero, b: zero, a: ratio(4, 10) },
            },
        );
        ops.push(
            DrawOp::StrokeCircle {
                center,
                radius,
                ink: Ink::Rgba { r: light, g: light, b: light, a: S::from_int(1) },
                width: S::from_int(HANDLE_BORDER).over(scale),
            },
        );
        assert(ops@ =~= old(ops)@ + Self::spec_draw_single_handle(center, scale));
    }

    /// The area as its corner of least coordinates and its size, whichever way it was drawn.
    pub fn get_rectangle(&self) -> (r: (Vec2D<S>, Vec2D<S>))
        ensures
            r == positive_rect(self.pos, self.size),
    {
        rect_ensure_positive_size(self.pos, self.size)
    }

    pub fn get_handle_pos(crop_pos: Vec2D<S>, crop_size: Vec2D<S>, handle: CropHandle) -> (r: Vec2D<
        S,
    >)
        ensures
            r == handle_pos(crop_pos, crop_size, handle),
    {
        let zero = S::from_int(0);
        let half_width = crop_size.x.over(S::from_int(2));
        let half_height = crop_size.y.over(S::from_int(2));
        match handle {
            CropHandle::TopLeftCorner => crop_pos,
            CropHandle::TopEdge => crop_pos.plus(Vec2D::new(half_width, zero)),
            CropHandle::TopRightCorner => crop_pos.plus(Vec2D::new(crop_size.x, zero)),
            CropHandle::RightEdge => crop_pos.plus(Vec2D::new(crop_size.x, half_height)),
            CropHandle::BottomRightCorner => crop_pos.plus(crop_size),
            CropHandle::BottomEdge => crop_pos.plus(Vec2D::new(half_width, crop_size.y)),
            CropHandle::BottomLeftCorner => crop_pos.plus(Vec2D::new(zero, crop_size.y)),
            CropHandle::LeftEdge => crop_pos.plus(Vec2D::new(zero, half_height)),
        }
    }

    /// The handle that is closest to `mouse_pos`, with its squared distance. Of handles at one
    /// distance it is the first.
    pub fn get_closest_handle(&self, mouse_pos: Vec2D<S>) -> (r: (CropHandle, S))
        ensures
            r == self.spec_closest_handle(mouse_pos),
    {
        let mut min_distance_squared = S::largest();
        let mut closest_handle = CropHandle::TopLeftCorner;
        let handles = CropHandle::all();
        let mut i: usize = 0;
        while i < 8
            invariant
                i <= 8,
                handles@ == CropHandle::spec_all(),
                (closest_handle, min_distance_squared) == self.closest_of_first(
                    mouse_pos,
                    i as nat,
                ),
            decreases 8 - i,
        {
            let h = handles[i];
            let handle_pos = Self::get_handle_pos(self.pos, self.size, h);
            let distance_squared = handle_pos.minus(mouse_pos).norm2();
            if distance_squared.below(min_distance_squared) {
                min_distance_squared = distance_squared;
                closest_handle = h;
            }
            i += 1;
        }
        (closest_handle, min_distance_squared)
    }

    /// The closest handle, if `mouse_pos` is near enough to grab it.
    pub fn test_handle_hit(&self, mouse_pos: Vec2D<S>, margin2: S) -> (r: Option<CropHandle>)
        ensures
            r == self.spec_handle_hit(mouse_pos, margin2),
    {
        let handle_size = S::from_int(HANDLE_RADIUS).plus(S::from_int(HANDLE_BORDER));
        let allowed_distance2 = handle_size.times(handle_size).plus(margin2);
        let (handle, distance2) = self.get_closest_handle(mouse_pos);
        if distance2.below(allowed_distance2) {
            Some(handle)
        } else {
            None
        }
    }

    /// The commands that draw the crop: a shadow over the image outside the area, a border round
    /// the area, and its handles. The handles are drawn for as long as the crop exists, since it
    /// stays adjustable.
    pub open spec fn spec_draw(self, scale: S, bounds: (Vec2D<S>, Vec2D<S>)) -> Seq<DrawOp<S>> {
        let (zero, dark) = (S::spec_from_int(0), ratio_spec::<S>(1, 10));
        let handle = |h: CropHandle|
            Self::spec_draw_single_handle(handle_pos(self.pos, self.size, h), scale);
        seq![
            DrawOp::Save,
            DrawOp::FillFrame {
                outer_pos: bounds.0,
                outer_size: bounds.1.spec_minus(bounds.0),
                inner_pos: self.pos,
                inner_size: self.size,
                ink: Ink::Rgba { r: zero, g: zero, b: zero, a: ratio_spec(5, 10) },
            },
            DrawOp::StrokeRect {
                pos: self.pos,
                size: self.size,
                ink: Ink::Rgba { r: dark, g: dark, b: dark, a: S::spec_from_int(1) },
                width: S::spec_from_int(2),
            },
        ] + handle(CropHandle::TopLeftCorner) + handle(CropHandle::TopEdge) + handle(
            CropHandle::TopRightCorner,
        ) + handle(CropHandle::LeftEdge) + handle(CropHandle::BottomLeftCorner) + handle(
            CropHandle::BottomEdge,
        ) + handle(CropHandle::BottomRightCorner) + handle(CropHandle::RightEdge) + seq![
            DrawOp::Restore,
        ]
    }

    /// Draws the crop over an image with the given top left and bottom right corner, on a canvas
    /// with the given scale.
    pub fn draw(&self, scale: S, bounds: (Vec2D<S>, Vec2D<S>)) -> (r: Vec<DrawOp<S>>)
        ensures
            r@ == self.spec_draw(scale, bounds),
    {
        let (zero, dark): (S, S) = (S::from_int(0), ratio(1, 10));
        let (img_tl, img_br) = bounds;
        let mut ops: Vec<DrawOp<S>> = Vec::new();
        ops.push(DrawOp::Save);
        ops.push(
            DrawOp::FillFrame {
                outer_pos: img_tl,
                outer_size: img_br.minus(img_tl),
                inner_pos: self.pos,
                inner_size: self.size,
                ink: Ink::Rgba { r: zero, g: zero, b: zero, a: ratio(5, 10) },
            },
        );
        ops.push(
            DrawOp::StrokeRect {
                pos: self.pos,
                size: self.size,
                ink: Ink::Rgba { r: dark, g: dark, b: dark, a: S::from_int(1) },
                width: S::from_int(2),
            },
        );
        let (pos, size) = (self.pos, self.size);
        Self::draw_single_handle(
            &mut ops,
            Self::get_handle_pos(pos, size, CropHandle::TopLeftCorner),
            scale,
        );
        Self::draw_single_handle(
            &mut ops,
            Self::get_handle_pos(pos, size, CropHandle::TopEdge),
            scale,
        );
        Self::draw_single_handle(
            &mut ops,
            Self::get_handle_pos(pos, size, CropHandle::TopRightCorner),
            scale,
        );
        Self::draw_single_handle(
            &mut ops,
            Self::get_handle_pos(pos, size, CropHandle::LeftEdge),
            scale,
        );
        Self::draw_single_handle(
            &mut ops,
            Self::get_handle_pos(pos, size, CropHandle::BottomLeftCorner),
            scale,
        );
        Self::draw_single_handle(
            &mut ops,
            Self::get_handle_pos(pos, size, CropHandle::BottomEdge),
            scale,
        );
        Self::draw_single_handle(
            &mut ops,
            Self::get_handle_pos(pos, size, CropHandle::BottomRightCorner),
            scale,
        );
        Self::draw_single_handle(
            &mut ops,
            Self::get_handle_pos(pos, size, CropHandle::RightEdge),
            scale,
        );
        ops.push(DrawOp::Restore);
        assert(ops@ =~= self.spec_draw(scale, bounds));
        ops
    }
}

/// What the drag that goes on does.
#[derive(Clone, Copy, Debug, PartialEq)]
pub enum CropToolAction<S> {
    NewCrop,
    DragHandle(DragHandleState<S>),
    Move(MoveState<S>),
}

/// A drag of a handle, with the corners of the area as they were when it began.
#[derive(Clone, Copy, Debug, PartialEq)]
pub struct DragHandleState<S> {
    pub handle: CropHandle,
    pub top_left_start: Vec2D<S>,
    pub bottom_right_start: Vec2D<S>,
}

/// A drag of the whole area, with its position as it was when it began.
#[derive(Clone, Copy, Debug, PartialEq)]
pub struct MoveState<S> {
    pub start: Vec2D<S>,
}

/// The crop tool. `outbox` holds what it has sent to the sketch board, for the host to deliver.
#[derive(Debug)]
pub struct CropTool<S> {
    pub crop: Option<Crop<S>>,
    pub action: Option<CropToolAction<S>>,
    pub input_enabled: bool,
    pub sender: Option<Sender>,
    pub outbox: Vec<SketchBoardInput>,
}

/// The state of the crop tool.
#[verifier::ext_equal]
pub struct CropToolView<S> {
    pub crop: Option<Crop<S>>,
    pub action: Option<CropToolAction<S>>,
    pub input_enabled: bool,
    pub sender: Option<Sender>,
    pub outbox: Seq<SketchBoardInput>,
}

impl<S> View for CropTool<S> {
    type V = CropToolView<S>;

    open spec fn view(&self) -> CropToolView<S> {
        CropToolView {
            crop: self.crop,
            action: self.action,
            input_enabled: self.input_enabled,
            sender: self.sender,
            outbox: self.outbox@,
        }
    }
}

/// The corners, top left and bottom right, of an area whose handle was dragged by `direction`.
pub open spec fn dragged_corners<S: Scalar>(
    state: DragHandleState<S>,
    direction: Vec2D<S>,
) -> (Vec2D<S>, Vec2D<S>) {
    let across = Vec2D { x: direction.x, y: S::spec_from_int(0) };
    let along = Vec2D { x: S::spec_from_int(0), y: direction.y };
    let (tl, br) = (state.top_left_start, state.bottom_right_start);
    match state.handle {
        CropHandle::TopLeftCorner => (tl.spec_plus(direction), br),
        CropHandle::TopEdge => (tl.spec_plus(along), br),
        CropHandle::TopRightCorner => (tl.spec_plus(along), br.spec_plus(across)),
        CropHandle::RightEdge => (tl, br.spec_plus(across)),
        CropHandle::BottomRightCorner => (tl, br.spec_plus(direction)),
        CropHandle::BottomEdge => (tl, br.spec_plus(along)),
        CropHandle::BottomLeftCorner => (tl.spec_plus(across), br.spec_plus(along)),
        CropHandle::LeftEdge => (tl.spec_plus(across), br),
    }
}

/// The crop after a drag by `direction`.
pub open spec fn dragged_crop<S: Scalar>(
    crop: Crop<S>,
    action: CropToolAction<S>,
    direction: Vec2D<S>,
) -> Crop<S> {
    match action {
        CropToolAction::NewCrop => Crop { size: direction, ..crop },
        CropToolAction::DragHandle(state) => {
            let (tl, br) = dragged_corners(state, direction);
            Crop { pos: tl, size: br.spec_minus(tl), ..crop }
        },
        CropToolAction::Move(state) => Crop { pos: state.start.spec_plus(direction), ..crop },
    }
}

impl<S: Scalar> CropToolView<S> {
    /// A crop is being edited exactly while a drag goes on.
    pub open spec fn wf(self) -> bool {
        self.action is Some <==> (self.crop matches Some(c) && c.editing)
    }

    pub open spec fn with_sent(self, message: SketchBoardInput) -> Self {
        if self.sender is Some {
            CropToolView { outbox: self.outbox.push(message), ..self }
        } else {
            self
        }
    }

    /// The tool after it has told the sketch board how large the cropped area is, in whole pixels.
    pub open spec fn emit_dimensions(self) -> Self {
        match self.crop {
            Some(crop) => {
                let size = positive_rect(crop.pos, crop.size).1;
                self.with_sent(
                    SketchBoardInput::Output(
                        SketchBoardOutput::DimensionsUpdate(
                            Some((size.x.spec_to_nearest(), size.y.spec_to_nearest())),
                        ),
                    ),
                )
            },
            None => self,
        }
    }

    /// What a press at `pos` begins to do: grab a handle that is near, else move the crop if the
    /// press is inside it, else grab the closest handle if the press is not far outside, else draw
    /// a new crop.
    pub open spec fn drag_action(self, pos: Vec2D<S>) -> CropToolAction<S> {
        match self.crop {
            None => CropToolAction::NewCrop,
            Some(c) => {
                let drag = |handle: CropHandle|
                    CropToolAction::DragHandle(
                        DragHandleState {
                            handle,
                            top_left_start: c.pos,
                            bottom_right_start: c.pos.spec_plus(c.size),
                        },
                    );
                match c.spec_handle_hit(pos, S::spec_from_int(HANDLE_MARGIN_IN_2)) {
                    Some(handle) => drag(handle),
                    None => if c.spec_inside(pos, S::spec_from_int(0)) {
                        CropToolAction::Move(MoveState { start: c.pos })
                    } else if c.spec_inside(pos, S::spec_from_int(HANDLE_MARGIN_OUT)) {
                        drag(c.spec_closest_handle(pos).0)
                    } else {
                        CropToolAction::NewCrop
                    },
                }
            },
        }
    }

    pub open spec fn begin_drag(self, pos: Vec2D<S>) -> Self {
        let action = self.drag_action(pos);
        let crop = match (action, self.crop) {
            (CropToolAction::NewCrop, _) => Crop::spec_new(pos),
            (_, Some(c)) => Crop { editing: true, ..c },
            (_, None) => Crop::spec_new(pos),
        };
        CropToolView { crop: Some(crop), action: Some(action), ..self }
    }

    /// The tool while a drag goes on. Moving the area does not change its dimensions, and sends
    /// none.
    pub open spec fn update_drag(self, direction: Vec2D<S>) -> Self {
        match (self.crop, self.action) {
            (Some(crop), Some(action)) => {
                let moved = CropToolView {
                    crop: Some(dragged_crop(crop, action, direction)),
                    ..self
                };
                if action is Move {
                    moved
                } else {
                    moved.emit_dimensions()
                }
            },
            _ => self,
        }
    }

    pub open spec fn end_drag(self, direction: Vec2D<S>) -> Self {
        match (self.crop, self.action) {
            (Some(crop), Some(action)) => CropToolView {
                crop: Some(Crop { editing: false, ..dragged_crop(crop, action, direction) }),
                action: None,
                ..self
            }.emit_dimensions(),
            _ => self,
        }
    }

    /// Whether a drag can go on: there are a crop and something that is done with it.
    pub open spec fn dragging(self) -> bool {
        self.crop is Some && self.action is Some
    }

    pub open spec fn deactivated(self) -> Self {
        CropToolView {
            crop: match self.crop {
                Some(c) => Some(Crop { editing: false, ..c }),
                None => None,
            },
            action: None,
            ..self
        }
    }

    pub open spec fn dismissed(self) -> Self {
        CropToolView { crop: None, action: None, ..self }.with_sent(
            SketchBoardInput::Output(SketchBoardOutput::DimensionsUpdate(None)),
        )
    }

    pub open spec fn editing(self) -> bool {
        self.crop matches Some(c) && c.editing
    }

    /// What a key does, and what is answered. Only a crop that is being edited takes Escape and
    /// Enter; a finished one leaves them to the actions that are configured for them.
    pub open spec fn key_event(self, event: KeyEventMsg) -> (Self, ToolUpdateResult<Crop<S>>) {
        match event.key {
            Key::Escape if self.editing() => (
                self.dismissed(),
                ToolUpdateResult::RedrawAndStopPropagation,
            ),
            Key::Return if self.editing() => (self.deactivated(), ToolUpdateResult::Redraw),
            _ => (self, ToolUpdateResult::Unmodified),
        }
    }

    /// What a mouse event does, and what is answered.
    pub open spec fn mouse_event(self, event: MouseEventMsg<S>) -> (
        Self,
        ToolUpdateResult<Crop<S>>,
    ) {
        let drag_result = if self.dragging() {
            ToolUpdateResult::Redraw
        } else {
            ToolUpdateResult::Unmodified
        };
        match (event.type_, event.button, event.modifier.control) {
            (MouseEventType::Click, MouseButton::Primary, true) => (
                self.deactivated(),
                ToolUpdateResult::Redraw,
            ),
            (MouseEventType::Click, MouseButton::Secondary, true) if self.crop is Some => (
                self.dismissed(),
                ToolUpdateResult::RedrawAndStopPropagation,
            ),
            (MouseEventType::BeginDrag, MouseButton::Primary, false) => (
                self.begin_drag(event.pos),
                ToolUpdateResult::Redraw,
            ),
            (MouseEventType::EndDrag, MouseButton::Primary, false) => (
                self.end_drag(event.pos),
                drag_result,
            ),
            (MouseEventType::UpdateDrag, MouseButton::Primary, false) => (
                self.update_drag(event.pos),
                drag_result,
            ),
            _ => (self, ToolUpdateResult::Unmodified),
        }
    }
}

impl<S: Scalar> Default for CropTool<S> {
    fn default() -> (r: Self)
        ensures
            r@ == (CropToolView::<S> {
                crop: None,
                action: None,
                input_enabled: false,
                sender: None,
                outbox: seq![],
            }),
            r@.wf(),
    {
        CropTool {
            crop: None,
            action: None,
            input_enabled: false,
            sender: None,
            outbox: Vec::new(),
        }
    }
}

fn is_strictly_between<S: Scalar>(value: S, a: S, b: S, margin: S) -> (r: bool)
    ensures
        r == strictly_between(value, a, b, margin),
{
    let (mut min, mut max) = (a, b);
    if max.below(min) {
        min = b;
        max = a;
    }
    min.minus(margin).below(value) && value.below(max.plus(margin))
}

impl<S: Scalar> CropTool<S> {
    /// The crop, if there is one.
    pub fn get_crop(&self) -> (r: Option<&Crop<S>>)
        ensures
            r == (match self@.crop {
                Some(c) => Some(&c),
                None => None,
            }),
    {
        match &self.crop {
            Some(c) => Some(c),
            None => None,
        }
    }

    /// Whether `mouse_pos` is inside the crop, or outside it by less than `margin`.
    pub fn test_inside_crop(&self, mouse_pos: Vec2D<S>, margin: S) -> (r: bool)
        ensures
            r == (self@.crop matches Some(c) && c.spec_inside(mouse_pos, margin)),
    {
        let crop = match &self.crop {
            Some(c) => c,
            None => return false,
        };
        let (pos, size) = (crop.pos, crop.size);
        is_strictly_between(mouse_pos.x, pos.x, pos.x.plus(size.x), margin) && is_strictly_between(
            mouse_pos.y,
            pos.y,
            pos.y.plus(size.y),
            margin,
        )
    }

    /// Moves the edges that the dragged handle belongs to. The edges are measured from where they
    /// were when the drag began.
    pub fn apply_drag_handle_transformation(
        crop: &mut Crop<S>,
        state: &DragHandleState<S>,
        direction: Vec2D<S>,
    )
        ensures
            *final(crop) == dragged_crop(
                *old(crop),
                CropToolAction::DragHandle(*state),
                direction,
            ),
    {
        let across = Vec2D::new(direction.x, S::from_int(0));
        let along = Vec2D::new(S::from_int(0), direction.y);
        let mut tl = state.top_left_start;
        let mut br = state.bottom_right_start;
        match state.handle {
            CropHandle::TopLeftCorner => {
                tl = tl.plus(direction);
            },
            CropHandle::TopEdge => {
                tl = tl.plus(along);
            },
            CropHandle::TopRightCorner => {
                tl = tl.plus(along);
                br = br.plus(across);
            },
            CropHandle::RightEdge => {
                br = br.plus(across);
            },
            CropHandle::BottomRightCorner => {
                br = br.plus(direction);
            },
            CropHandle::BottomEdge => {
                br = br.plus(along);
            },
            CropHandle::BottomLeftCorner => {
                tl = tl.plus(across);
                br = br.plus(along);
            },
            CropHandle::LeftEdge => {
                tl = tl.plus(across);
            },
        }
        crop.pos = tl;
        crop.size = br.minus(tl);
    }

    /// Tells the sketch board how large the cropped area is, if there are a crop and a channel.
    pub fn emit_crop_dimensions_update(&mut self)
        ensures
            final(self)@ == old(self)@.emit_dimensions(),
    {
        if let (Some(crop), Some(_)) = (self.crop, self.sender) {
            let (_, size) = crop.get_rectangle();
            let width: i32 = size.x.to_nearest();
            let height: i32 = size.y.to_nearest();
            self.outbox.push(
                SketchBoardInput::Output(
                    SketchBoardOutput::DimensionsUpdate(Some((width, height))),
                ),
            );
        }
    }

    /// Begins a drag at `pos`.
    pub fn begin_drag(&mut self, pos: Vec2D<S>) -> (r: ToolUpdateResult<Crop<S>>)
        ensures
            final(self)@ == old(self)@.begin_drag(pos),
            final(self)@.wf(),
            r == ToolUpdateResult::<Crop<S>>::Redraw,
    {
        match self.crop {
            None => {
                self.crop = Some(Crop::new(pos));
                self.action = Some(CropToolAction::NewCrop);
            },
            Some(c) => {
                if let Some(handle) = c.test_handle_hit(pos, S::from_int(HANDLE_MARGIN_IN_2)) {
                    self.action = Some(
                        CropToolAction::DragHandle(
                            DragHandleState {
                                handle,
                                top_left_start: c.pos,
                                bottom_right_start: c.pos.plus(c.size),
                            },
                        ),
                    );
                    self.crop = Some(Crop { pos: c.pos, size: c.size, editing: true });
                } else if self.test_inside_crop(pos, S::from_int(0)) {
                    self.action = Some(CropToolAction::Move(MoveState { start: c.pos }));
                    self.crop = Some(Crop { pos: c.pos, size: c.size, editing: true });
                } else if self.test_inside_crop(pos, S::from_int(HANDLE_MARGIN_OUT)) {
                    let (handle, _) = c.get_closest_handle(pos);
                    self.action = Some(
                        CropToolAction::DragHandle(
                            DragHandleState {
                                handle,
                                top_left_start: c.pos,
                                bottom_right_start: c.pos.plus(c.size),
                            },
                        ),
                    );
                    self.crop = Some(Crop { pos: c.pos, size: c.size, editing: true });
                } else {
                    self.crop = Some(Crop::new(pos));
                    self.action = Some(CropToolAction::NewCrop);
                }
            },
        }
        ToolUpdateResult::Redraw
    }

    /// Follows a drag, by now by `direction` from where it began.
    pub fn update_drag(&mut self, direction: Vec2D<S>) -> (r: ToolUpdateResult<Crop<S>>)
        ensures
            final(self)@ == old(self)@.update_drag(direction),
            old(self)@.wf() ==> final(self)@.wf(),
            r == (if old(self)@.dragging() {
                ToolUpdateResult::<Crop<S>>::Redraw
            } else {
                ToolUpdateResult::Unmodified
            }),
    {
        let mut crop = match self.crop {
            Some(c) => c,
            None => return ToolUpdateResult::Unmodified,
        };
        let action = match self.action {
            Some(a) => a,
            None => return ToolUpdateResult::Unmodified,
        };
        match action {
            CropToolAction::NewCrop => {
                crop.size = direction;
                self.crop = Some(crop);
                self.emit_crop_dimensions_update();
            },
            CropToolAction::DragHandle(state) => {
                Self::apply_drag_handle_transformation(&mut crop, &state, direction);
                self.crop = Some(crop);
                self.emit_crop_dimensions_update();
            },
            CropToolAction::Move(state) => {
                crop.pos = state.start.plus(direction);
                self.crop = Some(crop);
            },
        }
        ToolUpdateResult::Redraw
    }

    /// Ends a drag, in all by `direction` from where it began. The result is never a commit,
    /// because a crop is not one of the drawables.
    pub fn end_drag(&mut self, direction: Vec2D<S>) -> (r: ToolUpdateResult<Crop<S>>)
        ensures
            final(self)@ == old(self)@.end_drag(direction),
            old(self)@.wf() ==> final(self)@.wf(),
            r == (if old(self)@.dragging() {
                ToolUpdateResult::<Crop<S>>::Redraw
            } else {
                ToolUpdateResult::Unmodified
            }),
    {
        let mut crop = match self.crop {
            Some(c) => c,
            None => return ToolUpdateResult::Unmodified,
        };
        let action = match self.action {
            Some(a) => a,
            None => return ToolUpdateResult::Unmodified,
        };
        match action {
            CropToolAction::NewCrop => {
                crop.size = direction;
            },
            CropToolAction::DragHandle(state) => {
                Self::apply_drag_handle_transformation(&mut crop, &state, direction);
            },
            CropToolAction::Move(state) => {
                crop.pos = state.start.plus(direction);
            },
        }
        crop.editing = false;
        self.crop = Some(crop);
        self.action = None;
        self.emit_crop_dimensions_update();
        ToolUpdateResult::Redraw
    }

    /// Whether the tool has something that can be confirmed or dismissed. A crop that exists is
    /// always applied, so the tool is active for as long as there is one: that keeps the buttons
    /// usable by which the mouse alone can reset it.
    pub fn active(&self) -> (r: bool)
        ensures
            r == (self@.crop is Some),
    {
        self.crop.is_some()
    }

    pub fn input_enabled(&self) -> (r: bool)
        ensures
            r == self@.input_enabled,
    {
        self.input_enabled
    }

    pub fn set_input_enabled(&mut self, value: bool)
        ensures
            final(self)@ == (CropToolView { input_enabled: value, ..old(self)@ }),
    {
        self.input_enabled = value;
    }

    pub fn get_tool_type(&self) -> (r: Tools)
        ensures
            r == Tools::Crop,
    {
        Tools::Crop
    }

    pub fn handle_key_event(&mut self, event: KeyEventMsg) -> (r: ToolUpdateResult<Crop<S>>)
        ensures
            (final(self)@, r) == old(self)@.key_event(event),
            old(self)@.wf() ==> final(self)@.wf(),
    {
        let editing = match &self.crop {
            Some(c) => c.editing,
            None => false,
        };
        match event.key {
            Key::Escape => if editing {
                self.handle_dismissed()
            } else {
                ToolUpdateResult::Unmodified
            },
            Key::Return => if editing {
                self.handle_deactivated()
            } else {
                ToolUpdateResult::Unmodified
            },
            _ => ToolUpdateResult::Unmodified,
        }
    }

    pub fn handle_mouse_event(&mut self, event: MouseEventMsg<S>) -> (r: ToolUpdateResult<Crop<S>>)
        ensures
            (final(self)@, r) == old(self)@.mouse_event(event),
            old(self)@.wf() ==> final(self)@.wf(),
    {
        let ctrl_pressed = event.modifier.control;
        let primary = event.button == MouseButton::Primary;
        let secondary = event.button == MouseButton::Secondary;
        match event.type_ {
            MouseEventType::Click => {
                if primary && ctrl_pressed {
                    self.handle_deactivated()
                } else if secondary && ctrl_pressed && self.crop.is_some() {
                    self.handle_dismissed()
                } else {
                    ToolUpdateResult::Unmodified
                }
            },
            MouseEventType::BeginDrag => {
                if primary && !ctrl_pressed {
                    self.begin_drag(event.pos)
                } else {
                    ToolUpdateResult::Unmodified
                }
            },
            MouseEventType::EndDrag => {
                if primary && !ctrl_pressed {
                    self.end_drag(event.pos)
                } else {
                    ToolUpdateResult::Unmodified
                }
            },
            MouseEventType::UpdateDrag => {
                if primary && !ctrl_pressed {
                    self.update_drag(event.pos)
                } else {
                    ToolUpdateResult::Unmodified
                }
            },
            _ => ToolUpdateResult::Unmodified,
        }
    }

    /// The tool was selected. A crop that exists is not put back into editing, or Escape would
    /// reset it.
    pub fn handle_activated(&mut self) -> (r: ToolUpdateResult<Crop<S>>)
        ensures
            final(self)@ == old(self)@,
            r == (if old(self)@.crop is Some {
                ToolUpdateResult::<Crop<S>>::Redraw
            } else {
                ToolUpdateResult::Unmodified
            }),
    {
        if self.crop.is_some() {
            return ToolUpdateResult::Redraw;
        }
        ToolUpdateResult::Unmodified
    }

    /// Another tool was selected, or the crop was confirmed.
    pub fn handle_deactivated(&mut self) -> (r: ToolUpdateResult<Crop<S>>)
        ensures
            final(self)@ == old(self)@.deactivated(),
            final(self)@.wf(),
            r == ToolUpdateResult::<Crop<S>>::Redraw,
    {
        if let Some(c) = self.crop {
            self.crop = Some(Crop { pos: c.pos, size: c.size, editing: false });
        }
        self.action = None;
        ToolUpdateResult::Redraw
    }

    /// The crop was reset.
    pub fn handle_dismissed(&mut self) -> (r: ToolUpdateResult<Crop<S>>)
        ensures
            final(self)@ == old(self)@.dismissed(),
            final(self)@.wf(),
            r == ToolUpdateResult::<Crop<S>>::RedrawAndStopPropagation,
    {
        self.crop = None;
        self.action = None;
        if self.sender.is_some() {
            self.outbox.push(SketchBoardInput::Output(SketchBoardOutput::DimensionsUpdate(None)));
        }
        ToolUpdateResult::RedrawAndStopPropagation
    }

    /// None: the crop is drawn by itself, from `get_crop`, and not with the drawables.
    pub fn get_drawable(&self) -> (r: Option<&Crop<S>>)
        ensures
            r is None,
    {
        None
    }

    pub fn set_sender(&mut self, sender: Sender)
        ensures
            final(self)@ == (CropToolView { sender: Some(sender), ..old(self)@ }),
    {
        self.sender = Some(sender);
    }
}

} // verus!
