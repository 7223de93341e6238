use sketch_tools::math::Vec2D;
use sketch_tools::scalar::Scalar;
use sketch_tools::sketch_board::{
    Key, KeyEventMsg, Modifiers, MouseButton, MouseEventMsg, MouseEventType, Sender,
    SketchBoardInput, SketchBoardOutput, ToolUpdateResult, Tools,
};
use sketch_tools::canvas::{DrawOp, Ink};
use sketch_tools::tools::crop::{Crop, CropHandle, CropTool, CropToolAction};

#[derive(Clone, Copy, Debug, PartialEq)]
struct F32(f32);

impl Scalar for F32 {
    fn spec_plus(self, rhs: Self) -> Self {
        F32(self.0 + rhs.0)
    }
    fn plus(self, rhs: Self) -> Self {
        self.spec_plus(rhs)
    }
    fn spec_minus(self, rhs: Self) -> Self {
        F32(self.0 - rhs.0)
    }
    fn minus(self, rhs: Self) -> Self {
        self.spec_minus(rhs)
    }
    fn spec_times(self, rhs: Self) -> Self {
        F32(self.0 * rhs.0)
    }
    fn times(self, rhs: Self) -> Self {
        self.spec_times(rhs)
    }
    fn spec_over(self, rhs: Self) -> Self {
        F32(self.0 / rhs.0)
    }
    fn over(self, rhs: Self) -> Self {
        self.spec_over(rhs)
    }
    fn spec_negated(self) -> Self {
        F32(-self.0)
    }
    fn negated(self) -> Self {
        self.spec_negated()
    }
    fn spec_magnitude(self) -> Self {
        F32(self.0.abs())
    }
    fn magnitude(self) -> Self {
        self.spec_magnitude()
    }
    fn spec_larger(self, rhs: Self) -> Self {
        F32(self.0.max(rhs.0))
    }
    fn larger(self, rhs: Self) -> Self {
        self.spec_larger(rhs)
    }
    fn spec_floor(self) -> Self {
        F32(self.0.floor())
    }
    fn floor(self) -> Self {
        self.spec_floor()
    }
    fn spec_ceil(self) -> Self {
        F32(self.0.ceil())
    }
    fn ceil(self) -> Self {
        self.spec_ceil()
    }
    fn spec_below(self, rhs: Self) -> bool {
        self.0 < rhs.0
    }
    fn below(self, rhs: Self) -> bool {
        self.spec_below(rhs)
    }
    fn spec_at_most(self, rhs: Self) -> bool {
        self.0 <= rhs.0
    }
    fn at_most(self, rhs: Self) -> bool {
        self.spec_at_most(rhs)
    }
    fn spec_same(self, rhs: Self) -> bool {
        self.0 == rhs.0
    }
    fn same(self, rhs: Self) -> bool {
        self.spec_same(rhs)
    }
    fn spec_from_int(n: i32) -> Self {
        F32(n as f32)
    }
    fn from_int(n: i32) -> Self {
        Self::spec_from_int(n)
    }
    fn spec_to_int(self) -> i32 {
        self.0 as i32
    }
    fn to_int(self) -> i32 {
        self.spec_to_int()
    }
    fn spec_to_nearest(self) -> i32 {
        self.0.round() as i32
    }
    fn to_nearest(self) -> i32 {
        self.spec_to_nearest()
    }
    fn spec_largest() -> Self {
        F32(f32::MAX)
    }
    fn largest() -> Self {
        Self::spec_largest()
    }
}

fn vec(x: f32, y: f32) -> Vec2D<F32> {
    Vec2D::new(F32(x), F32(y))
}

fn mouse_event(
    type_: MouseEventType,
    button: MouseButton,
    pos: Vec2D<F32>,
) -> MouseEventMsg<F32> {
    MouseEventMsg { type_, button, modifier: Modifiers::none(), pos, n_pressed: 1 }
}

fn control() -> Modifiers {
    Modifiers { control: true, ..Modifiers::none() }
}

fn key_event(key: Key) -> KeyEventMsg {
    KeyEventMsg { key, modifier: Modifiers::none() }
}

/// Draw a crop area: press at `pos`, drag by `size`, release. Positions for drag updates are
/// relative to the start of the drag, mirroring what the sketch board passes in.
fn draw_crop(tool: &mut CropTool<F32>, pos: Vec2D<F32>, size: Vec2D<F32>) {
    tool.handle_mouse_event(mouse_event(MouseEventType::BeginDrag, MouseButton::Primary, pos));
    tool.handle_mouse_event(mouse_event(MouseEventType::UpdateDrag, MouseButton::Primary, size));
    tool.handle_mouse_event(mouse_event(MouseEventType::EndDrag, MouseButton::Primary, size));
}

#[test]
fn releasing_the_mouse_finishes_the_crop() {
    let mut tool = CropTool::default();
    draw_crop(&mut tool, vec(100.0, 100.0), vec(50.0, 40.0));

    let (pos, size) = tool.get_crop().expect("crop exists").get_rectangle();
    assert_eq!((pos.x.0, pos.y.0), (100.0, 100.0));
    assert_eq!((size.x.0, size.y.0), (50.0, 40.0));
    assert!(!tool.get_crop().unwrap().editing);
    // The tool stays "active" so the toolbar commit/dismiss buttons remain usable.
    assert!(tool.active());
}

#[test]
fn escape_after_drawing_keeps_the_crop_and_falls_through() {
    let mut tool = CropTool::default();
    draw_crop(&mut tool, vec(10.0, 10.0), vec(30.0, 30.0));

    let result = tool.handle_key_event(key_event(Key::Escape));

    // Unmodified lets the sketch board run the configured actions-on-escape, with the crop
    // still in place, instead of silently resetting it.
    assert!(matches!(result, ToolUpdateResult::Unmodified));
    assert!(tool.get_crop().is_some());
}

#[test]
fn enter_after_drawing_keeps_the_crop_and_falls_through() {
    let mut tool = CropTool::default();
    draw_crop(&mut tool, vec(10.0, 10.0), vec(30.0, 30.0));

    let result = tool.handle_key_event(key_event(Key::Return));

    assert!(matches!(result, ToolUpdateResult::Unmodified));
    assert!(tool.get_crop().is_some());
}

#[test]
fn escape_mid_drag_resets_the_crop_without_leaking_the_event() {
    let mut tool = CropTool::default();
    tool.handle_mouse_event(mouse_event(
        MouseEventType::BeginDrag,
        MouseButton::Primary,
        vec(10.0, 10.0),
    ));

    let result = tool.handle_key_event(key_event(Key::Escape));

    assert!(tool.get_crop().is_none());
    // Stopping propagation is what keeps a crop-resetting Escape from also running
    // actions-on-escape, which would copy the uncropped image.
    assert!(matches!(result, ToolUpdateResult::RedrawAndStopPropagation));
}

#[test]
fn reselecting_the_tool_does_not_reopen_editing() {
    let mut tool = CropTool::default();
    draw_crop(&mut tool, vec(10.0, 10.0), vec(30.0, 30.0));

    tool.handle_activated();
    let result = tool.handle_key_event(key_event(Key::Escape));

    assert!(matches!(result, ToolUpdateResult::Unmodified));
    assert!(tool.get_crop().is_some());
}

#[test]
fn ctrl_right_click_resets_a_finished_crop() {
    let mut tool = CropTool::default();
    draw_crop(&mut tool, vec(10.0, 10.0), vec(30.0, 30.0));

    let mut event =
        mouse_event(MouseEventType::Click, MouseButton::Secondary, vec(20.0, 20.0));
    event.modifier = control();
    let result = tool.handle_mouse_event(event);

    assert!(tool.get_crop().is_none());
    assert!(matches!(result, ToolUpdateResult::RedrawAndStopPropagation));
}

#[test]
fn ctrl_right_click_without_a_crop_falls_through() {
    let mut tool: CropTool<F32> = CropTool::default();

    let mut event =
        mouse_event(MouseEventType::Click, MouseButton::Secondary, vec(20.0, 20.0));
    event.modifier = control();
    let result = tool.handle_mouse_event(event);

    // Otherwise the crop tool would swallow actions-on-right-click.
    assert!(matches!(result, ToolUpdateResult::Unmodified));
}

#[test]
fn adjusting_a_handle_finishes_editing_again() {
    let mut tool = CropTool::default();
    draw_crop(&mut tool, vec(100.0, 100.0), vec(100.0, 100.0));

    // Grab the bottom right corner and drag it further out.
    tool.handle_mouse_event(mouse_event(
        MouseEventType::BeginDrag,
        MouseButton::Primary,
        vec(200.0, 200.0),
    ));
    assert!(tool.get_crop().unwrap().editing);
    tool.handle_mouse_event(mouse_event(
        MouseEventType::EndDrag,
        MouseButton::Primary,
        vec(50.0, 50.0),
    ));

    assert!(!tool.get_crop().unwrap().editing);
    let (pos, size) = tool.get_crop().unwrap().get_rectangle();
    assert_eq!((pos.x.0, pos.y.0), (100.0, 100.0));
    assert_eq!((size.x.0, size.y.0), (150.0, 150.0));
    assert!(matches!(
        tool.handle_key_event(key_event(Key::Escape)),
        ToolUpdateResult::Unmodified
    ));
}

fn drag(tool: &mut CropTool<F32>, from: Vec2D<F32>, by: Vec2D<F32>) {
    tool.handle_mouse_event(mouse_event(MouseEventType::BeginDrag, MouseButton::Primary, from));
    tool.handle_mouse_event(mouse_event(MouseEventType::EndDrag, MouseButton::Primary, by));
}

fn area(tool: &CropTool<F32>) -> (f32, f32, f32, f32) {
    let crop = tool.get_crop().unwrap();
    (crop.pos.x.0, crop.pos.y.0, crop.size.x.0, crop.size.y.0)
}

#[test]
fn rectangle_drawn_up_and_to_the_left() {
    let mut tool = CropTool::default();
    draw_crop(&mut tool, vec(100.0, 80.0), vec(-50.0, -20.5));

    assert_eq!(area(&tool), (100.0, 80.0, -50.0, -20.5));
    let (pos, size) = tool.get_crop().unwrap().get_rectangle();
    assert_eq!((pos.x.0, pos.y.0), (50.0, 59.5));
    assert_eq!((size.x.0, size.y.0), (50.0, 20.5));
}

#[test]
fn handles_are_on_corners_and_in_the_middle_of_edges() {
    let (pos, size) = (vec(10.0, 20.0), vec(100.0, 50.0));
    let expected = [
        (10.0, 20.0),
        (60.0, 20.0),
        (110.0, 20.0),
        (110.0, 45.0),
        (110.0, 70.0),
        (60.0, 70.0),
        (10.0, 70.0),
        (10.0, 45.0),
    ];
    for (handle, (x, y)) in CropHandle::all().into_iter().zip(expected) {
        let at = Crop::get_handle_pos(pos, size, handle);
        assert_eq!((at.x.0, at.y.0), (x, y), "{handle:?}");
    }
}

#[test]
fn closest_handle_is_the_first_at_its_distance() {
    let crop = Crop { pos: vec(0.0, 0.0), size: vec(100.0, 100.0), editing: false };
    // As far from the left edge's handle as from the right edge's.
    assert_eq!(crop.get_closest_handle(vec(50.0, 50.0)), (CropHandle::TopEdge, F32(2500.0)));
    assert_eq!(crop.get_closest_handle(vec(97.0, 48.0)), (CropHandle::RightEdge, F32(13.0)));
}

#[test]
fn handle_hit_depends_on_the_margin() {
    let crop = Crop { pos: vec(0.0, 0.0), size: vec(100.0, 100.0), editing: false };
    // Seven from the corner is 49 squared, which is the size of the handle itself.
    assert_eq!(crop.test_handle_hit(vec(-7.0, 0.0), F32(0.0)), None);
    assert_eq!(
        crop.test_handle_hit(vec(-6.5, 0.0), F32(0.0)),
        Some(CropHandle::TopLeftCorner)
    );
    assert_eq!(
        crop.test_handle_hit(vec(-7.0, 0.0), F32(1.0)),
        Some(CropHandle::TopLeftCorner)
    );
}

#[test]
fn inside_of_a_crop_is_without_its_edges() {
    let mut tool = CropTool::default();
    assert!(!tool.test_inside_crop(vec(0.0, 0.0), F32(40.0)));
    draw_crop(&mut tool, vec(100.0, 100.0), vec(-50.0, 40.0));
    assert!(tool.test_inside_crop(vec(75.0, 120.0), F32(0.0)));
    assert!(!tool.test_inside_crop(vec(50.0, 120.0), F32(0.0)));
    assert!(tool.test_inside_crop(vec(50.0, 120.0), F32(0.5)));
    assert!(!tool.test_inside_crop(vec(75.0, 180.0), F32(40.0)));
}

#[test]
fn press_inside_moves_the_crop() {
    let mut tool = CropTool::default();
    draw_crop(&mut tool, vec(100.0, 100.0), vec(200.0, 200.0));
    drag(&mut tool, vec(160.0, 250.0), vec(-30.0, 5.0));
    assert_eq!(area(&tool), (70.0, 105.0, 200.0, 200.0));
}

#[test]
fn press_near_the_edge_grabs_the_closest_handle() {
    let mut tool = CropTool::default();
    draw_crop(&mut tool, vec(100.0, 100.0), vec(200.0, 200.0));
    // Too far from every handle, but less than the outer margin from the edge.
    drag(&mut tool, vec(335.0, 160.0), vec(10.0, 77.0));
    assert_eq!(area(&tool), (100.0, 100.0, 210.0, 200.0));
}

#[test]
fn press_far_outside_begins_a_new_crop() {
    let mut tool = CropTool::default();
    draw_crop(&mut tool, vec(100.0, 100.0), vec(200.0, 200.0));
    drag(&mut tool, vec(340.0, 160.0), vec(10.0, 77.0));
    assert_eq!(area(&tool), (340.0, 160.0, 10.0, 77.0));
}

#[test]
fn each_handle_moves_its_edges() {
    let expected = [
        (CropHandle::TopLeftCorner, (110.0, 105.0, 190.0, 195.0)),
        (CropHandle::TopEdge, (100.0, 105.0, 200.0, 195.0)),
        (CropHandle::TopRightCorner, (100.0, 105.0, 210.0, 195.0)),
        (CropHandle::RightEdge, (100.0, 100.0, 210.0, 200.0)),
        (CropHandle::BottomRightCorner, (100.0, 100.0, 210.0, 205.0)),
        (CropHandle::BottomEdge, (100.0, 100.0, 200.0, 205.0)),
        (CropHandle::BottomLeftCorner, (110.0, 100.0, 190.0, 205.0)),
        (CropHandle::LeftEdge, (110.0, 100.0, 190.0, 200.0)),
    ];
    for (handle, wanted) in expected {
        let mut tool = CropTool::default();
        draw_crop(&mut tool, vec(100.0, 100.0), vec(200.0, 200.0));
        let at = Crop::get_handle_pos(vec(100.0, 100.0), vec(200.0, 200.0), handle);
        drag(&mut tool, at, vec(10.0, 5.0));
        assert_eq!(area(&tool), wanted, "{handle:?}");
    }
}

#[test]
fn updates_on_the_way_do_not_matter() {
    let mut tool = CropTool::default();
    draw_crop(&mut tool, vec(100.0, 100.0), vec(200.0, 200.0));
    tool.begin_drag(vec(300.0, 300.0));
    for step in [vec(1.0, 2.0), vec(-500.0, 30.0), vec(7.0, 7.0)] {
        tool.update_drag(step);
    }
    tool.end_drag(vec(10.0, 20.0));
    assert_eq!(area(&tool), (100.0, 100.0, 210.0, 220.0));
}

#[test]
fn drag_by_nothing_leaves_the_crop() {
    let mut tool: CropTool<i64> = CropTool::default();
    tool.begin_drag(Vec2D::new(10, 10));
    tool.end_drag(Vec2D::new(300, 300));
    let before = *tool.get_crop().unwrap();
    for press in [Vec2D::new(10, 10), Vec2D::new(60, 200), Vec2D::new(330, 90)] {
        tool.begin_drag(press);
        assert!(tool.get_crop().unwrap().editing);
        tool.end_drag(Vec2D::new(0, 0));
        assert_eq!(*tool.get_crop().unwrap(), before);
    }
}

#[test]
fn drags_that_did_not_begin_are_ignored() {
    let mut tool: CropTool<F32> = CropTool::default();
    assert!(matches!(tool.update_drag(vec(1.0, 1.0)), ToolUpdateResult::Unmodified));
    assert!(matches!(tool.end_drag(vec(1.0, 1.0)), ToolUpdateResult::Unmodified));
    draw_crop(&mut tool, vec(100.0, 100.0), vec(200.0, 200.0));
    assert!(matches!(tool.update_drag(vec(1.0, 1.0)), ToolUpdateResult::Unmodified));
    assert!(matches!(tool.end_drag(vec(1.0, 1.0)), ToolUpdateResult::Unmodified));
    assert_eq!(area(&tool), (100.0, 100.0, 200.0, 200.0));
}

#[test]
fn enter_mid_drag_confirms_the_crop() {
    let mut tool = CropTool::default();
    tool.begin_drag(vec(10.0, 10.0));
    tool.update_drag(vec(20.0, 20.0));
    let result = tool.handle_key_event(key_event(Key::Return));
    assert!(matches!(result, ToolUpdateResult::Redraw));
    assert_eq!(area(&tool), (10.0, 10.0, 20.0, 20.0));
    assert!(!tool.get_crop().unwrap().editing);
    assert!(tool.action.is_none());
}

#[test]
fn control_and_the_primary_button_confirm_and_do_not_drag() {
    let mut tool = CropTool::default();
    tool.begin_drag(vec(10.0, 10.0));
    let mut event = mouse_event(MouseEventType::Click, MouseButton::Primary, vec(0.0, 0.0));
    event.modifier = control();
    assert!(matches!(tool.handle_mouse_event(event), ToolUpdateResult::Redraw));
    assert!(!tool.get_crop().unwrap().editing);

    let mut tool: CropTool<F32> = CropTool::default();
    let mut event = mouse_event(MouseEventType::BeginDrag, MouseButton::Primary, vec(0.0, 0.0));
    event.modifier = control();
    assert!(matches!(tool.handle_mouse_event(event), ToolUpdateResult::Unmodified));
    assert!(!tool.active());
}

#[test]
fn other_keys_and_buttons_fall_through() {
    let mut tool = CropTool::default();
    tool.begin_drag(vec(10.0, 10.0));
    assert!(matches!(
        tool.handle_key_event(key_event(Key::Delete)),
        ToolUpdateResult::Unmodified
    ));
    let event = mouse_event(MouseEventType::EndDrag, MouseButton::Middle, vec(0.0, 0.0));
    assert!(matches!(tool.handle_mouse_event(event), ToolUpdateResult::Unmodified));
    let event = mouse_event(MouseEventType::Release, MouseButton::Primary, vec(0.0, 0.0));
    assert!(matches!(tool.handle_mouse_event(event), ToolUpdateResult::Unmodified));
    assert!(matches!(tool.action, Some(CropToolAction::NewCrop)));
}

#[test]
fn the_size_is_told_where_there_is_a_channel() {
    let notice = |size| {
        SketchBoardInput::Output(SketchBoardOutput::DimensionsUpdate(size))
    };
    let mut tool = CropTool::default();
    draw_crop(&mut tool, vec(100.0, 100.0), vec(50.0, 40.0));
    assert!(tool.outbox.is_empty());

    tool.set_sender(Sender { id: 3 });
    // A corner: told while it is dragged, and when it is let go.
    tool.begin_drag(vec(150.0, 140.0));
    tool.update_drag(vec(0.5, 0.4));
    tool.end_drag(vec(-100.0, 2.5));
    // The whole area: told only when it is let go.
    tool.begin_drag(vec(76.0, 121.0));
    assert!(matches!(tool.action, Some(CropToolAction::Move(_))));
    tool.update_drag(vec(5.0, 5.0));
    tool.handle_deactivated();
    tool.handle_dismissed();
    assert_eq!(
        tool.outbox,
        vec![notice(Some((51, 40))), notice(Some((50, 43))), notice(None)]
    );
}

#[test]
fn moving_tells_the_size_once() {
    let mut tool = CropTool::default();
    draw_crop(&mut tool, vec(0.0, 0.0), vec(300.0, 300.0));
    tool.set_sender(Sender { id: 0 });
    tool.begin_drag(vec(75.0, 75.0));
    tool.update_drag(vec(3.0, 3.0));
    assert!(tool.outbox.is_empty());
    tool.end_drag(vec(4.0, 4.0));
    assert_eq!(
        tool.outbox,
        vec![SketchBoardInput::Output(SketchBoardOutput::DimensionsUpdate(Some((300, 300))))]
    );
}

#[test]
fn crop_is_drawn_with_its_handles() {
    let crop = Crop { pos: vec(10.0, 20.0), size: vec(100.0, 50.0), editing: false };
    let ops = crop.draw(F32(2.0), (vec(0.0, 0.0), vec(640.0, 480.0)));
    assert_eq!(ops.len(), 20);
    assert_eq!(ops[0], DrawOp::Save);
    assert_eq!(
        ops[1],
        DrawOp::FillFrame {
            outer_pos: vec(0.0, 0.0),
            outer_size: vec(640.0, 480.0),
            inner_pos: vec(10.0, 20.0),
            inner_size: vec(100.0, 50.0),
            ink: Ink::Rgba { r: F32(0.0), g: F32(0.0), b: F32(0.0), a: F32(0.5) },
        }
    );
    assert_eq!(
        ops[2],
        DrawOp::StrokeRect {
            pos: vec(10.0, 20.0),
            size: vec(100.0, 50.0),
            ink: Ink::Rgba { r: F32(0.1), g: F32(0.1), b: F32(0.1), a: F32(1.0) },
            width: F32(2.0),
        }
    );
    assert_eq!(
        ops[3],
        DrawOp::FillCircle {
            center: vec(10.0, 20.0),
            radius: F32(2.5),
            ink: Ink::Rgba { r: F32(0.0), g: F32(0.0), b: F32(0.0), a: F32(0.4) },
        }
    );
    assert_eq!(
        ops[18],
        DrawOp::StrokeCircle {
            center: vec(110.0, 45.0),
            radius: F32(2.5),
            ink: Ink::Rgba { r: F32(0.9), g: F32(0.9), b: F32(0.9), a: F32(1.0) },
            width: F32(1.0),
        }
    );
    assert_eq!(ops[19], DrawOp::Restore);
    for handle in CropHandle::all() {
        let at = Crop::get_handle_pos(crop.pos, crop.size, handle);
        assert!(ops.iter().any(|op| matches!(op, DrawOp::FillCircle { center, .. } if *center == at)));
    }
    let edited = Crop { editing: true, ..crop };
    assert_eq!(edited.draw(F32(2.0), (vec(0.0, 0.0), vec(640.0, 480.0))), ops);
}

#[test]
fn crop_tool_says_what_it_is() {
    let mut tool: CropTool<F32> = CropTool::default();
    assert_eq!(tool.get_tool_type(), Tools::Crop);
    assert!(!tool.input_enabled());
    tool.set_input_enabled(true);
    assert!(tool.input_enabled());
    assert!(!tool.active());
    assert!(matches!(tool.handle_activated(), ToolUpdateResult::Unmodified));
    draw_crop(&mut tool, vec(0.0, 0.0), vec(30.0, 30.0));
    assert!(matches!(tool.handle_activated(), ToolUpdateResult::Redraw));
    assert!(tool.get_drawable().is_none());
}

#[test]
fn whole_pixels_stop_at_the_end_of_their_range() {
    assert_eq!(Scalar::plus(i64::MAX, 1), i64::MAX);
    assert_eq!(Scalar::minus(i64::MIN, 1), i64::MIN);
    assert_eq!(Scalar::times(i64::MIN, i64::MIN), i64::MAX);
    assert_eq!(Scalar::over(-7i64, 2), -3);
    assert_eq!(Scalar::over(7i64, -2), -3);
    assert_eq!(Scalar::over(i64::MIN, -1), i64::MAX);
    assert_eq!(Scalar::over(0i64, 0), 0);
    assert_eq!(Scalar::over(-3i64, 0), i64::MIN);
    assert_eq!(Scalar::magnitude(i64::MIN), i64::MAX);
    assert_eq!(Scalar::negated(5i64), -5);
    assert_eq!(Scalar::to_int(1i64 << 40), i32::MAX);
    assert_eq!(Scalar::to_nearest(-(1i64 << 40)), i32::MIN);
}
