use slint_surface_core::graphics::F32Bits;
use slint_surface_core::input::{
    handler_input_result, EventResult, InputEventFilterResult, InputEventResult, KeyboardModifiers,
    LogicalPoint, MouseCursor, MouseEvent, PointerEvent, PointerEventButton, PointerEventKind,
    PointerScrollEvent,
};
use slint_surface_core::render_surface_item::{RenderSurfaceItem, RenderSurfacePointerStep};

fn at(x: f32, y: f32) -> LogicalPoint {
    LogicalPoint { x: F32Bits(x.to_bits()), y: F32Bits(y.to_bits()) }
}

#[test]
fn render_surface_item_grabs_from_press_to_release() {
    let mut item = RenderSurfaceItem::default();
    let modifiers = KeyboardModifiers { shift: true, ..Default::default() };
    let press = MouseEvent::Pressed {
        position: at(3., 4.),
        button: PointerEventButton::Left,
        click_count: 1,
        touch_finger_id: 9,
    };
    assert_eq!(
        item.input_event(&press, modifiers),
        RenderSurfacePointerStep::Finished { result: InputEventResult::EventIgnored, pointer_event: None }
    );
    item.enabled = true;
    assert_eq!(
        item.input_event(&press, modifiers),
        RenderSurfacePointerStep::Finished {
            result: InputEventResult::GrabMouse,
            pointer_event: Some(PointerEvent {
                button: PointerEventButton::Left,
                kind: PointerEventKind::Down,
                modifiers,
                touch_finger_id: 9,
            }),
        }
    );
    assert!(item.grabbed);
    assert_eq!(item.mouse_x, F32Bits(3f32.to_bits()));
    let moved = MouseEvent::Moved { position: at(5., 6.), touch_finger_id: 9 };
    assert!(matches!(
        item.input_event(&moved, modifiers),
        RenderSurfacePointerStep::Finished { result: InputEventResult::GrabMouse, .. }
    ));
    assert_eq!(item.mouse_y, F32Bits(6f32.to_bits()));
    let release = MouseEvent::Released {
        position: at(5., 6.),
        button: PointerEventButton::Left,
        click_count: 1,
        touch_finger_id: 9,
    };
    assert!(matches!(
        item.input_event(&release, modifiers),
        RenderSurfacePointerStep::Finished { result: InputEventResult::EventAccepted, .. }
    ));
    assert!(!item.grabbed);
    assert!(matches!(
        item.input_event(&moved, modifiers),
        RenderSurfacePointerStep::Finished { result: InputEventResult::EventAccepted, .. }
    ));
}

#[test]
fn render_surface_item_exit_cancels_and_wheel_scrolls() {
    let mut item = RenderSurfaceItem { enabled: true, grabbed: true, ..Default::default() };
    let modifiers = KeyboardModifiers::default();
    assert_eq!(
        item.input_event(&MouseEvent::Exit, modifiers),
        RenderSurfacePointerStep::Finished {
            result: InputEventResult::EventAccepted,
            pointer_event: Some(PointerEvent {
                button: PointerEventButton::Other,
                kind: PointerEventKind::Cancel,
                modifiers,
                touch_finger_id: 0,
            }),
        }
    );
    assert!(!item.grabbed);
    let wheel = MouseEvent::Wheel {
        position: at(1., 1.),
        delta_x: F32Bits(2f32.to_bits()),
        delta_y: F32Bits((-3f32).to_bits()),
    };
    assert_eq!(
        item.input_event(&wheel, modifiers),
        RenderSurfacePointerStep::CallScroll(PointerScrollEvent {
            delta_x: F32Bits(2f32.to_bits()),
            delta_y: F32Bits((-3f32).to_bits()),
            modifiers,
        })
    );
    assert_eq!(handler_input_result(EventResult::Reject), InputEventResult::EventIgnored);
    assert_eq!(
        item.input_event(&MouseEvent::Drop { position: at(0., 0.) }, modifiers),
        RenderSurfacePointerStep::Finished { result: InputEventResult::EventIgnored, pointer_event: None }
    );
}

#[test]
fn render_surface_item_filter_sets_cursor() {
    let item = RenderSurfaceItem { enabled: true, mouse_cursor: MouseCursor::Crosshair, ..Default::default() };
    let mut cursor = MouseCursor::Default;
    let moved = MouseEvent::Moved { position: at(1., 1.), touch_finger_id: 0 };
    assert_eq!(
        item.input_event_filter_before_children(&moved, &mut cursor),
        InputEventFilterResult::ForwardAndInterceptGrab
    );
    assert_eq!(cursor, MouseCursor::Crosshair);
    let mut cursor = MouseCursor::Default;
    assert_eq!(
        item.input_event_filter_before_children(&MouseEvent::Exit, &mut cursor),
        InputEventFilterResult::ForwardAndIgnore
    );
    assert_eq!(
        item.input_event_filter_before_children(&MouseEvent::DragMove { position: at(1., 1.) }, &mut cursor),
        InputEventFilterResult::ForwardAndIgnore
    );
    assert_eq!(cursor, MouseCursor::Default);
    assert!(item.clips_children());
}
