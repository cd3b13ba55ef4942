use slint_surface_core::external_text_input::{ExternalRenderStep, ExternalTextInputItem};
use slint_surface_core::input::{
    FocusEvent, FocusEventResult, FocusReason, InternalKeyEvent, KeyEventResult, KeyEventType,
    LogicalPoint, MouseEvent, PointerEventButton, StandardShortcut, InputEventResult,
};
use slint_surface_core::graphics::F32Bits;
use slint_surface_core::text_input::{InputMethodAction, KeyEventStep, TextInputNotification};

fn press() -> MouseEvent {
    MouseEvent::Pressed {
        position: LogicalPoint { x: F32Bits(0), y: F32Bits(0) },
        button: PointerEventButton::Left,
        click_count: 1,
        touch_finger_id: 0,
    }
}

#[test]
fn external_text_input_preedit_and_commit_keep_external_ranges() {
    let mut item = ExternalTextInputItem::default();
    let preedit = match item.dispatch_preedit(&InternalKeyEvent {
        event_type: KeyEventType::UpdateComposition,
        preedit_text: "é".into(),
        replacement_range: Some(-2..1),
        preedit_selection: Some(0..2),
        ..Default::default()
    }) {
        TextInputNotification::PreeditUpdated(text) => text,
        other => panic!("unexpected notification {other:?}"),
    };
    assert_eq!(preedit, "é");
    assert_eq!(item.replacement_start, -2);
    assert_eq!(item.replacement_end, 1);
    assert_eq!(item.preedit_selection_start, 0);
    assert_eq!(item.preedit_selection_end, 2);
    assert_eq!(item.event_input_generation, 0);

    let mut event = InternalKeyEvent {
        event_type: KeyEventType::CommitComposition,
        replacement_range: Some(-2..1),
        ..Default::default()
    };
    event.key_event.text = "界".into();
    let committed = match item.dispatch_commit(&event) {
        TextInputNotification::CompositionCommitted(text) => text,
        other => panic!("unexpected notification {other:?}"),
    };
    assert_eq!(committed, "界");
    assert!(item.preedit_text.is_empty());
}

#[test]
fn external_text_input_empty_preedit_cancels_without_commit() {
    let mut item = ExternalTextInputItem::default();
    let cancelled = matches!(
        item.dispatch_preedit(&InternalKeyEvent {
            event_type: KeyEventType::UpdateComposition,
            ..Default::default()
        }),
        TextInputNotification::CompositionCancelled
    );
    assert!(cancelled);
}

#[test]
fn external_text_input_preedit_defaults_ranges() {
    let mut item = ExternalTextInputItem::default();
    item.input_generation = 9;
    item.dispatch_preedit(&InternalKeyEvent {
        event_type: KeyEventType::UpdateComposition,
        preedit_text: "ka".into(),
        ..Default::default()
    });
    assert_eq!((item.replacement_start, item.replacement_end), (0, 0));
    assert_eq!((item.preedit_selection_start, item.preedit_selection_end), (-1, -1));
    assert_eq!(item.event_input_generation, 9);
    assert_eq!(item.preedit_text, "ka");
}

#[test]
fn external_text_input_routes_key_events() {
    let mut item = ExternalTextInputItem::default();
    let pressed = InternalKeyEvent::default();
    assert!(matches!(
        item.key_event(&pressed, Some(StandardShortcut::Copy)),
        KeyEventStep::Finished {
            result: KeyEventResult::EventAccepted,
            notification: TextInputNotification::CopyRequested
        }
    ));
    assert!(matches!(
        item.key_event(&pressed, Some(StandardShortcut::Cut)),
        KeyEventStep::Finished { notification: TextInputNotification::CutRequested, .. }
    ));
    assert!(matches!(
        item.key_event(&pressed, Some(StandardShortcut::Paste)),
        KeyEventStep::Finished { notification: TextInputNotification::PasteRequested, .. }
    ));
    assert!(matches!(item.key_event(&pressed, Some(StandardShortcut::Undo)), KeyEventStep::CallKeyPressed));
    assert!(matches!(item.key_event(&pressed, None), KeyEventStep::CallKeyPressed));
    let released = InternalKeyEvent { event_type: KeyEventType::KeyReleased, ..Default::default() };
    assert!(matches!(item.key_event(&released, None), KeyEventStep::CallKeyReleased));
}

#[test]
fn external_text_input_focus_out_cancels_composition() {
    let mut item = ExternalTextInputItem::default();
    item.enabled = true;
    item.input_generation = 3;
    let step = item.focus_event(&FocusEvent::FocusIn(FocusReason::TabNavigation));
    assert_eq!(step.result, FocusEventResult::FocusAccepted);
    assert_eq!(step.text_input_focused, Some(true));
    assert_eq!(step.request, InputMethodAction::Enable);
    assert!(item.has_focus);
    assert_eq!(item.last_input_generation, 3);
    assert!(!item.render().update_input_method);

    item.preedit_text = "ni".into();
    let step = item.focus_event(&FocusEvent::FocusOut(FocusReason::WindowActivation));
    assert_eq!(step.request, InputMethodAction::Nothing);
    assert!(matches!(step.notification, TextInputNotification::Nothing));
    assert_eq!(item.preedit_text, "ni");

    let step = item.focus_event(&FocusEvent::FocusOut(FocusReason::PointerClick));
    assert_eq!(step.text_input_focused, Some(false));
    assert_eq!(step.request, InputMethodAction::Disable);
    assert!(matches!(step.notification, TextInputNotification::CompositionCancelled));
    assert!(item.preedit_text.is_empty());
    assert!(!item.has_focus);

    item.enabled = false;
    let step = item.focus_event(&FocusEvent::FocusIn(FocusReason::TabNavigation));
    assert_eq!(step.result, FocusEventResult::FocusIgnored);
    assert!(!item.has_focus);
}

#[test]
fn external_text_input_render_sends_each_generation_once() {
    let mut item = ExternalTextInputItem::default();
    item.init();
    item.enabled = true;
    item.has_focus = true;
    item.clipboard_write_generation = 4;
    item.clipboard_write_text = "copied".into();
    assert_eq!(item.render(), ExternalRenderStep { update_input_method: true, write_clipboard: true });
    assert_eq!(item.clipboard_written_generation, 4);
    assert_eq!(item.render(), ExternalRenderStep { update_input_method: false, write_clipboard: false });
    item.input_generation = 1;
    assert_eq!(item.render(), ExternalRenderStep { update_input_method: true, write_clipboard: false });
    item.clipboard_write_generation = -1;
    assert_eq!(item.render(), ExternalRenderStep { update_input_method: false, write_clipboard: false });
    assert!(item.deinit());
}

#[test]
fn external_text_input_click_takes_focus() {
    let mut item = ExternalTextInputItem::default();
    assert_eq!(item.input_event(&press()), (InputEventResult::EventIgnored, false));
    item.enabled = true;
    item.focus_on_click = true;
    assert_eq!(item.input_event(&press()), (InputEventResult::EventAccepted, true));
    assert_eq!(item.input_event(&MouseEvent::Exit), (InputEventResult::EventIgnored, false));
    item.has_focus = true;
    assert_eq!(item.input_event(&press()), (InputEventResult::EventIgnored, false));
}

#[test]
fn external_text_input_reports_clamped_offsets() {
    let mut item = ExternalTextInputItem::default();
    item.surrounding_text = "héllo".into();
    item.cursor_offset = 100;
    item.anchor_offset = -5;
    let state = item.ime_text_state();
    assert_eq!(state.cursor_position, 6);
    assert_eq!(state.anchor_position, Some(0));
    assert_eq!(state.preedit_offset, 6);
    assert_eq!(state.input_type, slint_surface_core::text_input::InputType::Text);
    assert_eq!(state.input_method_hints, None);
    item.anchor_offset = 7;
    assert_eq!(item.ime_text_state().anchor_position, None);
}
