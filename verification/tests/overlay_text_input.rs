use slint_surface_core::graphics::F32Bits;
use slint_surface_core::input::{
    EventResult, FocusEvent, FocusReason, InternalKeyEvent, KeyEventResult, KeyEventType,
    KeyboardModifiers,
};
use slint_surface_core::overlay_text_input::{
    is_control_code, same_effective_state, OverlayTextInputItem,
};
use slint_surface_core::text_input::{
    InputMethodAction, InputMethodHints, InputType, KeyEventStep, TextInputNotification,
};

fn activate(item: &mut OverlayTextInputItem, generation: i32) {
    item.enabled = true;
    item.has_focus = true;
    item.input_generation = generation;
    item.submitted_input_generation = generation;
    item.input_method_enabled = true;
}

fn length(v: f32) -> F32Bits {
    F32Bits(v.to_bits())
}

#[test]
fn overlay_text_input_preedit_and_commit_keep_external_ranges() {
    let mut item = OverlayTextInputItem::default();
    activate(&mut item, 7);
    let (accepted, notification) = item.dispatch_preedit(&InternalKeyEvent {
        event_type: KeyEventType::UpdateComposition,
        preedit_text: "é".into(),
        replacement_range: Some(-2..1),
        preedit_selection: Some(0..2),
        ..Default::default()
    });
    assert!(accepted);
    let preedit = match notification {
        TextInputNotification::PreeditUpdated(text) => text,
        other => panic!("unexpected notification {other:?}"),
    };
    assert_eq!(preedit, "é");
    assert_eq!(item.replacement_start, -2);
    assert_eq!(item.replacement_end, 1);
    assert_eq!(item.preedit_selection_start, 0);
    assert_eq!(item.preedit_selection_end, 2);
    assert_eq!(item.event_input_generation, 7);

    let mut event = InternalKeyEvent {
        event_type: KeyEventType::CommitComposition,
        replacement_range: Some(-2..1),
        ..Default::default()
    };
    event.key_event.text = "界".into();
    let (accepted, notification) = item.dispatch_commit(&event);
    assert!(accepted);
    let committed = match notification {
        TextInputNotification::CompositionCommitted(text) => text,
        other => panic!("unexpected notification {other:?}"),
    };
    assert_eq!(committed, "界");
    assert!(item.preedit_text.is_empty());
}

#[test]
fn overlay_text_input_empty_preedit_cancels_without_commit() {
    let mut item = OverlayTextInputItem::default();
    activate(&mut item, 3);
    let (accepted, notification) = item.dispatch_preedit(&InternalKeyEvent {
        event_type: KeyEventType::UpdateComposition,
        ..Default::default()
    });
    assert!(accepted);
    assert!(matches!(notification, TextInputNotification::CompositionCancelled));
}

#[test]
fn stale_or_unfocused_composition_is_rejected() {
    let mut item = OverlayTextInputItem::default();
    activate(&mut item, 4);
    let mut observed = 0;
    let event = InternalKeyEvent {
        event_type: KeyEventType::UpdateComposition,
        preedit_text: "compose".into(),
        ..Default::default()
    };

    item.input_generation = 5;
    let (accepted, notification) = item.dispatch_preedit(&event);
    if matches!(notification, TextInputNotification::PreeditUpdated(_)) {
        observed += 1;
    }
    assert!(!accepted);
    assert_eq!(observed, 0);
    assert!(item.preedit_text.is_empty());

    item.submitted_input_generation = 5;
    let (accepted, notification) = item.dispatch_preedit(&event);
    if matches!(notification, TextInputNotification::PreeditUpdated(_)) {
        observed += 1;
    }
    assert!(accepted);
    assert_eq!(observed, 1);
    assert_eq!(item.event_input_generation, 5);

    item.has_focus = false;
    let (accepted, notification) = item.dispatch_preedit(&event);
    if matches!(notification, TextInputNotification::PreeditUpdated(_)) {
        observed += 1;
    }
    assert!(!accepted);
    assert_eq!(observed, 1);
}

#[test]
fn printable_key_text_excludes_modifiers_and_platform_key_codes() {
    let event = |text: &str, modifiers| {
        let mut event = InternalKeyEvent::default();
        event.key_event.text = text.into();
        event.key_event.modifiers = modifiers;
        event
    };

    assert!(OverlayTextInputItem::is_printable_key_text(&event("界", Default::default())));
    assert!(OverlayTextInputItem::is_printable_key_text(&event(
        "A",
        KeyboardModifiers { shift: true, ..Default::default() }
    )));
    assert!(!OverlayTextInputItem::is_printable_key_text(&event("\u{f700}", Default::default())));
    assert!(!OverlayTextInputItem::is_printable_key_text(&event("\u{fffd}", Default::default())));
    assert!(!OverlayTextInputItem::is_printable_key_text(&event(
        "x",
        KeyboardModifiers { meta: true, ..Default::default() }
    )));
    assert!(!OverlayTextInputItem::is_printable_key_text(&event(
        " ",
        KeyboardModifiers { meta: true, ..Default::default() }
    )));
    assert!(!OverlayTextInputItem::is_printable_key_text(&event(
        " ",
        KeyboardModifiers { control: true, ..Default::default() }
    )));
    assert!(!OverlayTextInputItem::is_printable_key_text(&event(
        "x",
        KeyboardModifiers { alt: true, shift: true, ..Default::default() }
    )));
    assert!(OverlayTextInputItem::is_printable_key_text(&event("€", Default::default())));
    assert!(!OverlayTextInputItem::is_printable_key_text(&event("\n", Default::default())));
}

#[test]
fn candidate_geometry_updates_only_while_composition_is_active() {
    let mut item = OverlayTextInputItem::default();
    assert!(!item.record_effective_input_state());
    item.caret_y = length(24.);
    assert!(!item.record_effective_input_state());
    item.preedit_text = "compose".into();
    assert!(item.record_effective_input_state());
    item.caret_y = length(48.);
    assert!(item.record_effective_input_state());
    assert!(!item.record_effective_input_state());
    item.surrounding_text = "context".into();
    assert!(item.record_effective_input_state());
}

#[test]
fn overlay_text_input_control_codes_match_std() {
    for code in 0u32..0x3000 {
        if let Some(c) = char::from_u32(code) {
            assert_eq!(is_control_code(c), c.is_control(), "{code:#x}");
        }
    }
    for c in ['\u{10ffff}', '\u{e000}', '\u{fffd}', '\u{feff}'] {
        assert_eq!(is_control_code(c), c.is_control());
    }
}

#[test]
fn overlay_text_input_rejected_printable_press_becomes_text_input() {
    let mut event = InternalKeyEvent::default();
    event.key_event.text = "q".into();
    let (result, notification) = OverlayTextInputItem::key_pressed_handled(&event, EventResult::Reject);
    assert_eq!(result, KeyEventResult::EventAccepted);
    match notification {
        TextInputNotification::TextInput(text) => assert_eq!(text, "q"),
        other => panic!("unexpected notification {other:?}"),
    }
    let (result, _) = OverlayTextInputItem::key_pressed_handled(&event, EventResult::Accept);
    assert_eq!(result, KeyEventResult::EventAccepted);
    event.key_event.modifiers.control = true;
    let (result, notification) = OverlayTextInputItem::key_pressed_handled(&event, EventResult::Reject);
    assert_eq!(result, KeyEventResult::EventIgnored);
    assert!(matches!(notification, TextInputNotification::Nothing));
}

#[test]
fn overlay_text_input_ignores_keys_without_focus() {
    let mut item = OverlayTextInputItem::default();
    let event = InternalKeyEvent::default();
    assert!(matches!(
        item.key_event(&event, None),
        KeyEventStep::Finished { result: KeyEventResult::EventIgnored, .. }
    ));
    activate(&mut item, 1);
    assert!(matches!(item.key_event(&event, None), KeyEventStep::CallKeyPressed));
    item.submitted_input_generation = 0;
    let commit = InternalKeyEvent { event_type: KeyEventType::CommitComposition, ..Default::default() };
    assert!(matches!(
        item.key_event(&commit, None),
        KeyEventStep::Finished { result: KeyEventResult::EventIgnored, .. }
    ));
}

#[test]
fn overlay_text_input_keeps_input_method_in_step() {
    let mut item = OverlayTextInputItem::default();
    item.init();
    item.enabled = true;
    item.input_generation = 2;
    let step = item.focus_event(&FocusEvent::FocusIn(FocusReason::TabNavigation));
    assert_eq!(step.text_input_focused, Some(true));
    assert_eq!(step.request, InputMethodAction::Enable);
    assert!(item.accepts_platform_input());
    assert_eq!(item.submitted_input_generation, 2);

    let pass = item.process_platform_state();
    assert_eq!(pass.input_method.request, InputMethodAction::Nothing);
    assert!(pass.write_clipboard);
    assert_eq!(item.clipboard_written_generation, 0);
    assert!(!item.process_platform_state().write_clipboard);

    item.surrounding_text = "abc".into();
    item.input_generation = 3;
    assert!(!item.accepts_platform_input());
    let pass = item.render();
    assert_eq!(pass.input_method.request, InputMethodAction::Update);
    assert!(item.accepts_platform_input());

    item.clipboard_write_text = "abc".into();
    item.clipboard_write_generation = 1;
    assert!(item.render().write_clipboard);
    assert_eq!(item.clipboard_written_generation, 1);
    assert!(!item.render().write_clipboard);

    item.preedit_text = "x".into();
    let step = item.focus_event(&FocusEvent::FocusOut(FocusReason::PointerClick));
    assert_eq!(step.text_input_focused, Some(false));
    assert!(matches!(step.notification, TextInputNotification::CompositionCancelled));
    assert!(item.preedit_text.is_empty());
    assert!(!item.input_method_enabled);

    let pass = item.process_platform_state();
    assert_eq!(pass.input_method.text_input_focused, None);
    item.enabled = false;
    item.preedit_text = "y".into();
    let pass = item.process_platform_state();
    assert!(matches!(pass.input_method.notification, TextInputNotification::CompositionCancelled));
    assert!(!item.deinit());
}

#[test]
fn overlay_text_input_effective_state_hides_caret_without_composition() {
    let mut item = OverlayTextInputItem::default();
    item.caret_x = length(5.);
    let first = item.effective_input_state();
    assert_eq!(first.caret_x, F32Bits(0));
    item.caret_x = length(6.);
    assert!(same_effective_state(&first, &item.effective_input_state()));
    item.preedit_text = "p".into();
    let composing = item.effective_input_state();
    assert_eq!(composing.caret_x, length(6.));
    assert!(!same_effective_state(&first, &composing));
    item.caret_x = F32Bits(f32::NAN.to_bits());
    let nan = item.effective_input_state();
    assert!(!same_effective_state(&nan, &item.effective_input_state()));
}

#[test]
fn overlay_text_input_record_settles_after_caret_moves() {
    let mut item = OverlayTextInputItem::default();
    item.init();
    item.preedit_text = "p".into();
    item.caret_x = length(1.);
    item.caret_y = length(2.);
    item.caret_width = length(3.);
    item.caret_height = length(4.);
    assert!(item.record_effective_input_state());
    assert!(!item.record_effective_input_state());
}

#[test]
fn overlay_text_input_caret_change_is_reported_once() {
    let mut item = OverlayTextInputItem::default();
    item.preedit_text = "compose".into();
    assert!(item.record_effective_input_state());
    item.caret_x = length(1.);
    item.caret_y = length(2.);
    assert!(item.record_effective_input_state());
    assert!(!item.record_effective_input_state());
    assert_eq!((item.last_caret_x, item.last_caret_y), (length(1.), length(2.)));
}

#[test]
fn overlay_text_input_reports_plain_text_with_hints() {
    let mut item = OverlayTextInputItem::default();
    item.input_method_hints = InputMethodHints(5);
    item.surrounding_text = "ab".into();
    item.cursor_offset = 1;
    item.anchor_offset = 1;
    let state = item.ime_text_state();
    assert_eq!(state.input_type, InputType::Text);
    assert_eq!(state.input_method_hints, Some(InputMethodHints(5)));
    assert_eq!(state.cursor_position, 1);
    assert_eq!(state.anchor_position, None);
}
