//! Platform text-input connection for externally owned document models.
//!
//! The item holds no document: it reports the surrounding text, cursor and
//! composition that the host gives it to the platform input method, and it
//! hands the host every edit, composition and clipboard request through its
//! handlers. Each step below takes the item's state and an event, updates
//! the state, and says what the host has to do.

use crate::graphics::F32Bits;
use crate::input::{
    FocusEvent, FocusEventResult, FocusReason, InputEventFilterResult, InputEventResult,
    InternalKeyEvent, KeyEventResult, KeyEventType, MouseEvent, StandardShortcut,
};
use crate::text_input::{
    ime_text_state, range_end_or, range_or, range_start_or, utf8_len, FocusStep, ImeTextState,
    InputMethodAction, KeyEventStep, TextInputNotification,
};
use vstd::prelude::*;

verus! {

/// Focus and platform IME bridge for text stored outside the item.
#[derive(Debug)]
pub struct ExternalTextInputItem {
    pub enabled: bool,
    pub has_focus: bool,
    pub focus_on_click: bool,
    pub surrounding_text: String,
    pub cursor_offset: i32,
    pub anchor_offset: i32,
    pub preedit_text: String,
    pub caret_x: F32Bits,
    pub caret_y: F32Bits,
    pub caret_width: F32Bits,
    pub caret_height: F32Bits,
    /// Bumped by the host whenever the reported state changes.
    pub input_generation: i32,
    pub clipboard_write_text: String,
    /// Bumped by the host to ask for `clipboard_write_text` to be copied.
    pub clipboard_write_generation: i32,
    /// The input generation that the last composition event refers to.
    pub event_input_generation: i32,
    pub replacement_start: i32,
    pub replacement_end: i32,
    pub preedit_selection_start: i32,
    pub preedit_selection_end: i32,
    pub clipboard_written_generation: i32,
    /// The input generation last sent to the input method.
    pub last_input_generation: i32,
    /// The clipboard generation last written.
    pub last_clipboard_generation: i32,
}

impl Default for ExternalTextInputItem {
    /// A disabled, unfocused item with empty texts and zero generations.
    fn default() -> (item: Self)
        ensures
            !item.enabled && !item.has_focus && !item.focus_on_click,
            item.surrounding_text@.len() == 0,
            item.preedit_text@.len() == 0,
            item.clipboard_write_text@.len() == 0,
            item.cursor_offset == 0 && item.anchor_offset == 0,
            item.caret_x.0 == 0 && item.caret_y.0 == 0,
            item.caret_width.0 == 0 && item.caret_height.0 == 0,
            item.input_generation == 0 && item.clipboard_write_generation == 0,
            item.event_input_generation == 0,
            item.replacement_start == 0 && item.replacement_end == 0,
            item.preedit_selection_start == 0 && item.preedit_selection_end == 0,
            item.clipboard_written_generation == 0,
            item.last_input_generation == 0 && item.last_clipboard_generation == 0,
    {
        ExternalTextInputItem {
            enabled: false,
            has_focus: false,
            focus_on_click: false,
            surrounding_text: String::new(),
            cursor_offset: 0,
            anchor_offset: 0,
            preedit_text: String::new(),
            caret_x: F32Bits(0),
            caret_y: F32Bits(0),
            caret_width: F32Bits(0),
            caret_height: F32Bits(0),
            input_generation: 0,
            clipboard_write_text: String::new(),
            clipboard_write_generation: 0,
            event_input_generation: 0,
            replacement_start: 0,
            replacement_end: 0,
            preedit_selection_start: 0,
            preedit_selection_end: 0,
            clipboard_written_generation: 0,
            last_input_generation: 0,
            last_clipboard_generation: 0,
        }
    }
}

/// What a render pass asks of the host: send the input-method state, and
/// copy `clipboard_write_text` to the clipboard then run the
/// clipboard-written handler.
#[derive(Clone, Copy, Debug, PartialEq, Eq, Structural)]
pub struct ExternalRenderStep {
    pub update_input_method: bool,
    pub write_clipboard: bool,
}

impl ExternalTextInputItem {
    /// The item's state after a composition update.
    pub open spec fn after_preedit(self, event: InternalKeyEvent) -> Self {
        if event.preedit_text@.len() == 0 {
            ExternalTextInputItem {
                event_input_generation: self.input_generation,
                preedit_text: event.preedit_text,
                ..self
            }
        } else {
            ExternalTextInputItem {
                event_input_generation: self.input_generation,
                preedit_text: event.preedit_text,
                replacement_start: range_start_or(event.replacement_range, 0),
                replacement_end: range_end_or(event.replacement_range, 0),
                preedit_selection_start: range_start_or(event.preedit_selection, -1i32),
                preedit_selection_end: range_end_or(event.preedit_selection, -1i32),
                ..self
            }
        }
    }

    /// The handler that a composition update runs: an empty composition
    /// cancels, any other updates the pre-edit text.
    pub open spec fn preedit_notification(event: InternalKeyEvent) -> TextInputNotification {
        if event.preedit_text@.len() == 0 {
            TextInputNotification::CompositionCancelled
        } else {
            TextInputNotification::PreeditUpdated(event.preedit_text)
        }
    }

    /// `new` is the item's state after a commit of `event` on `self`, with the
    /// composition cleared.
    pub open spec fn is_after_commit(self, new: Self, event: InternalKeyEvent) -> bool {
        &&& new.preedit_text@.len() == 0
        &&& new == ExternalTextInputItem {
            event_input_generation: self.input_generation,
            preedit_text: new.preedit_text,
            replacement_start: range_start_or(event.replacement_range, 0),
            replacement_end: range_end_or(event.replacement_range, 0),
            ..self
        }
    }

    /// Forgets what was last sent, so that the next render sends the
    /// input-method state and writes a pending clipboard request.
    pub fn init(&mut self)
        ensures
            *final(self) == (ExternalTextInputItem {
                last_input_generation: i32::MIN,
                last_clipboard_generation: i32::MIN,
                ..*old(self)
            }),
    {
        self.last_input_generation = i32::MIN;
        self.last_clipboard_generation = i32::MIN;
    }

    /// Whether removing the item has to disable the input method: it does
    /// when the item has the focus.
    pub fn deinit(&self) -> (disable: bool)
        ensures
            disable == self.has_focus,
    {
        self.has_focus
    }

    /// Applies a composition update: the composition text is taken over, and
    /// a non-empty composition also takes the replacement range (`0..0` by
    /// default) and the selection within the composition (`-1..-1` by
    /// default).
    pub fn dispatch_preedit(&mut self, event: &InternalKeyEvent) -> (n: TextInputNotification)
        ensures
            *final(self) == old(self).after_preedit(*event),
            n == Self::preedit_notification(*event),
            final(self).preedit_text == event.preedit_text,
            final(self).event_input_generation == old(self).input_generation,
            n is CompositionCancelled <==> event.preedit_text@.len() == 0,
            n is CompositionCancelled ==> final(self).preedit_text@.len() == 0,
            n is PreeditUpdated ==> (n matches TextInputNotification::PreeditUpdated(t) && t
                == event.preedit_text),
    {
        self.event_input_generation = self.input_generation;
        let (replacement_start, replacement_end) = range_or(&event.replacement_range, 0);
        let (selection_start, selection_end) = range_or(&event.preedit_selection, -1i32);
        self.preedit_text = event.preedit_text.clone();
        if event.preedit_text.as_str().is_empty() {
            TextInputNotification::CompositionCancelled
        } else {
            self.replacement_start = replacement_start;
            self.replacement_end = replacement_end;
            self.preedit_selection_start = selection_start;
            self.preedit_selection_end = selection_end;
            TextInputNotification::PreeditUpdated(event.preedit_text.clone())
        }
    }

    /// Applies a commit: the composition is cleared, the replacement range
    /// is taken over (`0..0` by default), and the committed key text is
    /// handed to the commit handler.
    pub fn dispatch_commit(&mut self, event: &InternalKeyEvent) -> (n: TextInputNotification)
        ensures
            old(self).is_after_commit(*final(self), *event),
            n == TextInputNotification::CompositionCommitted(event.key_event.text),
    {
        self.event_input_generation = self.input_generation;
        let (replacement_start, replacement_end) = range_or(&event.replacement_range, 0);
        self.preedit_text = String::new();
        self.replacement_start = replacement_start;
        self.replacement_end = replacement_end;
        TextInputNotification::CompositionCommitted(event.key_event.text.clone())
    }

    /// The text part of what the item reports to the input method; the item
    /// has no input-method hints.
    pub fn ime_text_state(&self) -> (s: ImeTextState)
        requires
            utf8_len(self.surrounding_text@) <= i32::MAX,
        ensures
            s == crate::text_input::ime_text_state_spec(self.surrounding_text, self.cursor_offset,
                self.anchor_offset, self.preedit_text, None),
    {
        ime_text_state(&self.surrounding_text, self.cursor_offset, self.anchor_offset, &self.preedit_text, None)
    }

    /// A press on an enabled, unfocused item that takes the focus on click
    /// asks for the focus (the second value) and is accepted; every other
    /// pointer event is ignored.
    pub fn input_event(&self, event: &MouseEvent) -> (r: (InputEventResult, bool))
        ensures
            r == (if self.enabled && self.focus_on_click && event is Pressed && !self.has_focus {
                (InputEventResult::EventAccepted, true)
            } else {
                (InputEventResult::EventIgnored, false)
            }),
    {
        let pressed = match event {
            MouseEvent::Pressed { .. } => true,
            _ => false,
        };
        if self.enabled && self.focus_on_click && pressed && !self.has_focus {
            (InputEventResult::EventAccepted, true)
        } else {
            (InputEventResult::EventIgnored, false)
        }
    }

    /// Pointer events reach the children first, then the item.
    pub fn input_event_filter_before_children(&self, event: &MouseEvent) -> (r: InputEventFilterResult)
        ensures
            r == InputEventFilterResult::ForwardEvent,
    {
        InputEventFilterResult::ForwardEvent
    }

    /// The item does not capture key events before its children.
    pub fn capture_key_event(&self, event: &InternalKeyEvent) -> (r: KeyEventResult)
        ensures
            r == KeyEventResult::EventIgnored,
    {
        KeyEventResult::EventIgnored
    }

    /// The item does not clip its children.
    pub fn clips_children(&self) -> (r: bool)
        ensures
            !r,
    {
        false
    }

    /// A key event. Copy, cut and paste shortcuts of a key press go to their
    /// handlers; other presses and releases go to the key handlers;
    /// composition updates and commits are applied. `shortcut` is the
    /// standard shortcut that the platform's key map makes of the event.
    pub fn key_event(&mut self, event: &InternalKeyEvent, shortcut: Option<StandardShortcut>) -> (step: KeyEventStep)
        ensures
            event.event_type == KeyEventType::KeyPressed ==> *final(self) == *old(self) && step
                == (match shortcut {
                Some(StandardShortcut::Copy) => KeyEventStep::Finished {
                    result: KeyEventResult::EventAccepted,
                    notification: TextInputNotification::CopyRequested,
                },
                Some(StandardShortcut::Cut) => KeyEventStep::Finished {
                    result: KeyEventResult::EventAccepted,
                    notification: TextInputNotification::CutRequested,
                },
                Some(StandardShortcut::Paste) => KeyEventStep::Finished {
                    result: KeyEventResult::EventAccepted,
                    notification: TextInputNotification::PasteRequested,
                },
                _ => KeyEventStep::CallKeyPressed,
            }),
            event.event_type == KeyEventType::KeyReleased ==> *final(self) == *old(self) && step
                == KeyEventStep::CallKeyReleased,
            event.event_type == KeyEventType::UpdateComposition ==> *final(self)
                == old(self).after_preedit(*event) && step == (KeyEventStep::Finished {
                result: KeyEventResult::EventAccepted,
                notification: Self::preedit_notification(*event),
            }),
            event.event_type == KeyEventType::CommitComposition ==> old(self).is_after_commit(
                *final(self),
                *event,
            ) && step == (KeyEventStep::Finished {
                result: KeyEventResult::EventAccepted,
                notification: TextInputNotification::CompositionCommitted(event.key_event.text),
            }),
    {
        match event.event_type {
            KeyEventType::KeyPressed => match shortcut {
                Some(StandardShortcut::Copy) => KeyEventStep::Finished {
                    result: KeyEventResult::EventAccepted,
                    notification: TextInputNotification::CopyRequested,
                },
                Some(StandardShortcut::Cut) => KeyEventStep::Finished {
                    result: KeyEventResult::EventAccepted,
                    notification: TextInputNotification::CutRequested,
                },
                Some(StandardShortcut::Paste) => KeyEventStep::Finished {
                    result: KeyEventResult::EventAccepted,
                    notification: TextInputNotification::PasteRequested,
                },
                _ => KeyEventStep::CallKeyPressed,
            },
            KeyEventType::KeyReleased => KeyEventStep::CallKeyReleased,
            KeyEventType::UpdateComposition => {
                let notification = self.dispatch_preedit(event);
                KeyEventStep::Finished { result: KeyEventResult::EventAccepted, notification }
            },
            KeyEventType::CommitComposition => {
                let notification = self.dispatch_commit(event);
                KeyEventStep::Finished { result: KeyEventResult::EventAccepted, notification }
            },
        }
    }

    /// A focus event on an enabled item. Gaining the focus enables the
    /// input method with the current state and counts that state as sent.
    /// Losing the focus tells the window; unless the focus moves to another
    /// window or a popup, a pending composition is cancelled and the input
    /// method is disabled. A disabled item ignores focus events.
    pub fn focus_event(&mut self, event: &FocusEvent) -> (step: FocusStep)
        ensures
            !old(self).enabled ==> *final(self) == *old(self) && step == (FocusStep {
                result: FocusEventResult::FocusIgnored,
                text_input_focused: None,
                request: InputMethodAction::Nothing,
                notification: TextInputNotification::Nothing,
            }),
            old(self).enabled && event is FocusIn ==> *final(self) == (ExternalTextInputItem {
                has_focus: true,
                last_input_generation: old(self).input_generation,
                ..*old(self)
            }) && step == (FocusStep {
                result: FocusEventResult::FocusAccepted,
                text_input_focused: Some(true),
                request: InputMethodAction::Enable,
                notification: TextInputNotification::Nothing,
            }),
            old(self).enabled && (event matches FocusEvent::FocusOut(reason) && (reason
                == FocusReason::WindowActivation || reason == FocusReason::PopupActivation))
                ==> *final(self) == (ExternalTextInputItem { has_focus: false, ..*old(self) })
                && step == (FocusStep {
                result: FocusEventResult::FocusAccepted,
                text_input_focused: Some(false),
                request: InputMethodAction::Nothing,
                notification: TextInputNotification::Nothing,
            }),
            old(self).enabled && (event matches FocusEvent::FocusOut(reason) && reason
                != FocusReason::WindowActivation && reason != FocusReason::PopupActivation)
                && old(self).preedit_text@.len() == 0 ==> *final(self) == (ExternalTextInputItem {
                has_focus: false,
                ..*old(self)
            }) && step == (FocusStep {
                result: FocusEventResult::FocusAccepted,
                text_input_focused: Some(false),
                request: InputMethodAction::Disable,
                notification: TextInputNotification::Nothing,
            }),
            old(self).enabled && (event matches FocusEvent::FocusOut(reason) && reason
                != FocusReason::WindowActivation && reason != FocusReason::PopupActivation)
                && old(self).preedit_text@.len() != 0 ==> final(self).preedit_text@.len() == 0
                && *final(self) == (ExternalTextInputItem {
                has_focus: false,
                event_input_generation: old(self).input_generation,
                preedit_text: final(self).preedit_text,
                ..*old(self)
            }) && step == (FocusStep {
                result: FocusEventResult::FocusAccepted,
                text_input_focused: Some(false),
                request: InputMethodAction::Disable,
                notification: TextInputNotification::CompositionCancelled,
            }),
    {
        if !self.enabled {
            return FocusStep {
                result: FocusEventResult::FocusIgnored,
                text_input_focused: None,
                request: InputMethodAction::Nothing,
                notification: TextInputNotification::Nothing,
            };
        }
        match event {
            FocusEvent::FocusIn(_) => {
                self.has_focus = true;
                self.last_input_generation = self.input_generation;
                FocusStep {
                    result: FocusEventResult::FocusAccepted,
                    text_input_focused: Some(true),
                    request: InputMethodAction::Enable,
                    notification: TextInputNotification::Nothing,
                }
            },
            FocusEvent::FocusOut(reason) => {
                self.has_focus = false;
                let activation = match reason {
                    FocusReason::WindowActivation | FocusReason::PopupActivation => true,
                    _ => false,
                };
                if activation {
                    FocusStep {
                        result: FocusEventResult::FocusAccepted,
                        text_input_focused: Some(false),
                        request: InputMethodAction::Nothing,
                        notification: TextInputNotification::Nothing,
                    }
                } else {
                    let mut notification = TextInputNotification::Nothing;
                    if !self.preedit_text.as_str().is_empty() {
                        self.event_input_generation = self.input_generation;
                        self.preedit_text = String::new();
                        notification = TextInputNotification::CompositionCancelled;
                    }
                    FocusStep {
                        result: FocusEventResult::FocusAccepted,
                        text_input_focused: Some(false),
                        request: InputMethodAction::Disable,
                        notification,
                    }
                }
            },
        }
    }

    /// Whether the input method needs the current state: only a focused,
    /// enabled item sends it, and only once per input generation.
    pub fn update_input_method(&mut self) -> (send: bool)
        ensures
            send == (old(self).has_focus && old(self).enabled && old(self).last_input_generation
                != old(self).input_generation),
            *final(self) == (ExternalTextInputItem {
                last_input_generation: if old(self).has_focus && old(self).enabled {
                    old(self).input_generation
                } else {
                    old(self).last_input_generation
                },
                ..*old(self)
            }),
    {
        if !self.has_focus || !self.enabled {
            return false;
        }
        let generation = self.input_generation;
        let previous = self.last_input_generation;
        self.last_input_generation = generation;
        previous != generation
    }

    /// What a render pass asks of the host.
    pub open spec fn render_step(self) -> ExternalRenderStep {
        ExternalRenderStep {
            update_input_method: self.has_focus && self.enabled && self.last_input_generation
                != self.input_generation,
            write_clipboard: self.clipboard_write_generation >= 0 && self.last_clipboard_generation
                != self.clipboard_write_generation,
        }
    }

    /// The item after a render pass: what was sent and written is recorded.
    pub open spec fn after_render(self) -> Self {
        ExternalTextInputItem {
            last_input_generation: if self.has_focus && self.enabled {
                self.input_generation
            } else {
                self.last_input_generation
            },
            last_clipboard_generation: if self.clipboard_write_generation >= 0 {
                self.clipboard_write_generation
            } else {
                self.last_clipboard_generation
            },
            clipboard_written_generation: if self.render_step().write_clipboard {
                self.clipboard_write_generation
            } else {
                self.clipboard_written_generation
            },
            ..self
        }
    }

    /// A render pass of an item that has a window: the input method gets
    /// the state once per input generation, and each new non-negative
    /// clipboard generation is written once and reported as written.
    pub fn render(&mut self) -> (step: ExternalRenderStep)
        ensures
            step == old(self).render_step(),
            *final(self) == old(self).after_render(),
    {
        let update_input_method = self.update_input_method();
        let generation = self.clipboard_write_generation;
        let mut write_clipboard = false;
        if generation >= 0 {
            let previous = self.last_clipboard_generation;
            self.last_clipboard_generation = generation;
            if previous != generation {
                self.clipboard_written_generation = generation;
                write_clipboard = true;
            }
        }
        ExternalRenderStep { update_input_method, write_clipboard }
    }
}

/// A composition update always takes over the event's composition text,
/// the empty text of a cancel included, and a cancel leaves no composition.
pub proof fn lemma_external_preedit_takes_event_text(item: ExternalTextInputItem, event: InternalKeyEvent)
    ensures
        item.after_preedit(event).preedit_text == event.preedit_text,
        item.after_preedit(event).event_input_generation == item.input_generation,
        ExternalTextInputItem::preedit_notification(event) is CompositionCancelled
            ==> item.after_preedit(event).preedit_text@.len() == 0,
        event.preedit_text@.len() != 0 ==> item.after_preedit(event).replacement_start
            == range_start_or(event.replacement_range, 0) && item.after_preedit(
            event,
        ).replacement_end == range_end_or(event.replacement_range, 0),
{
}

/// A second render pass with nothing changed by the host asks nothing:
/// the input method gets each input generation once, and each clipboard
/// generation is written once.
pub proof fn lemma_external_render_once_per_generation(item: ExternalTextInputItem)
    ensures
        item.after_render().render_step() == (ExternalRenderStep {
            update_input_method: false,
            write_clipboard: false,
        }),
        item.after_render().after_render() == item.after_render(),
{
}

/// Gaining the focus counts the current state as sent, so the next render
/// pass does not send it again.
pub proof fn lemma_external_focus_in_counts_state_as_sent(item: ExternalTextInputItem)
    ensures
        !(ExternalTextInputItem {
            has_focus: true,
            last_input_generation: item.input_generation,
            ..item
        }).render_step().update_input_method,
{
}

} // verus!
