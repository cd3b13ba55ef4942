//! Platform text-input connection for externally owned documents drawn in
//! an overlay.
//!
//! Unlike the external text input, this item keeps the input method in step
//! with the host's state by itself: it enables and disables the input
//! method with the focus, sends the state only when it changed, and rejects
//! composition events that refer to a state it has not submitted yet.

use crate::graphics::F32Bits;
use crate::input::{
    EventResult, FocusEvent, FocusEventResult, FocusReason, InputEventFilterResult,
    InputEventResult, InternalKeyEvent, KeyEventResult, KeyEventType, MouseEvent,
    StandardShortcut,
};
use crate::text_input::{
    ime_text_state, range_end_or, range_or, range_start_or, utf8_len, FocusStep, ImeTextState,
    InputMethodAction, InputMethodHints, InputMethodStep, KeyEventStep, TextInputNotification,
};
use vstd::prelude::*;

verus! {

/// Whether a character is a control code (general category `Cc`):
/// `U+0000..=U+001F` and `U+007F..=U+009F`.
pub open spec fn is_control_code_spec(c: char) -> bool {
    (c as u32) <= 0x1f || (0x7f <= (c as u32) && (c as u32) <= 0x9f)
}

/// Whether a character is text that the item may insert: not a control
/// code, not the replacement character, and not in a private-use area
/// (where platforms put the codes of function keys).
pub open spec fn is_printable_char_spec(c: char) -> bool {
    &&& !is_control_code_spec(c)
    &&& c != '\u{fffd}'
    &&& !(0xe000 <= (c as u32) && (c as u32) <= 0xf8ff)
    &&& !(0xf0000 <= (c as u32) && (c as u32) <= 0xffffd)
    &&& !(0x100000 <= (c as u32) && (c as u32) <= 0x10fffd)
}

/// Computes `is_control_code_spec`.
pub fn is_control_code(c: char) -> (r: bool)
    ensures
        r == is_control_code_spec(c),
{
    let v = c as u32;
    v <= 0x1f || (0x7f <= v && v <= 0x9f)
}

/// Computes `is_printable_char_spec`.
pub fn is_printable_char(c: char) -> (r: bool)
    ensures
        r == is_printable_char_spec(c),
{
    let v = c as u32;
    !is_control_code(c) && c != '\u{fffd}' && !(0xe000 <= v && v <= 0xf8ff) && !(0xf0000 <= v && v
        <= 0xffffd) && !(0x100000 <= v && v <= 0x10fffd)
}

/// Focus and platform IME bridge for text drawn by the host in an overlay.
#[derive(Debug)]
pub struct OverlayTextInputItem {
    pub enabled: bool,
    pub has_focus: bool,
    pub focus_on_click: bool,
    pub input_method_hints: InputMethodHints,
    pub surrounding_text: String,
    pub cursor_offset: i32,
    pub anchor_offset: i32,
    pub preedit_text: String,
    pub caret_x: F32Bits,
    pub caret_y: F32Bits,
    pub caret_width: F32Bits,
    pub caret_height: F32Bits,
    /// Bumped by the host whenever the reported state changes.
    pub input_generation: i32,
    pub clipboard_write_text: String,
    /// Bumped by the host to ask for `clipboard_write_text` to be copied.
    pub clipboard_write_generation: i32,
    /// The submitted input generation that the last composition event refers to.
    pub event_input_generation: i32,
    pub replacement_start: i32,
    pub replacement_end: i32,
    pub preedit_selection_start: i32,
    pub preedit_selection_end: i32,
    pub clipboard_written_generation: i32,
    /// What the input method was last told, field by field.
    pub last_input_generation: i32,
    pub last_surrounding_text: String,
    pub last_preedit_text: String,
    pub last_cursor_offset: i32,
    pub last_anchor_offset: i32,
    pub last_caret_x: F32Bits,
    pub last_caret_y: F32Bits,
    pub last_caret_width: F32Bits,
    pub last_caret_height: F32Bits,
    /// The input generation whose state the input method has.
    pub submitted_input_generation: i32,
    pub input_method_enabled: bool,
    /// The clipboard generation last written.
    pub last_clipboard_generation: i32,
}

/// The part of the item's state whose changes make it process its platform
/// state again. The caret only counts while a composition is active.
#[derive(Debug)]
pub struct EffectiveInputState {
    pub enabled: bool,
    pub has_focus: bool,
    pub surrounding_text: String,
    pub cursor_offset: i32,
    pub anchor_offset: i32,
    pub preedit_text: String,
    pub caret_x: F32Bits,
    pub caret_y: F32Bits,
    pub caret_width: F32Bits,
    pub caret_height: F32Bits,
    pub input_generation: i32,
    pub clipboard_write_text: String,
    pub clipboard_write_generation: i32,
}

/// Field-by-field equality of two effective states, texts by content and
/// caret values by IEEE-754 equality.
pub open spec fn same_effective_state_spec(a: EffectiveInputState, b: EffectiveInputState) -> bool {
    &&& a.enabled == b.enabled
    &&& a.has_focus == b.has_focus
    &&& a.surrounding_text@ == b.surrounding_text@
    &&& a.cursor_offset == b.cursor_offset
    &&& a.anchor_offset == b.anchor_offset
    &&& a.preedit_text@ == b.preedit_text@
    &&& a.caret_x.float_eq_spec(b.caret_x)
    &&& a.caret_y.float_eq_spec(b.caret_y)
    &&& a.caret_width.float_eq_spec(b.caret_width)
    &&& a.caret_height.float_eq_spec(b.caret_height)
    &&& a.input_generation == b.input_generation
    &&& a.clipboard_write_text@ == b.clipboard_write_text@
    &&& a.clipboard_write_generation == b.clipboard_write_generation
}

/// Computes `same_effective_state_spec`.
pub fn same_effective_state(a: &EffectiveInputState, b: &EffectiveInputState) -> (r: bool)
    ensures
        r == same_effective_state_spec(*a, *b),
{
    a.enabled == b.enabled && a.has_focus == b.has_focus && a.surrounding_text
        == b.surrounding_text && a.cursor_offset == b.cursor_offset && a.anchor_offset
        == b.anchor_offset && a.preedit_text == b.preedit_text && a.caret_x.float_equals(b.caret_x)
        && a.caret_y.float_equals(b.caret_y) && a.caret_width.float_equals(b.caret_width)
        && a.caret_height.float_equals(b.caret_height) && a.input_generation == b.input_generation
        && a.clipboard_write_text == b.clipboard_write_text && a.clipboard_write_generation
        == b.clipboard_write_generation
}

/// What a platform-state pass asks of the host: keep the input method in
/// step, then copy `clipboard_write_text` to the clipboard and run the
/// clipboard-written handler.
#[derive(Debug)]
pub struct OverlayPlatformStep {
    pub input_method: InputMethodStep,
    pub write_clipboard: bool,
}

impl Default for OverlayTextInputItem {
    /// A disabled, unfocused item with empty texts and zero values.
    fn default() -> (item: Self)
        ensures
            item.is_zeroed(),
    {
        OverlayTextInputItem {
            enabled: false,
            has_focus: false,
            focus_on_click: false,
            input_method_hints: InputMethodHints(0),
            surrounding_text: String::new(),
            cursor_offset: 0,
            anchor_offset: 0,
            preedit_text: String::new(),
            caret_x: F32Bits(0),
            caret_y: F32Bits(0),
            caret_width: F32Bits(0),
            caret_height: F32Bits(0),
            input_generation: 0,
            clipboard_write_text: String::new(),
            clipboard_write_generation: 0,
            event_input_generation: 0,
            replacement_start: 0,
            replacement_end: 0,
            preedit_selection_start: 0,
            preedit_selection_end: 0,
            clipboard_written_generation: 0,
            last_input_generation: 0,
            last_surrounding_text: String::new(),
            last_preedit_text: String::new(),
            last_cursor_offset: 0,
            last_anchor_offset: 0,
            last_caret_x: F32Bits(0),
            last_caret_y: F32Bits(0),
            last_caret_width: F32Bits(0),
            last_caret_height: F32Bits(0),
            submitted_input_generation: 0,
            input_method_enabled: false,
            last_clipboard_generation: 0,
        }
    }
}

impl OverlayTextInputItem {
    /// Every flag is off, every text empty and every number zero.
    pub open spec fn is_zeroed(self) -> bool {
        &&& !self.enabled && !self.has_focus && !self.focus_on_click
        &&& self.input_method_hints == InputMethodHints(0)
        &&& self.surrounding_text@.len() == 0 && self.preedit_text@.len() == 0
        &&& self.clipboard_write_text@.len() == 0
        &&& self.last_surrounding_text@.len() == 0 && self.last_preedit_text@.len() == 0
        &&& self.cursor_offset == 0 && self.anchor_offset == 0
        &&& self.caret_x.0 == 0 && self.caret_y.0 == 0
        &&& self.caret_width.0 == 0 && self.caret_height.0 == 0
        &&& self.input_generation == 0 && self.clipboard_write_generation == 0
        &&& self.event_input_generation == 0
        &&& self.replacement_start == 0 && self.replacement_end == 0
        &&& self.preedit_selection_start == 0 && self.preedit_selection_end == 0
        &&& self.clipboard_written_generation == 0
        &&& self.last_input_generation == 0
        &&& self.last_cursor_offset == 0 && self.last_anchor_offset == 0
        &&& self.last_caret_x.0 == 0 && self.last_caret_y.0 == 0
        &&& self.last_caret_width.0 == 0 && self.last_caret_height.0 == 0
        &&& self.submitted_input_generation == 0
        &&& !self.input_method_enabled
        &&& self.last_clipboard_generation == 0
    }

    /// Composition events are taken only by an enabled, focused item whose
    /// input method is enabled and has the current input generation.
    pub open spec fn accepts_platform_input_spec(self) -> bool {
        &&& self.enabled
        &&& self.has_focus
        &&& self.input_method_enabled
        &&& self.submitted_input_generation == self.input_generation
    }

    /// The item's state after an accepted composition update.
    pub open spec fn after_preedit(self, event: InternalKeyEvent) -> Self {
        if event.preedit_text@.len() == 0 {
            OverlayTextInputItem {
                event_input_generation: self.submitted_input_generation,
                preedit_text: event.preedit_text,
                ..self
            }
        } else {
            OverlayTextInputItem {
                event_input_generation: self.submitted_input_generation,
                preedit_text: event.preedit_text,
                replacement_start: range_start_or(event.replacement_range, 0),
                replacement_end: range_end_or(event.replacement_range, 0),
                preedit_selection_start: range_start_or(event.preedit_selection, -1i32),
                preedit_selection_end: range_end_or(event.preedit_selection, -1i32),
                ..self
            }
        }
    }

    /// The handler that an accepted composition update runs.
    pub open spec fn preedit_notification(event: InternalKeyEvent) -> TextInputNotification {
        if event.preedit_text@.len() == 0 {
            TextInputNotification::CompositionCancelled
        } else {
            TextInputNotification::PreeditUpdated(event.preedit_text)
        }
    }

    /// `new` is the item's state after an accepted commit of `event`.
    pub open spec fn is_after_commit(self, new: Self, event: InternalKeyEvent) -> bool {
        &&& new.preedit_text@.len() == 0
        &&& new == OverlayTextInputItem {
            event_input_generation: self.submitted_input_generation,
            preedit_text: new.preedit_text,
            replacement_start: range_start_or(event.replacement_range, 0),
            replacement_end: range_end_or(event.replacement_range, 0),
            ..self
        }
    }

    /// Whether the caret differs from the cached one in any coordinate,
    /// by IEEE-754 comparison.
    pub open spec fn caret_differs(self) -> bool {
        ||| !self.last_caret_x.float_eq_spec(self.caret_x)
        ||| !self.last_caret_y.float_eq_spec(self.caret_y)
        ||| !self.last_caret_width.float_eq_spec(self.caret_width)
        ||| !self.last_caret_height.float_eq_spec(self.caret_height)
    }

    /// Whether the state differs from what the input method was last told.
    /// A caret-only change counts only while a composition is active.
    pub open spec fn record_changed(self) -> bool {
        ||| self.last_input_generation != self.input_generation
        ||| self.last_surrounding_text@ != self.surrounding_text@
        ||| self.last_preedit_text@ != self.preedit_text@
        ||| self.last_cursor_offset != self.cursor_offset
        ||| self.last_anchor_offset != self.anchor_offset
        ||| (self.preedit_text@.len() != 0 && self.caret_differs())
    }

    /// The state after recording the current state as told: generation,
    /// offsets and the whole caret always (the cached geometry is kept
    /// current); the texts only when something changed.
    pub open spec fn after_record(self) -> Self {
        OverlayTextInputItem {
            last_input_generation: self.input_generation,
            last_cursor_offset: self.cursor_offset,
            last_anchor_offset: self.anchor_offset,
            last_caret_x: self.caret_x,
            last_caret_y: self.caret_y,
            last_caret_width: self.caret_width,
            last_caret_height: self.caret_height,
            last_surrounding_text: if self.record_changed() {
                self.surrounding_text
            } else {
                self.last_surrounding_text
            },
            last_preedit_text: if self.record_changed() {
                self.preedit_text
            } else {
                self.last_preedit_text
            },
            ..self
        }
    }

    /// The state after recording the current state and submitting its
    /// input generation.
    pub open spec fn after_submit(self) -> Self {
        OverlayTextInputItem { submitted_input_generation: self.input_generation, ..self.after_record() }
    }

    /// The state after enabling the input method with the current state.
    pub open spec fn after_enable(self) -> Self {
        (OverlayTextInputItem { input_method_enabled: true, ..self }).after_submit()
    }

    /// `new` and `n` are the state and handler after cancelling a pending
    /// composition; without one nothing happens.
    pub open spec fn is_after_cancel(self, new: Self, n: TextInputNotification) -> bool {
        if self.preedit_text@.len() != 0 {
            &&& new.preedit_text@.len() == 0
            &&& new == OverlayTextInputItem {
                event_input_generation: self.submitted_input_generation,
                preedit_text: new.preedit_text,
                ..self
            }
            &&& n == TextInputNotification::CompositionCancelled
        } else {
            new == self && n == TextInputNotification::Nothing
        }
    }

    /// `new` and `step` are the state and requests after keeping the input
    /// method in step with the item. An item that is not both focused and
    /// enabled lets go of the input method (and a disabled one also cancels
    /// its composition); a focused, enabled item enables the input method,
    /// or sends the state when it changed.
    pub open spec fn is_after_update(self, new: Self, step: InputMethodStep) -> bool {
        if !self.has_focus || !self.enabled {
            &&& step.text_input_focused == (if self.input_method_enabled {
                Some(false)
            } else {
                None
            })
            &&& step.request == InputMethodAction::Nothing
            &&& if !self.enabled {
                (OverlayTextInputItem { input_method_enabled: false, ..self }).is_after_cancel(
                    new,
                    step.notification,
                )
            } else {
                &&& new == OverlayTextInputItem { input_method_enabled: false, ..self }
                &&& step.notification == TextInputNotification::Nothing
            }
        } else if !self.input_method_enabled {
            &&& new == self.after_enable()
            &&& step == (InputMethodStep {
                text_input_focused: Some(true),
                request: InputMethodAction::Enable,
                notification: TextInputNotification::Nothing,
            })
        } else if !self.record_changed() {
            &&& new == self.after_record()
            &&& step == (InputMethodStep {
                text_input_focused: None,
                request: InputMethodAction::Nothing,
                notification: TextInputNotification::Nothing,
            })
        } else {
            &&& new == self.after_submit()
            &&& step == (InputMethodStep {
                text_input_focused: None,
                request: InputMethodAction::Update,
                notification: TextInputNotification::Nothing,
            })
        }
    }

    /// Whether a platform-state pass copies the clipboard text: once for
    /// each non-negative clipboard generation above the last one written.
    pub open spec fn clipboard_due(self) -> bool {
        self.clipboard_write_generation >= 0 && self.clipboard_write_generation
            > self.last_clipboard_generation
    }

    /// `new` and `step` are the state and requests after a platform-state
    /// pass: the input method is kept in step, then a due clipboard request
    /// is written and recorded.
    pub open spec fn is_after_process(self, new: Self, step: OverlayPlatformStep) -> bool {
        &&& self.is_after_update(
            OverlayTextInputItem {
                last_clipboard_generation: self.last_clipboard_generation,
                clipboard_written_generation: self.clipboard_written_generation,
                ..new
            },
            step.input_method,
        )
        &&& step.write_clipboard == self.clipboard_due()
        &&& new.last_clipboard_generation == (if self.clipboard_due() {
            self.clipboard_write_generation
        } else {
            self.last_clipboard_generation
        })
        &&& new.clipboard_written_generation == (if self.clipboard_due() {
            self.clipboard_write_generation
        } else {
            self.clipboard_written_generation
        })
    }

    /// Whether a key event's text is printable text that the item may insert
    /// itself: no Control, Alt or Meta modifier, not empty, and made of
    /// printable characters only.
    pub fn is_printable_key_text(event: &InternalKeyEvent) -> (r: bool)
        ensures
            r == (!event.key_event.modifiers.control && !event.key_event.modifiers.alt
                && !event.key_event.modifiers.meta && event.key_event.text@.len() != 0 && forall|i: int|
                0 <= i < event.key_event.text@.len() ==> is_printable_char_spec(
                #[trigger] event.key_event.text@[i],
            )),
    {
        let modifiers = event.key_event.modifiers;
        if modifiers.control || modifiers.alt || modifiers.meta {
            return false;
        }
        let text = event.key_event.text.as_str();
        if text.is_empty() {
            return false;
        }
        let mut all_printable = true;
        for ch in it: text.chars()
            invariant
                all_printable == (forall|i: int|
                    0 <= i < it.index() ==> is_printable_char_spec(#[trigger] it.seq()[i])),
        {
            if !is_printable_char(ch) {
                all_printable = false;
            }
        }
        all_printable
    }

    /// Computes `accepts_platform_input_spec`.
    pub fn accepts_platform_input(&self) -> (r: bool)
        ensures
            r == self.accepts_platform_input_spec(),
    {
        self.enabled && self.has_focus && self.input_method_enabled
            && self.submitted_input_generation == self.input_generation
    }

    /// A composition update. It is rejected, with nothing changed, unless
    /// the item accepts platform input; an accepted update is applied as by
    /// the external text input, against the submitted input generation.
    pub fn dispatch_preedit(&mut self, event: &InternalKeyEvent) -> (r: (bool, TextInputNotification))
        ensures
            !old(self).accepts_platform_input_spec() ==> *final(self) == *old(self) && r == (
            false, TextInputNotification::Nothing),
            old(self).accepts_platform_input_spec() ==> *final(self) == old(self).after_preedit(
                *event,
            ) && r == (true, Self::preedit_notification(*event)),
            old(self).accepts_platform_input_spec() ==> final(self).preedit_text
                == event.preedit_text,
            r.1 is CompositionCancelled ==> final(self).preedit_text@.len() == 0,
    {
        if !self.accepts_platform_input() {
            return (false, TextInputNotification::Nothing);
        }
        self.event_input_generation = self.submitted_input_generation;
        let (replacement_start, replacement_end) = range_or(&event.replacement_range, 0);
        let (selection_start, selection_end) = range_or(&event.preedit_selection, -1);
        self.preedit_text = event.preedit_text.clone();
        if event.preedit_text.as_str().is_empty() {
            (true, TextInputNotification::CompositionCancelled)
        } else {
            self.replacement_start = replacement_start;
            self.replacement_end = replacement_end;
            self.preedit_selection_start = selection_start;
            self.preedit_selection_end = selection_end;
            (true, TextInputNotification::PreeditUpdated(event.preedit_text.clone()))
        }
    }

    /// A commit. It is rejected, with nothing changed, unless the item
    /// accepts platform input; an accepted commit clears the composition.
    pub fn dispatch_commit(&mut self, event: &InternalKeyEvent) -> (r: (bool, TextInputNotification))
        ensures
            !old(self).accepts_platform_input_spec() ==> *final(self) == *old(self) && r == (
            false, TextInputNotification::Nothing),
            old(self).accepts_platform_input_spec() ==> old(self).is_after_commit(
                *final(self),
                *event,
            ) && r == (true, TextInputNotification::CompositionCommitted(event.key_event.text)),
    {
        if !self.accepts_platform_input() {
            return (false, TextInputNotification::Nothing);
        }
        self.event_input_generation = self.submitted_input_generation;
        let (replacement_start, replacement_end) = range_or(&event.replacement_range, 0);
        self.preedit_text = String::new();
        self.replacement_start = replacement_start;
        self.replacement_end = replacement_end;
        (true, TextInputNotification::CompositionCommitted(event.key_event.text.clone()))
    }

    /// The text part of what the item reports to the input method.
    pub fn ime_text_state(&self) -> (s: ImeTextState)
        requires
            utf8_len(self.surrounding_text@) <= i32::MAX,
        ensures
            s == crate::text_input::ime_text_state_spec(self.surrounding_text, self.cursor_offset,
                self.anchor_offset, self.preedit_text, Some(self.input_method_hints)),
    {
        ime_text_state(
            &self.surrounding_text,
            self.cursor_offset,
            self.anchor_offset,
            &self.preedit_text,
            Some(self.input_method_hints),
        )
    }

    /// Records the current state as what the input method was told, and
    /// says whether it differs from what was recorded before.
    pub fn record_effective_input_state(&mut self) -> (changed: bool)
        ensures
            changed == old(self).record_changed(),
            *final(self) == old(self).after_record(),
            old(self).last_input_generation != old(self).input_generation ==> changed,
            old(self).last_surrounding_text@ != old(self).surrounding_text@ ==> changed,
            old(self).last_preedit_text@ != old(self).preedit_text@ ==> changed,
            old(self).last_cursor_offset != old(self).cursor_offset ==> changed,
            old(self).last_anchor_offset != old(self).anchor_offset ==> changed,
            final(self).last_input_generation == old(self).input_generation,
            final(self).last_cursor_offset == old(self).cursor_offset,
            final(self).last_anchor_offset == old(self).anchor_offset,
            final(self).last_surrounding_text@ == old(self).surrounding_text@,
            final(self).last_preedit_text@ == old(self).preedit_text@,
    {
        let generation = self.input_generation;
        let mut changed = self.last_input_generation != generation;
        self.last_input_generation = generation;
        if !(self.last_surrounding_text == self.surrounding_text) {
            changed = true;
        }
        if !(self.last_preedit_text == self.preedit_text) {
            changed = true;
        }
        if self.last_cursor_offset != self.cursor_offset {
            changed = true;
        }
        self.last_cursor_offset = self.cursor_offset;
        if self.last_anchor_offset != self.anchor_offset {
            changed = true;
        }
        self.last_anchor_offset = self.anchor_offset;
        let geometry_changed = !self.last_caret_x.float_equals(self.caret_x)
            || !self.last_caret_y.float_equals(self.caret_y) || !self.last_caret_width.float_equals(
            self.caret_width,
        ) || !self.last_caret_height.float_equals(self.caret_height);
        self.last_caret_x = self.caret_x;
        self.last_caret_y = self.caret_y;
        self.last_caret_width = self.caret_width;
        self.last_caret_height = self.caret_height;
        if !self.preedit_text.as_str().is_empty() && geometry_changed {
            changed = true;
        }
        if changed {
            self.last_surrounding_text = self.surrounding_text.clone();
            self.last_preedit_text = self.preedit_text.clone();
        }
        changed
    }

    /// Records the current state and submits its input generation.
    pub fn mark_input_state_submitted(&mut self)
        ensures
            *final(self) == old(self).after_submit(),
    {
        self.record_effective_input_state();
        self.submitted_input_generation = self.input_generation;
    }

    /// Enables the input method; the host tells the window that a text
    /// input has the focus and sends the enable request with the state.
    pub fn enable_input_method(&mut self)
        ensures
            *final(self) == old(self).after_enable(),
    {
        self.input_method_enabled = true;
        self.mark_input_state_submitted();
    }

    /// Lets go of the input method. Where it was enabled, the host tells the
    /// window that no text input has the focus (the window then disables the
    /// input method).
    pub fn disable_input_method(&mut self) -> (was_enabled: bool)
        ensures
            was_enabled == old(self).input_method_enabled,
            *final(self) == (OverlayTextInputItem { input_method_enabled: false, ..*old(self) }),
    {
        let was_enabled = self.input_method_enabled;
        self.input_method_enabled = false;
        was_enabled
    }

    /// Cancels a pending composition.
    pub fn cancel_composition(&mut self) -> (n: TextInputNotification)
        ensures
            old(self).is_after_cancel(*final(self), n),
    {
        if !self.preedit_text.as_str().is_empty() {
            self.event_input_generation = self.submitted_input_generation;
            self.preedit_text = String::new();
            TextInputNotification::CompositionCancelled
        } else {
            TextInputNotification::Nothing
        }
    }

    /// Keeps the input method in step with the item.
    pub fn update_input_method(&mut self) -> (step: InputMethodStep)
        ensures
            old(self).is_after_update(*final(self), step),
    {
        if !self.has_focus || !self.enabled {
            let mut notification = TextInputNotification::Nothing;
            if !self.enabled {
                notification = self.cancel_composition();
            }
            let was_enabled = self.disable_input_method();
            return InputMethodStep {
                text_input_focused: if was_enabled {
                    Some(false)
                } else {
                    None
                },
                request: InputMethodAction::Nothing,
                notification,
            };
        }
        if !self.input_method_enabled {
            self.enable_input_method();
            return InputMethodStep {
                text_input_focused: Some(true),
                request: InputMethodAction::Enable,
                notification: TextInputNotification::Nothing,
            };
        }
        if !self.record_effective_input_state() {
            return InputMethodStep {
                text_input_focused: None,
                request: InputMethodAction::Nothing,
                notification: TextInputNotification::Nothing,
            };
        }
        self.submitted_input_generation = self.input_generation;
        InputMethodStep {
            text_input_focused: None,
            request: InputMethodAction::Update,
            notification: TextInputNotification::Nothing,
        }
    }

    /// A platform-state pass: keeps the input method in step, then writes a
    /// due clipboard request.
    pub fn process_platform_state(&mut self) -> (step: OverlayPlatformStep)
        ensures
            old(self).is_after_process(*final(self), step),
    {
        let input_method = self.update_input_method();
        let generation = self.clipboard_write_generation;
        let mut write_clipboard = false;
        if generation >= 0 && generation > self.last_clipboard_generation {
            self.last_clipboard_generation = generation;
            self.clipboard_written_generation = generation;
            write_clipboard = true;
        }
        OverlayPlatformStep { input_method, write_clipboard }
    }

    /// Resets what the input method was told, so that the first pass after
    /// insertion enables it afresh and writes any pending clipboard request.
    pub fn init(&mut self)
        ensures
            *final(self) == (OverlayTextInputItem {
                last_input_generation: i32::MIN,
                last_cursor_offset: i32::MIN,
                last_anchor_offset: i32::MIN,
                last_caret_x: F32Bits(0x7fc0_0000),
                last_caret_y: F32Bits(0x7fc0_0000),
                last_caret_width: F32Bits(0x7fc0_0000),
                last_caret_height: F32Bits(0x7fc0_0000),
                submitted_input_generation: i32::MIN,
                input_method_enabled: false,
                last_clipboard_generation: -1i32,
                clipboard_written_generation: -1i32,
                ..*old(self)
            }),
    {
        self.last_input_generation = i32::MIN;
        self.last_cursor_offset = i32::MIN;
        self.last_anchor_offset = i32::MIN;
        self.last_caret_x = F32Bits::nan();
        self.last_caret_y = F32Bits::nan();
        self.last_caret_width = F32Bits::nan();
        self.last_caret_height = F32Bits::nan();
        self.submitted_input_generation = i32::MIN;
        self.input_method_enabled = false;
        self.last_clipboard_generation = -1;
        self.clipboard_written_generation = -1;
    }

    /// The state whose changes make the item process its platform state.
    /// The caret counts only while a composition is active; otherwise it
    /// reads as zero.
    pub fn effective_input_state(&self) -> (e: EffectiveInputState)
        ensures
            e.enabled == self.enabled,
            e.has_focus == self.has_focus,
            e.surrounding_text == self.surrounding_text,
            e.cursor_offset == self.cursor_offset,
            e.anchor_offset == self.anchor_offset,
            e.preedit_text == self.preedit_text,
            e.input_generation == self.input_generation,
            e.clipboard_write_text == self.clipboard_write_text,
            e.clipboard_write_generation == self.clipboard_write_generation,
            self.preedit_text@.len() != 0 ==> e.caret_x == self.caret_x && e.caret_y == self.caret_y
                && e.caret_width == self.caret_width && e.caret_height == self.caret_height,
            self.preedit_text@.len() == 0 ==> e.caret_x.0 == 0 && e.caret_y.0 == 0
                && e.caret_width.0 == 0 && e.caret_height.0 == 0,
    {
        let composition_active = !self.preedit_text.as_str().is_empty();
        EffectiveInputState {
            enabled: self.enabled,
            has_focus: self.has_focus,
            surrounding_text: self.surrounding_text.clone(),
            cursor_offset: self.cursor_offset,
            anchor_offset: self.anchor_offset,
            preedit_text: self.preedit_text.clone(),
            caret_x: if composition_active { self.caret_x } else { F32Bits(0) },
            caret_y: if composition_active { self.caret_y } else { F32Bits(0) },
            caret_width: if composition_active { self.caret_width } else { F32Bits(0) },
            caret_height: if composition_active { self.caret_height } else { F32Bits(0) },
            input_generation: self.input_generation,
            clipboard_write_text: self.clipboard_write_text.clone(),
            clipboard_write_generation: self.clipboard_write_generation,
        }
    }

    /// Removing the item lets go of the input method; where it was enabled
    /// the host tells the window that no text input has the focus.
    pub fn deinit(&mut self) -> (was_enabled: bool)
        ensures
            was_enabled == old(self).input_method_enabled,
            *final(self) == (OverlayTextInputItem { input_method_enabled: false, ..*old(self) }),
    {
        self.disable_input_method()
    }

    /// A press on an enabled, unfocused item that takes the focus on click
    /// asks for the focus (the second value) and is accepted; every other
    /// pointer event is ignored.
    pub fn input_event(&self, event: &MouseEvent) -> (r: (InputEventResult, bool))
        ensures
            r == (if self.enabled && self.focus_on_click && event is Pressed && !self.has_focus {
                (InputEventResult::EventAccepted, true)
            } else {
                (InputEventResult::EventIgnored, false)
            }),
    {
        let pressed = match event {
            MouseEvent::Pressed { .. } => true,
            _ => false,
        };
        if self.enabled && self.focus_on_click && pressed && !self.has_focus {
            (InputEventResult::EventAccepted, true)
        } else {
            (InputEventResult::EventIgnored, false)
        }
    }

    /// Pointer events reach the children first, then the item.
    pub fn input_event_filter_before_children(&self, event: &MouseEvent) -> (r: InputEventFilterResult)
        ensures
            r == InputEventFilterResult::ForwardEvent,
    {
        InputEventFilterResult::ForwardEvent
    }

    /// The item does not capture key events before its children.
    pub fn capture_key_event(&self, event: &InternalKeyEvent) -> (r: KeyEventResult)
        ensures
            r == KeyEventResult::EventIgnored,
    {
        KeyEventResult::EventIgnored
    }

    /// The item does not clip its children.
    pub fn clips_children(&self) -> (r: bool)
        ensures
            !r,
    {
        false
    }

    /// A key event. A disabled or unfocused item ignores it. Copy, cut and
    /// paste shortcuts of a key press go to their handlers; other presses
    /// and releases go to the key handlers; composition updates and commits
    /// are applied when the item accepts platform input, and ignored
    /// otherwise. `shortcut` is the standard shortcut that the platform's
    /// key map makes of the event.
    pub fn key_event(&mut self, event: &InternalKeyEvent, shortcut: Option<StandardShortcut>) -> (step: KeyEventStep)
        ensures
            !(old(self).enabled && old(self).has_focus) ==> *final(self) == *old(self) && step
                == (KeyEventStep::Finished {
                result: KeyEventResult::EventIgnored,
                notification: TextInputNotification::Nothing,
            }),
            old(self).enabled && old(self).has_focus && event.event_type
                == KeyEventType::KeyPressed ==> *final(self) == *old(self) && step == (match shortcut {
                Some(StandardShortcut::Copy) => KeyEventStep::Finished {
                    result: KeyEventResult::EventAccepted,
                    notification: TextInputNotification::CopyRequested,
                },
                Some(StandardShortcut::Cut) => KeyEventStep::Finished {
                    result: KeyEventResult::EventAccepted,
                    notification: TextInputNotification::CutRequested,
                },
                Some(StandardShortcut::Paste) => KeyEventStep::Finished {
                    result: KeyEventResult::EventAccepted,
                    notification: TextInputNotification::PasteRequested,
                },
                _ => KeyEventStep::CallKeyPressed,
            }),
            old(self).enabled && old(self).has_focus && event.event_type
                == KeyEventType::KeyReleased ==> *final(self) == *old(self) && step
                == KeyEventStep::CallKeyReleased,
            old(self).enabled && old(self).has_focus && event.event_type
                == KeyEventType::UpdateComposition ==> if old(self).accepts_platform_input_spec() {
                *final(self) == old(self).after_preedit(*event) && step == (KeyEventStep::Finished {
                    result: KeyEventResult::EventAccepted,
                    notification: Self::preedit_notification(*event),
                })
            } else {
                *final(self) == *old(self) && step == (KeyEventStep::Finished {
                    result: KeyEventResult::EventIgnored,
                    notification: TextInputNotification::Nothing,
                })
            },
            old(self).enabled && old(self).has_focus && event.event_type
                == KeyEventType::CommitComposition ==> if old(self).accepts_platform_input_spec() {
                old(self).is_after_commit(*final(self), *event) && step == (KeyEventStep::Finished {
                    result: KeyEventResult::EventAccepted,
                    notification: TextInputNotification::CompositionCommitted(event.key_event.text),
                })
            } else {
                *final(self) == *old(self) && step == (KeyEventStep::Finished {
                    result: KeyEventResult::EventIgnored,
                    notification: TextInputNotification::Nothing,
                })
            },
    {
        if !self.enabled || !self.has_focus {
            return KeyEventStep::Finished {
                result: KeyEventResult::EventIgnored,
                notification: TextInputNotification::Nothing,
            };
        }
        match event.event_type {
            KeyEventType::KeyPressed => match shortcut {
                Some(StandardShortcut::Copy) => KeyEventStep::Finished {
                    result: KeyEventResult::EventAccepted,
                    notification: TextInputNotification::CopyRequested,
                },
                Some(StandardShortcut::Cut) => KeyEventStep::Finished {
                    result: KeyEventResult::EventAccepted,
                    notification: TextInputNotification::CutRequested,
                },
                Some(StandardShortcut::Paste) => KeyEventStep::Finished {
                    result: KeyEventResult::EventAccepted,
                    notification: TextInputNotification::PasteRequested,
                },
                _ => KeyEventStep::CallKeyPressed,
            },
            KeyEventType::KeyReleased => KeyEventStep::CallKeyReleased,
            KeyEventType::UpdateComposition => {
                let (accepted, notification) = self.dispatch_preedit(event);
                KeyEventStep::Finished {
                    result: if accepted {
                        KeyEventResult::EventAccepted
                    } else {
                        KeyEventResult::EventIgnored
                    },
                    notification,
                }
            },
            KeyEventType::CommitComposition => {
                let (accepted, notification) = self.dispatch_commit(event);
                KeyEventStep::Finished {
                    result: if accepted {
                        KeyEventResult::EventAccepted
                    } else {
                        KeyEventResult::EventIgnored
                    },
                    notification,
                }
            },
        }
    }

    /// The answer to a key press once the key-pressed handler has answered:
    /// an accepted press is accepted; a rejected press of printable text is
    /// handed to the text-input handler and accepted; any other rejected
    /// press is ignored.
    pub fn key_pressed_handled(event: &InternalKeyEvent, answer: EventResult) -> (r: (KeyEventResult, TextInputNotification))
        ensures
            answer == EventResult::Accept ==> r == (KeyEventResult::EventAccepted,
            TextInputNotification::Nothing),
            answer == EventResult::Reject ==> r == (if !event.key_event.modifiers.control
                && !event.key_event.modifiers.alt && !event.key_event.modifiers.meta
                && event.key_event.text@.len() != 0 && forall|i: int|
                0 <= i < event.key_event.text@.len() ==> is_printable_char_spec(
                #[trigger] event.key_event.text@[i],
            ) {
                (KeyEventResult::EventAccepted, TextInputNotification::TextInput(event.key_event.text))
            } else {
                (KeyEventResult::EventIgnored, TextInputNotification::Nothing)
            }),
    {
        match answer {
            EventResult::Accept => (KeyEventResult::EventAccepted, TextInputNotification::Nothing),
            EventResult::Reject => {
                if Self::is_printable_key_text(event) {
                    (
                        KeyEventResult::EventAccepted,
                        TextInputNotification::TextInput(event.key_event.text.clone()),
                    )
                } else {
                    (KeyEventResult::EventIgnored, TextInputNotification::Nothing)
                }
            },
        }
    }

    /// A focus event on an enabled item. Gaining the focus enables the
    /// input method with the current state. Losing the focus lets go of the
    /// input method and, unless the focus moves to another window or a
    /// popup, cancels a pending composition. A disabled item ignores focus
    /// events.
    pub fn focus_event(&mut self, event: &FocusEvent) -> (step: FocusStep)
        ensures
            !old(self).enabled ==> *final(self) == *old(self) && step == (FocusStep {
                result: FocusEventResult::FocusIgnored,
                text_input_focused: None,
                request: InputMethodAction::Nothing,
                notification: TextInputNotification::Nothing,
            }),
            old(self).enabled && event is FocusIn ==> *final(self) == (OverlayTextInputItem {
                has_focus: true,
                ..*old(self)
            }).after_enable() && step == (FocusStep {
                result: FocusEventResult::FocusAccepted,
                text_input_focused: Some(true),
                request: InputMethodAction::Enable,
                notification: TextInputNotification::Nothing,
            }),
            old(self).enabled && event is FocusOut ==> step.result == FocusEventResult::FocusAccepted
                && step.request == InputMethodAction::Nothing && step.text_input_focused == (if old(
                self,
            ).input_method_enabled {
                Some(false)
            } else {
                None
            }),
            old(self).enabled && (event matches FocusEvent::FocusOut(reason) && (reason
                == FocusReason::WindowActivation || reason == FocusReason::PopupActivation))
                ==> *final(self) == (OverlayTextInputItem {
                has_focus: false,
                input_method_enabled: false,
                ..*old(self)
            }) && step.notification == TextInputNotification::Nothing,
            old(self).enabled && (event matches FocusEvent::FocusOut(reason) && reason
                != FocusReason::WindowActivation && reason != FocusReason::PopupActivation)
                ==> (OverlayTextInputItem {
                has_focus: false,
                input_method_enabled: false,
                ..*old(self)
            }).is_after_cancel(*final(self), step.notification),
    {
        if !self.enabled {
            return FocusStep {
                result: FocusEventResult::FocusIgnored,
                text_input_focused: None,
                request: InputMethodAction::Nothing,
                notification: TextInputNotification::Nothing,
            };
        }
        match event {
            FocusEvent::FocusIn(_) => {
                self.has_focus = true;
                self.enable_input_method();
                FocusStep {
                    result: FocusEventResult::FocusAccepted,
                    text_input_focused: Some(true),
                    request: InputMethodAction::Enable,
                    notification: TextInputNotification::Nothing,
                }
            },
            FocusEvent::FocusOut(reason) => {
                self.has_focus = false;
                let was_enabled = self.disable_input_method();
                let activation = match reason {
                    FocusReason::WindowActivation | FocusReason::PopupActivation => true,
                    _ => false,
                };
                let notification = if activation {
                    TextInputNotification::Nothing
                } else {
                    self.cancel_composition()
                };
                FocusStep {
                    result: FocusEventResult::FocusAccepted,
                    text_input_focused: if was_enabled {
                        Some(false)
                    } else {
                        None
                    },
                    request: InputMethodAction::Nothing,
                    notification,
                }
            },
        }
    }

    /// A render pass of an item that has a window processes its platform
    /// state.
    pub fn render(&mut self) -> (step: OverlayPlatformStep)
        ensures
            old(self).is_after_process(*final(self), step),
    {
        self.process_platform_state()
    }
}

/// Without a composition, recording settles at once: right after a record
/// nothing differs from what was recorded.
pub proof fn lemma_record_settles_without_composition(item: OverlayTextInputItem)
    requires
        item.preedit_text@.len() == 0,
    ensures
        !item.after_record().record_changed(),
{
    let r = item.after_record();
    assert(r.last_surrounding_text@ == r.surrounding_text@);
    assert(r.last_preedit_text@ == r.preedit_text@);
}

/// No caret coordinate is a NaN.
pub open spec fn caret_is_number(item: OverlayTextInputItem) -> bool {
    &&& !item.caret_x.is_nan_spec()
    &&& !item.caret_y.is_nan_spec()
    &&& !item.caret_width.is_nan_spec()
    &&& !item.caret_height.is_nan_spec()
}

/// With a caret that is a number, recording settles at once: a change is
/// reported by one record and not again while nothing changes.
pub proof fn lemma_record_settles(item: OverlayTextInputItem)
    requires
        caret_is_number(item),
    ensures
        !item.after_record().record_changed(),
{
    let r = item.after_record();
    assert(r.last_surrounding_text@ == r.surrounding_text@);
    assert(r.last_preedit_text@ == r.preedit_text@);
}

/// Recording reports every change of the generation, the texts, the
/// cursor or the anchor, and afterwards the recorded state is the current
/// one; a change of the caret alone is reported only while composing.
pub proof fn lemma_record_detects_changes(item: OverlayTextInputItem)
    ensures
        item.last_input_generation != item.input_generation ==> item.record_changed(),
        item.last_surrounding_text@ != item.surrounding_text@ ==> item.record_changed(),
        item.last_preedit_text@ != item.preedit_text@ ==> item.record_changed(),
        item.last_cursor_offset != item.cursor_offset ==> item.record_changed(),
        item.last_anchor_offset != item.anchor_offset ==> item.record_changed(),
        item.after_record().last_input_generation == item.input_generation,
        item.after_record().last_cursor_offset == item.cursor_offset,
        item.after_record().last_anchor_offset == item.anchor_offset,
        item.after_record().last_surrounding_text@ == item.surrounding_text@,
        item.after_record().last_preedit_text@ == item.preedit_text@,
        item.after_record().last_caret_x == item.caret_x,
        item.after_record().last_caret_y == item.caret_y,
        item.after_record().last_caret_width == item.caret_width,
        item.after_record().last_caret_height == item.caret_height,
        item.preedit_text@.len() == 0 && item.record_changed() ==> (item.last_input_generation
            != item.input_generation || item.last_surrounding_text@ != item.surrounding_text@
            || item.last_preedit_text@ != item.preedit_text@ || item.last_cursor_offset
            != item.cursor_offset || item.last_anchor_offset != item.anchor_offset),
{
}

/// A change of the caret alone is observable only while a composition is
/// active: when everything else matches what was recorded, recording
/// reports a change exactly when there is a composition and the caret
/// differs from the recorded one.
pub proof fn lemma_caret_change_observable_only_while_composing(item: OverlayTextInputItem)
    requires
        item.last_input_generation == item.input_generation,
        item.last_surrounding_text@ == item.surrounding_text@,
        item.last_preedit_text@ == item.preedit_text@,
        item.last_cursor_offset == item.cursor_offset,
        item.last_anchor_offset == item.anchor_offset,
    ensures
        item.record_changed() == (item.preedit_text@.len() != 0 && item.caret_differs()),
{
}

/// Keeping the input method in step never sends a disable request itself:
/// the window disables the input method when told that no text input has
/// the focus.
pub proof fn lemma_update_never_requests_disable(item: OverlayTextInputItem, new: OverlayTextInputItem, step: InputMethodStep)
    requires
        item.is_after_update(new, step),
    ensures
        step.request != InputMethodAction::Disable,
        step.text_input_focused == Some(false) ==> step.request == InputMethodAction::Nothing,
{
}

/// Gaining the focus makes an enabled item accept platform input.
pub proof fn lemma_focus_in_accepts_input(item: OverlayTextInputItem)
    requires
        item.enabled,
    ensures
        (OverlayTextInputItem { has_focus: true, ..item }).after_enable().accepts_platform_input_spec(),
{
}

/// Whenever the input method is enabled with, or sent, the item's state,
/// the item has submitted its current input generation; a focused, enabled
/// item then accepts platform input.
pub proof fn lemma_update_submits(item: OverlayTextInputItem, new: OverlayTextInputItem, step: InputMethodStep)
    requires
        item.is_after_update(new, step),
        step.request == InputMethodAction::Enable || step.request == InputMethodAction::Update,
    ensures
        new.submitted_input_generation == new.input_generation,
        new.accepts_platform_input_spec(),
{
}

/// A clipboard request is written at most once: a second pass right after
/// a first one does not write it again.
pub proof fn lemma_clipboard_written_once(
    item: OverlayTextInputItem,
    first: OverlayTextInputItem,
    first_step: OverlayPlatformStep,
    second: OverlayTextInputItem,
    second_step: OverlayPlatformStep,
)
    requires
        item.is_after_process(first, first_step),
        first.is_after_process(second, second_step),
    ensures
        !second_step.write_clipboard,
{
}

} // verus!
