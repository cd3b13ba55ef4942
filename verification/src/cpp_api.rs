//! What the C++ integration hands across its boundary: display-list
//! commands as plain data, strings as UTF-8 bytes, and the string
//! conversions it offers.

use crate::graphics::{Color, F32Bits, FontRequest, TextHorizontalAlignment, TextVerticalAlignment};
use crate::native_surface::{NativeSurfaceCommand, NativeSurfaceTextSpan};
use vstd::prelude::*;
use vstd::utf8::{decode_utf8, encode_utf8, valid_utf8};

verus! {

/// A colour override for the bytes `start_byte..end_byte` of a text command.
#[derive(Clone, Copy, Debug, PartialEq, Eq, Structural)]
pub struct NativeSurfaceTextSpanData {
    pub start_byte: u32,
    pub end_byte: u32,
    pub color_argb: u32,
}

/// One display-list command as the C++ side describes it. Kind 0 is a
/// filled rectangle, kind 1 a text run, any other kind a line.
#[derive(Clone, Copy, Debug)]
pub struct NativeSurfaceCommandData<'a> {
    pub kind: u8,
    pub layout_key: u64,
    pub x: F32Bits,
    pub y: F32Bits,
    pub width: F32Bits,
    pub height: F32Bits,
    pub color_argb: u32,
    /// The UTF-8 bytes of the text.
    pub text: &'a [u8],
    /// The byte length of the text that the spans are checked against.
    pub text_len: usize,
    pub text_spans: &'a [NativeSurfaceTextSpanData],
    /// The UTF-8 bytes of the font family.
    pub font_family: &'a [u8],
    pub font_size: F32Bits,
    pub font_weight: i32,
    /// 1 centres, 2 aligns right, anything else aligns left.
    pub horizontal_alignment: u8,
    /// 1 centres, 2 aligns to the bottom, anything else aligns to the top.
    pub vertical_alignment: u8,
}

/// `core::str::from_utf8`: the bytes read as a string slice, where they are
/// valid UTF-8. The slice is made of the very same bytes.
#[verifier::external_body]
fn str_from_utf8(bytes: &[u8]) -> (r: Option<&str>)
    ensures
        r is Some <==> valid_utf8(bytes@),
        r matches Some(s) ==> encode_utf8(s@) == bytes@,
{
    core::str::from_utf8(bytes).ok()
}

/// The text that a byte string handed across the boundary stands for: its
/// characters where it is valid UTF-8, and the empty text otherwise.
pub open spec fn ffi_string_spec(bytes: Seq<u8>) -> Seq<char> {
    if valid_utf8(bytes) {
        decode_utf8(bytes)
    } else {
        Seq::empty()
    }
}

/// Reads a byte string handed across the boundary; invalid UTF-8 reads as
/// the empty text.
pub fn ffi_string(bytes: &[u8]) -> (s: String)
    ensures
        s@ == ffi_string_spec(bytes@),
{
    match str_from_utf8(bytes) {
        Some(text) => {
            proof {
                vstd::utf8::encode_utf8_decode_utf8(text@);
            }
            text.to_owned()
        },
        None => String::new(),
    }
}

/// Whether a span lies within a text of `text_len` bytes and covers at
/// least one byte.
pub open spec fn span_in_text(span: NativeSurfaceTextSpanData, text_len: usize) -> bool {
    span.start_byte < span.end_byte && span.end_byte as int <= text_len as int
}

/// The span that valid span data stands for.
pub open spec fn span_of(span: NativeSurfaceTextSpanData) -> NativeSurfaceTextSpan {
    NativeSurfaceTextSpan {
        start_byte: span.start_byte as usize,
        end_byte: span.end_byte as usize,
        color: Color {
            alpha: (span.color_argb >> 24u32) as u8,
            red: ((span.color_argb >> 16u32) & 0xffu32) as u8,
            green: ((span.color_argb >> 8u32) & 0xffu32) as u8,
            blue: (span.color_argb & 0xffu32) as u8,
        },
    }
}

/// The spans that span data stands for: those within the text and not
/// empty, in their order.
pub open spec fn text_spans_spec(data: Seq<NativeSurfaceTextSpanData>, text_len: usize) -> Seq<NativeSurfaceTextSpan>
    decreases data.len(),
{
    if data.len() == 0 {
        Seq::empty()
    } else {
        let rest = text_spans_spec(data.drop_last(), text_len);
        if span_in_text(data.last(), text_len) {
            rest.push(span_of(data.last()))
        } else {
            rest
        }
    }
}

/// Reads the colour spans of a text command, dropping those that are
/// empty or reach past the text.
pub fn ffi_text_spans(data: &[NativeSurfaceTextSpanData], text_len: usize) -> (spans: Vec<NativeSurfaceTextSpan>)
    ensures
        spans@ == text_spans_spec(data@, text_len),
{
    let mut spans: Vec<NativeSurfaceTextSpan> = Vec::new();
    let n = data.len();
    for i in 0..n
        invariant
            n == data@.len(),
            spans@ == text_spans_spec(data@.subrange(0, i as int), text_len),
    {
        let span = data[i];
        assert(data@.subrange(0, i + 1).drop_last() =~= data@.subrange(0, i as int));
        if span.start_byte < span.end_byte && span.end_byte as usize <= text_len {
            spans.push(
                NativeSurfaceTextSpan {
                    start_byte: span.start_byte as usize,
                    end_byte: span.end_byte as usize,
                    color: Color::from_argb_encoded(span.color_argb),
                },
            );
        }
    }
    assert(data@.subrange(0, n as int) =~= data@);
    spans
}

/// The horizontal alignment that an alignment byte stands for.
pub open spec fn horizontal_alignment_spec(code: u8) -> TextHorizontalAlignment {
    if code == 1 {
        TextHorizontalAlignment::Center
    } else if code == 2 {
        TextHorizontalAlignment::Right
    } else {
        TextHorizontalAlignment::Left
    }
}

/// The vertical alignment that an alignment byte stands for.
pub open spec fn vertical_alignment_spec(code: u8) -> TextVerticalAlignment {
    if code == 1 {
        TextVerticalAlignment::Center
    } else if code == 2 {
        TextVerticalAlignment::Bottom
    } else {
        TextVerticalAlignment::Top
    }
}

/// Computes `horizontal_alignment_spec`.
pub fn horizontal_alignment_from_ffi(code: u8) -> (a: TextHorizontalAlignment)
    ensures
        a == horizontal_alignment_spec(code),
{
    match code {
        1 => TextHorizontalAlignment::Center,
        2 => TextHorizontalAlignment::Right,
        _ => TextHorizontalAlignment::Left,
    }
}

/// Computes `vertical_alignment_spec`.
pub fn vertical_alignment_from_ffi(code: u8) -> (a: TextVerticalAlignment)
    ensures
        a == vertical_alignment_spec(code),
{
    match code {
        1 => TextVerticalAlignment::Center,
        2 => TextVerticalAlignment::Bottom,
        _ => TextVerticalAlignment::Top,
    }
}

/// The colour that an `0xAARRGGBB` word stands for.
pub open spec fn color_of(argb: u32) -> Color {
    Color {
        alpha: (argb >> 24u32) as u8,
        red: ((argb >> 16u32) & 0xffu32) as u8,
        green: ((argb >> 8u32) & 0xffu32) as u8,
        blue: (argb & 0xffu32) as u8,
    }
}

/// `command` is what the command data stands for.
pub open spec fn command_of(data: NativeSurfaceCommandData, command: NativeSurfaceCommand) -> bool {
    if data.kind == 0 {
        command == NativeSurfaceCommand::FillRect {
            x: data.x,
            y: data.y,
            width: data.width,
            height: data.height,
            color: color_of(data.color_argb),
        }
    } else if data.kind == 1 {
        command matches NativeSurfaceCommand::Text {
            layout_key,
            x,
            y,
            width,
            height,
            text,
            color,
            spans,
            font,
            horizontal_alignment,
            vertical_alignment,
        } && {
            &&& layout_key == data.layout_key
            &&& x == data.x && y == data.y && width == data.width && height == data.height
            &&& text@ == ffi_string_spec(data.text@)
            &&& color == color_of(data.color_argb)
            &&& spans@ == text_spans_spec(data.text_spans@, data.text_len)
            &&& font.family matches Some(family) && family@ == ffi_string_spec(data.font_family@)
            &&& font.weight == Some(data.font_weight)
            &&& font.pixel_size == Some(data.font_size)
            &&& font.letter_spacing is None
            &&& !font.italic
            &&& horizontal_alignment == horizontal_alignment_spec(data.horizontal_alignment)
            &&& vertical_alignment == vertical_alignment_spec(data.vertical_alignment)
        }
    } else {
        command == NativeSurfaceCommand::Line {
            x: data.x,
            y: data.y,
            width: data.width,
            height: data.height,
            color: color_of(data.color_argb),
        }
    }
}

/// The position and size of a command.
pub open spec fn command_geometry(command: NativeSurfaceCommand) -> (F32Bits, F32Bits, F32Bits, F32Bits) {
    match command {
        NativeSurfaceCommand::FillRect { x, y, width, height, .. } => (x, y, width, height),
        NativeSurfaceCommand::Text { x, y, width, height, .. } => (x, y, width, height),
        NativeSurfaceCommand::Line { x, y, width, height, .. } => (x, y, width, height),
    }
}

/// The colour of a command.
pub open spec fn command_color(command: NativeSurfaceCommand) -> Color {
    match command {
        NativeSurfaceCommand::FillRect { color, .. } => color,
        NativeSurfaceCommand::Text { color, .. } => color,
        NativeSurfaceCommand::Line { color, .. } => color,
    }
}

/// A decoded command keeps the data's geometry field by field and its
/// colour (encoding the colour again gives the data's word); kind 0 makes
/// a rectangle, kind 1 a text run, and every other kind a line.
pub proof fn lemma_command_keeps_fields(data: NativeSurfaceCommandData, command: NativeSurfaceCommand)
    requires
        command_of(data, command),
    ensures
        command_geometry(command) == (data.x, data.y, data.width, data.height),
        crate::graphics::argb_encoding(
            command_color(command).alpha,
            command_color(command).red,
            command_color(command).green,
            command_color(command).blue,
        ) == data.color_argb,
        (data.kind == 0) == (command is FillRect),
        (data.kind == 1) == (command is Text),
        (data.kind != 0 && data.kind != 1) == (command is Line),
{
    let a = data.color_argb;
    assert(((a >> 24u32) as u8 as u32) << 24u32 | (((a >> 16u32) & 0xffu32) as u8 as u32) << 16u32
        | (((a >> 8u32) & 0xffu32) as u8 as u32) << 8u32 | ((a & 0xffu32) as u8 as u32) == a)
        by (bit_vector);
}

/// Reads one command.
pub fn native_surface_command(data: &NativeSurfaceCommandData) -> (command: NativeSurfaceCommand)
    ensures
        command_of(*data, command),
        command_geometry(command) == (data.x, data.y, data.width, data.height),
        command_color(command) == color_of(data.color_argb),
        (data.kind == 0) == (command is FillRect),
        (data.kind == 1) == (command is Text),
{
    let color = Color::from_argb_encoded(data.color_argb);
    if data.kind == 0 {
        NativeSurfaceCommand::FillRect {
            x: data.x,
            y: data.y,
            width: data.width,
            height: data.height,
            color,
        }
    } else if data.kind == 1 {
        NativeSurfaceCommand::Text {
            layout_key: data.layout_key,
            x: data.x,
            y: data.y,
            width: data.width,
            height: data.height,
            text: ffi_string(data.text),
            color,
            spans: ffi_text_spans(data.text_spans, data.text_len),
            font: FontRequest {
                family: Some(ffi_string(data.font_family)),
                weight: Some(data.font_weight),
                pixel_size: Some(data.font_size),
                letter_spacing: None,
                italic: false,
            },
            horizontal_alignment: horizontal_alignment_from_ffi(data.horizontal_alignment),
            vertical_alignment: vertical_alignment_from_ffi(data.vertical_alignment),
        }
    } else {
        NativeSurfaceCommand::Line {
            x: data.x,
            y: data.y,
            width: data.width,
            height: data.height,
            color,
        }
    }
}

/// Reads a list of commands, one command for each command data, in order.
pub fn native_surface_commands(commands: &[NativeSurfaceCommandData]) -> (result: Vec<NativeSurfaceCommand>)
    ensures
        result@.len() == commands@.len(),
        forall|i: int| 0 <= i < commands@.len() ==> command_of(commands@[i], #[trigger] result@[i]),
        forall|i: int|
            0 <= i < commands@.len() ==> command_geometry(#[trigger] result@[i]) == (
                commands@[i].x,
                commands@[i].y,
                commands@[i].width,
                commands@[i].height,
            ),
{
    let mut result: Vec<NativeSurfaceCommand> = Vec::new();
    let n = commands.len();
    for i in 0..n
        invariant
            n == commands@.len(),
            result@.len() == i,
            forall|j: int| 0 <= j < i ==> command_of(commands@[j], #[trigger] result@[j]),
            forall|j: int|
                0 <= j < i ==> command_geometry(#[trigger] result@[j]) == (
                    commands@[j].x,
                    commands@[j].y,
                    commands@[j].width,
                    commands@[j].height,
                ),
    {
        let command = native_surface_command(&commands[i]);
        result.push(command);
    }
    result
}

/// Every span that is read lies within the text and covers at least one
/// byte, and no more spans are read than were given.
pub proof fn lemma_text_spans_within_text(data: Seq<NativeSurfaceTextSpanData>, text_len: usize)
    ensures
        text_spans_spec(data, text_len).len() <= data.len(),
        forall|i: int|
            0 <= i < text_spans_spec(data, text_len).len() ==> {
                let span = #[trigger] text_spans_spec(data, text_len)[i];
                span.start_byte < span.end_byte && span.end_byte <= text_len
            },
    decreases data.len(),
{
    if data.len() > 0 {
        lemma_text_spans_within_text(data.drop_last(), text_len);
    }
}

/// A text handed across the boundary as its UTF-8 encoding reads back as
/// the same text.
pub proof fn lemma_ffi_string_round_trip(text: Seq<char>)
    ensures
        ffi_string_spec(encode_utf8(text)) == text,
{
    vstd::utf8::encode_utf8_valid_utf8(text);
    vstd::utf8::encode_utf8_decode_utf8(text);
}

/// The number of extended grapheme clusters of a text, as
/// `unicode-segmentation` counts them.
pub uninterp spec fn extended_grapheme_count(text: Seq<char>) -> usize;

/// `UnicodeSegmentation::graphemes(text, true).count()`: the number of
/// extended grapheme clusters of the text. Each cluster holds at least one
/// character and the clusters cover the text, so there are no more
/// clusters than characters, and none exactly when the text is empty.
#[verifier::external_body]
fn count_extended_graphemes(text: &str) -> (n: usize)
    ensures
        n == extended_grapheme_count(text@),
        n <= text@.len(),
        (n == 0) == (text@.len() == 0),
{
    unicode_segmentation::UnicodeSegmentation::graphemes(text, true).count()
}

/// The number of user-perceived characters (extended grapheme clusters)
/// of a string.
pub fn slint_string_character_count(text: &str) -> (n: usize)
    ensures
        n == extended_grapheme_count(text@),
        n <= text@.len(),
        (n == 0) == (text@.len() == 0),
{
    count_extended_graphemes(text)
}

/// Whether a byte is an ASCII decimal digit.
pub open spec fn is_digit(b: u8) -> bool {
    48 <= b && b <= 57
}

/// The value of a string of decimal digits.
pub open spec fn decimal_value(digits: Seq<u8>) -> nat
    decreases digits.len(),
{
    if digits.len() == 0 {
        0
    } else {
        decimal_value(digits.drop_last()) * 10 + (digits.last() - 48) as nat
    }
}

/// The digits of a decimal number, after an optional leading `+`.
pub open spec fn unsigned_digits(bytes: Seq<u8>) -> Seq<u8> {
    if bytes.len() > 0 && bytes[0] == 43 {
        bytes.drop_first()
    } else {
        bytes
    }
}

/// The `usize` that a string spells in decimal: an optional `+` followed by
/// at least one ASCII digit and nothing else, with a value that fits.
pub open spec fn parse_usize_spec(bytes: Seq<u8>) -> Option<usize> {
    let digits = unsigned_digits(bytes);
    if digits.len() > 0 && (forall|i: int| 0 <= i < digits.len() ==> is_digit(#[trigger] digits[i]))
        && decimal_value(digits) <= usize::MAX {
        Some(decimal_value(digits) as usize)
    } else {
        None
    }
}

/// A longer run of digits never has a smaller value.
proof fn lemma_decimal_value_prefix(digits: Seq<u8>, k: int)
    requires
        0 <= k <= digits.len(),
        forall|i: int| 0 <= i < digits.len() ==> is_digit(#[trigger] digits[i]),
    ensures
        decimal_value(digits.subrange(0, k)) <= decimal_value(digits),
    decreases digits.len() - k,
{
    if k < digits.len() {
        let next = digits.subrange(0, k + 1);
        assert(next.drop_last() =~= digits.subrange(0, k));
        lemma_decimal_value_prefix(digits, k + 1);
    } else {
        assert(digits.subrange(0, k) =~= digits);
    }
}

/// Reads a `usize` written in decimal, as `str::parse::<usize>` does.
pub fn parse_usize(text: &str) -> (r: Option<usize>)
    ensures
        r == parse_usize_spec(encode_utf8(text@)),
{
    let bytes = text.as_bytes();
    let ghost all = bytes@;
    let n = bytes.len();
    let start: usize = if n > 0 && bytes[0] == 43u8 {
        1
    } else {
        0
    };
    let ghost digits = unsigned_digits(all);
    assert(digits =~= all.subrange(start as int, n as int));
    if start == n {
        return None;
    }
    let mut value: usize = 0;
    let mut i: usize = start;
    while i < n
        invariant
            start <= i <= n,
            n == all.len(),
            bytes@ == all,
            all == encode_utf8(text@),
            digits == unsigned_digits(all),
            digits =~= all.subrange(start as int, n as int),
            forall|j: int| 0 <= j < i - start ==> is_digit(#[trigger] digits[j]),
            value == decimal_value(digits.subrange(0, i - start)),
        decreases n - i,
    {
        let b = bytes[i];
        assert(digits[i - start] == b);
        assert(digits.subrange(0, i - start + 1).drop_last() =~= digits.subrange(0, i - start));
        if b < 48u8 || b > 57u8 {
            assert(!is_digit(digits[i - start]));
            return None;
        }
        let d = (b - 48u8) as usize;
        let next = match value.checked_mul(10) {
            Some(v) => v.checked_add(d),
            None => None,
        };
        match next {
            Some(v) => {
                value = v;
            },
            None => {
                proof {
                    if forall|j: int| 0 <= j < digits.len() ==> is_digit(#[trigger] digits[j]) {
                        lemma_decimal_value_prefix(digits, i - start + 1);
                    }
                }
                return None;
            },
        }
        i = i + 1;
    }
    assert(digits.subrange(0, n - start) =~= digits);
    Some(value)
}

/// Reads a `usize` written in decimal into `value`, and says whether the
/// text was one; `value` is left alone otherwise.
pub fn slint_string_to_usize(text: &str, value: &mut usize) -> (ok: bool)
    ensures
        ok == parse_usize_spec(encode_utf8(text@)) is Some,
        ok ==> Some(*final(value)) == parse_usize_spec(encode_utf8(text@)),
        !ok ==> *final(value) == *old(value),
{
    match parse_usize(text) {
        Some(v) => {
            *value = v;
            true
        },
        None => false,
    }
}

} // verus!
