use slint_surface_core::cpp_api::{
    ffi_string, ffi_text_spans, horizontal_alignment_from_ffi, native_surface_commands,
    parse_usize, slint_string_character_count, slint_string_to_usize, vertical_alignment_from_ffi,
    NativeSurfaceCommandData, NativeSurfaceTextSpanData,
};
use slint_surface_core::graphics::{Color, F32Bits, TextHorizontalAlignment, TextVerticalAlignment};
use slint_surface_core::native_surface::NativeSurfaceCommand;

fn command<'a>(kind: u8, text: &'a [u8], spans: &'a [NativeSurfaceTextSpanData]) -> NativeSurfaceCommandData<'a> {
    NativeSurfaceCommandData {
        kind,
        layout_key: 77,
        x: F32Bits(1.5f32.to_bits()),
        y: F32Bits(2.5f32.to_bits()),
        width: F32Bits(30f32.to_bits()),
        height: F32Bits(12f32.to_bits()),
        color_argb: 0xff10_2030,
        text,
        text_len: text.len(),
        text_spans: spans,
        font_family: b"Noto Sans",
        font_size: F32Bits(14f32.to_bits()),
        font_weight: 500,
        horizontal_alignment: 2,
        vertical_alignment: 1,
    }
}

#[test]
fn cpp_api_decodes_each_command_kind() {
    let spans = [
        NativeSurfaceTextSpanData { start_byte: 1, end_byte: 3, color_argb: 0xff04_0506 },
        NativeSurfaceTextSpanData { start_byte: 2, end_byte: 2, color_argb: 0 },
        NativeSurfaceTextSpanData { start_byte: 0, end_byte: 9, color_argb: 0 },
    ];
    let data = [
        command(0, b"", &[]),
        command(1, "a·b".as_bytes(), &spans),
        command(7, b"", &[]),
    ];
    let commands = native_surface_commands(&data);
    assert_eq!(commands.len(), 3);
    match &commands[0] {
        NativeSurfaceCommand::FillRect { x, color, .. } => {
            assert_eq!(f32::from_bits(x.0), 1.5);
            assert_eq!(*color, Color::from_argb_u8(0xff, 0x10, 0x20, 0x30));
        }
        other => panic!("unexpected command {other:?}"),
    }
    match &commands[1] {
        NativeSurfaceCommand::Text {
            layout_key,
            text,
            spans,
            font,
            horizontal_alignment,
            vertical_alignment,
            ..
        } => {
            assert_eq!(*layout_key, 77);
            assert_eq!(text, "a·b");
            assert_eq!(spans.len(), 1);
            assert_eq!((spans[0].start_byte, spans[0].end_byte), (1, 3));
            assert_eq!(spans[0].color, Color::from_rgb_u8(4, 5, 6));
            assert_eq!(font.family.as_deref(), Some("Noto Sans"));
            assert_eq!(font.weight, Some(500));
            assert_eq!(font.pixel_size, Some(F32Bits(14f32.to_bits())));
            assert_eq!(*horizontal_alignment, TextHorizontalAlignment::Right);
            assert_eq!(*vertical_alignment, TextVerticalAlignment::Center);
        }
        other => panic!("unexpected command {other:?}"),
    }
    assert!(matches!(commands[2], NativeSurfaceCommand::Line { .. }));
}

#[test]
fn cpp_api_reads_strings_and_spans() {
    assert_eq!(ffi_string(b""), "");
    assert_eq!(ffi_string("grüße".as_bytes()), "grüße");
    assert_eq!(ffi_string(&[0xff, 0xfe]), "");
    assert_eq!(ffi_string(&[0xe2, 0x82]), "");
    let spans = ffi_text_spans(
        &[
            NativeSurfaceTextSpanData { start_byte: 3, end_byte: 1, color_argb: 0 },
            NativeSurfaceTextSpanData { start_byte: 0, end_byte: 4, color_argb: 0x0102_0304 },
            NativeSurfaceTextSpanData { start_byte: 0, end_byte: 5, color_argb: 0 },
        ],
        4,
    );
    assert_eq!(spans.len(), 1);
    assert_eq!(spans[0].color, Color::from_argb_u8(1, 2, 3, 4));
    assert_eq!(spans[0].color.as_argb_encoded(), 0x0102_0304);
}

#[test]
fn cpp_api_decodes_alignments() {
    assert_eq!(horizontal_alignment_from_ffi(0), TextHorizontalAlignment::Left);
    assert_eq!(horizontal_alignment_from_ffi(1), TextHorizontalAlignment::Center);
    assert_eq!(horizontal_alignment_from_ffi(2), TextHorizontalAlignment::Right);
    assert_eq!(horizontal_alignment_from_ffi(200), TextHorizontalAlignment::Left);
    assert_eq!(vertical_alignment_from_ffi(0), TextVerticalAlignment::Top);
    assert_eq!(vertical_alignment_from_ffi(1), TextVerticalAlignment::Center);
    assert_eq!(vertical_alignment_from_ffi(2), TextVerticalAlignment::Bottom);
    assert_eq!(vertical_alignment_from_ffi(3), TextVerticalAlignment::Top);
}

#[test]
fn cpp_api_counts_grapheme_clusters() {
    assert_eq!(slint_string_character_count(""), 0);
    assert_eq!(slint_string_character_count("abc"), 3);
    assert_eq!(slint_string_character_count("e\u{301}x"), 2);
    assert_eq!(slint_string_character_count("\r\n"), 1);
    assert_eq!(slint_string_character_count("🇩🇪🇫🇷"), 2);
}

#[test]
fn cpp_api_parses_usize_like_std() {
    let max = usize::MAX.to_string();
    let over = format!("{}0", usize::MAX);
    for text in [
        "0", "42", "+7", "007", "", "+", "-1", "-0", " 1", "1 ", "12a", "٣", max.as_str(),
        over.as_str(), "18446744073709551616", "++1",
    ] {
        assert_eq!(parse_usize(text), text.parse::<usize>().ok(), "{text:?}");
    }
    let mut value = 5usize;
    assert!(slint_string_to_usize("123", &mut value));
    assert_eq!(value, 123);
    assert!(!slint_string_to_usize("12x", &mut value));
    assert_eq!(value, 123);
}
