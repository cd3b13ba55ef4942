use slint_surface_core::graphics::{
    Color, F32Bits, FontRequest, TextHorizontalAlignment, TextOverflow, TextVerticalAlignment,
    TextWrap,
};
use slint_surface_core::render_surface::{
    clear_render_surface_frame, render_surface_frame, render_surface_layout_batch_reported,
    publish_render_surface_frame, publish_render_surface_frame_delta, RenderSurfaceCommand,
    RenderSurfaceFrame, RenderSurfaceLayerMask, RenderSurfaceLayoutSnapshot,
    RenderSurfaceRectangle, RenderSurfaceRegistry, RenderSurfaceTextRun, RenderSurfaceTextSpan,
};
use slint_surface_core::styled_text::PlainOrStyledText;
use std::rc::Rc;

fn len(v: f32) -> F32Bits {
    F32Bits(v.to_bits())
}

fn empty() -> Rc<Vec<RenderSurfaceCommand>> {
    Rc::new(Default::default())
}

#[test]
fn render_surface_registry_replaces_and_clears_immutable_frames() {
    let mut registry = RenderSurfaceRegistry::new();
    publish_render_surface_frame(&mut registry, 17, RenderSurfaceFrame {
        generation: 1,
        base_generation: 1,
        underlay_generation: 1,
        overlay_generation: 1,
        commands: Rc::new(vec![RenderSurfaceCommand::FillRect {
            x: len(1.),
            y: len(2.),
            width: len(3.),
            height: len(4.),
            color: Color::from_rgb_u8(1, 2, 3),
        }]),
        underlay_commands: empty(),
        overlay_commands: empty(),
    });
    let first = render_surface_frame(&registry, 17).unwrap();
    assert_eq!(first.generation, 1);
    publish_render_surface_frame(&mut registry, 17, RenderSurfaceFrame {
        generation: 2,
        base_generation: 2,
        underlay_generation: 2,
        overlay_generation: 2,
        commands: empty(),
        underlay_commands: empty(),
        overlay_commands: empty(),
    });
    assert_eq!(first.generation, 1);
    assert_eq!(render_surface_frame(&registry, 17).unwrap().generation, 2);
    clear_render_surface_frame(&mut registry, 17);
    assert!(render_surface_frame(&registry, 17).is_none());
}

#[test]
fn render_surface_registry_delta_preserves_omitted_layers_and_clears_included_empty_layer() {
    let mut registry = RenderSurfaceRegistry::new();
    let base = Rc::new(vec![RenderSurfaceCommand::FillRect {
        x: len(0.),
        y: len(0.),
        width: len(1.),
        height: len(1.),
        color: Color::default(),
    }]);
    publish_render_surface_frame(&mut registry, 18, RenderSurfaceFrame {
        generation: 1,
        base_generation: 10,
        underlay_generation: 20,
        overlay_generation: 30,
        commands: base.clone(),
        underlay_commands: empty(),
        overlay_commands: empty(),
    });
    publish_render_surface_frame_delta(
        &mut registry,
        18,
        2,
        11,
        21,
        31,
        RenderSurfaceLayerMask::UNDERLAY() | RenderSurfaceLayerMask::OVERLAY(),
        None,
        Some(empty()),
        Some(empty()),
    );
    let frame = render_surface_frame(&registry, 18).unwrap();
    assert_eq!(frame.generation, 2);
    assert_eq!(frame.base_generation, 10);
    assert!(Rc::ptr_eq(&frame.commands, &base));
    assert!(frame.underlay_commands.is_empty());
    assert!(frame.overlay_commands.is_empty());
}

#[test]
fn render_surface_text_run_preserves_requested_alignment() {
    let run = RenderSurfaceTextRun {
        text: String::from("text"),
        color: Color::default(),
        spans: Default::default(),
        font: Default::default(),
        horizontal_alignment: TextHorizontalAlignment::Right,
        vertical_alignment: TextVerticalAlignment::Center,
    };
    assert_eq!(run.alignment(), (TextHorizontalAlignment::Right, TextVerticalAlignment::Center));
}

#[test]
fn render_surface_text_run_preserves_colored_utf8_spans() {
    let run = RenderSurfaceTextRun {
        text: String::from("a·b"),
        color: Color::from_rgb_u8(1, 2, 3),
        spans: vec![RenderSurfaceTextSpan {
            start_byte: 1,
            end_byte: 3,
            color: Color::from_rgb_u8(4, 5, 6),
        }],
        font: Default::default(),
        horizontal_alignment: TextHorizontalAlignment::Left,
        vertical_alignment: TextVerticalAlignment::Top,
    };
    match run.text() {
        PlainOrStyledText::Styled(_) => {}
        PlainOrStyledText::Plain(_) => panic!("coloured span lost"),
    }
}

#[test]
fn render_surface_text_run_styled_text_carries_each_span() {
    let run = RenderSurfaceTextRun {
        text: String::from("a·b"),
        color: Color::from_rgb_u8(1, 2, 3),
        spans: vec![
            RenderSurfaceTextSpan { start_byte: 1, end_byte: 3, color: Color::from_rgb_u8(4, 5, 6) },
            RenderSurfaceTextSpan {
                start_byte: 0,
                end_byte: 1,
                color: Color::from_argb_u8(0x80, 7, 8, 9),
            },
        ],
        font: Default::default(),
        horizontal_alignment: TextHorizontalAlignment::Left,
        vertical_alignment: TextVerticalAlignment::Top,
    };
    match run.text() {
        PlainOrStyledText::Styled(styled) => {
            assert_eq!(styled.text, "a·b");
            assert_eq!(styled.colored_ranges.len(), 2);
            assert_eq!(styled.colored_ranges[0].start, 1);
            assert_eq!(styled.colored_ranges[0].end, 3);
            assert_eq!(styled.colored_ranges[0].argb, 0xff04_0506);
            assert_eq!(styled.colored_ranges[1].argb, 0x8007_0809);
        }
        PlainOrStyledText::Plain(_) => panic!("coloured span lost"),
    }
}

#[test]
fn render_surface_text_run_without_spans_is_plain() {
    let run = RenderSurfaceTextRun {
        text: String::from("plain"),
        color: Color::from_rgb_u8(1, 2, 3),
        spans: Vec::new(),
        font: FontRequest { family: Some("Sans".into()), weight: Some(700), ..Default::default() },
        horizontal_alignment: TextHorizontalAlignment::Center,
        vertical_alignment: TextVerticalAlignment::Bottom,
    };
    match run.text() {
        PlainOrStyledText::Plain(text) => assert_eq!(text, "plain"),
        PlainOrStyledText::Styled(_) => panic!("plain text styled"),
    }
    assert_eq!(run.color(), Color::from_rgb_u8(1, 2, 3));
    assert_eq!(run.link_color(), Color::default());
    assert_eq!(run.wrap(), TextWrap::NoWrap);
    assert_eq!(run.overflow(), TextOverflow::Clip);
    assert!(!run.is_markdown());
    let font = run.font_request();
    assert_eq!(font.family.as_deref(), Some("Sans"));
    assert_eq!(font.weight, Some(700));
    assert_eq!(RenderSurfaceRectangle(Color::from_rgb_u8(9, 8, 7)).background(),
        Color::from_rgb_u8(9, 8, 7));
}

#[test]
fn render_surface_layer_mask_bits() {
    let mask = RenderSurfaceLayerMask::from_bits(0xff);
    assert_eq!(mask, RenderSurfaceLayerMask::ALL());
    assert!(mask.contains(RenderSurfaceLayerMask::BASE()));
    assert!(mask.contains(RenderSurfaceLayerMask::UNDERLAY()));
    assert!(mask.contains(RenderSurfaceLayerMask::OVERLAY()));
    let none = RenderSurfaceLayerMask::from_bits(0xf8);
    assert!(!none.contains(RenderSurfaceLayerMask::ALL()));
    assert_eq!(
        RenderSurfaceLayerMask::BASE() | RenderSurfaceLayerMask::UNDERLAY()
            | RenderSurfaceLayerMask::OVERLAY(),
        RenderSurfaceLayerMask::ALL()
    );
    let a = RenderSurfaceLayerMask::BASE() | RenderSurfaceLayerMask::OVERLAY();
    let b = RenderSurfaceLayerMask::OVERLAY() | RenderSurfaceLayerMask::BASE();
    assert_eq!(a, b);
    assert!(!a.contains(RenderSurfaceLayerMask::UNDERLAY()));
}

#[test]
fn render_surface_delta_without_previous_frame_starts_empty() {
    let mut registry = RenderSurfaceRegistry::new();
    let overlay = Rc::new(vec![RenderSurfaceCommand::Line {
        x: len(0.),
        y: len(0.),
        width: len(1.),
        height: len(10.),
        color: Color::default(),
    }]);
    publish_render_surface_frame_delta(
        &mut registry,
        5,
        3,
        7,
        8,
        9,
        RenderSurfaceLayerMask::OVERLAY() | RenderSurfaceLayerMask::BASE(),
        None,
        Some(empty()),
        Some(overlay.clone()),
    );
    let frame = render_surface_frame(&registry, 5).unwrap();
    assert_eq!(frame.generation, 3);
    assert_eq!(frame.base_generation, 7);
    assert_eq!(frame.underlay_generation, 0);
    assert_eq!(frame.overlay_generation, 9);
    assert!(frame.commands.is_empty());
    assert!(frame.underlay_commands.is_empty());
    assert!(Rc::ptr_eq(&frame.overlay_commands, &overlay));
    assert!(render_surface_frame(&registry, 6).is_none());
}

#[test]
fn render_surface_empty_delta_keeps_every_layer() {
    let mut registry = RenderSurfaceRegistry::new();
    let frame = RenderSurfaceFrame::from_layers(
        1,
        10,
        20,
        30,
        vec![RenderSurfaceCommand::FillRect {
            x: len(0.),
            y: len(0.),
            width: len(2.),
            height: len(2.),
            color: Color::default(),
        }],
        Vec::new(),
        Vec::new(),
    );
    let base = frame.commands.clone();
    publish_render_surface_frame(&mut registry, 1, frame);
    publish_render_surface_frame(&mut registry, 2, RenderSurfaceFrame::from_single_layer(4, Vec::new()));
    publish_render_surface_frame_delta(
        &mut registry,
        1,
        2,
        11,
        21,
        31,
        RenderSurfaceLayerMask::from_bits(0),
        Some(empty()),
        Some(empty()),
        Some(empty()),
    );
    let frame = render_surface_frame(&registry, 1).unwrap();
    assert_eq!(
        (frame.generation, frame.base_generation, frame.underlay_generation, frame.overlay_generation),
        (2, 10, 20, 30)
    );
    assert!(Rc::ptr_eq(&frame.commands, &base));
    let other = render_surface_frame(&registry, 2).unwrap();
    assert_eq!(
        (other.generation, other.base_generation, other.underlay_generation, other.overlay_generation),
        (4, 4, 4, 4)
    );
}

#[test]
fn render_surface_empty_layout_batch_is_not_reported() {
    assert!(!render_surface_layout_batch_reported(&[]));
    assert!(render_surface_layout_batch_reported(&[RenderSurfaceLayoutSnapshot::default()]));
}
