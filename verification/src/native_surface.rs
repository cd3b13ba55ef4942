//! A small display-list surface for host integrations.
//!
//! Native surfaces deliberately are not item trees. A producer publishes an
//! immutable frame made of three independently replaceable layers into a
//! registry keyed by surface id, and the renderer draws the current frame.

use crate::graphics::{
    Color, F32Bits, FontRequest, TextHorizontalAlignment, TextOverflow, TextVerticalAlignment,
    TextWrap,
};
use crate::shared::share_rc;
use crate::styled_text::{ColoredRange, PlainOrStyledText, StyledText};
use std::collections::BTreeMap;
use std::rc::Rc;
use vstd::prelude::*;

verus! {

broadcast use vstd::std_specs::btree::group_btree_axioms, vstd::laws_cmp::group_laws_cmp;

/// A set of independently replaceable native-surface display-list layers.
///
/// A delta deliberately distinguishes an omitted layer from an explicitly
/// empty one: omitted layers retain their existing immutable list, while an
/// included empty layer clears that list.
#[derive(Clone, Copy, Debug, PartialEq, Eq, Structural)]
pub struct NativeSurfaceLayerMask(u8);

impl NativeSurfaceLayerMask {
    /// The raw bits of the mask; only the three low bits are ever set.
    pub closed spec fn bits(self) -> u8 {
        self.0
    }

    /// The mask selects the layer whose bit is `layer_bit`.
    pub open spec fn has(self, layer_bit: u8) -> bool {
        self.bits() & layer_bit != 0
    }

    /// The layer of immutable content commands.
    #[allow(non_snake_case)]
    pub fn BASE() -> (mask: Self)
        ensures
            mask == Self::from_bits_spec(1),
            mask.bits() == 1,
    {
        assert(1u8 & 7 == 1u8) by (bit_vector);
        Self(1)
    }

    /// The layer drawn below the content commands.
    #[allow(non_snake_case)]
    pub fn UNDERLAY() -> (mask: Self)
        ensures
            mask == Self::from_bits_spec(2),
            mask.bits() == 2,
    {
        assert(2u8 & 7 == 2u8) by (bit_vector);
        Self(2)
    }

    /// The layer of transient overlay commands (carets, selection).
    #[allow(non_snake_case)]
    pub fn OVERLAY() -> (mask: Self)
        ensures
            mask == Self::from_bits_spec(4),
            mask.bits() == 4,
    {
        assert(4u8 & 7 == 4u8) by (bit_vector);
        Self(4)
    }

    /// All three layers.
    #[allow(non_snake_case)]
    pub fn ALL() -> (mask: Self)
        ensures
            mask == Self::from_bits_spec(7),
            mask.bits() == 7,
    {
        assert(7u8 & 7 == 7u8) by (bit_vector);
        Self(7)
    }

    /// The mask of the layers whose bits are set in `bits`; unknown bits are dropped.
    pub closed spec fn from_bits_spec(bits: u8) -> Self {
        NativeSurfaceLayerMask(bits & 7)
    }

    /// The mask of the layers whose bits are set in `bits`; unknown bits are dropped.
    pub fn from_bits(bits: u8) -> (mask: Self)
        ensures
            mask == Self::from_bits_spec(bits),
            mask.bits() == bits & 7,
    {
        Self(bits & 7)
    }

    /// Whether the two masks share a layer.
    pub fn contains(self, layer: Self) -> (r: bool)
        ensures
            r == (self.bits() & layer.bits() != 0),
    {
        self.0 & layer.0 != 0
    }

    /// The union of two masks, restricted to the three known layers.
    pub closed spec fn union_spec(self, right: Self) -> Self {
        NativeSurfaceLayerMask((self.0 | right.0) & 7)
    }
}

impl core::ops::BitOr for NativeSurfaceLayerMask {
    type Output = Self;

    fn bitor(self, right: Self) -> (mask: Self) {
        Self::from_bits(self.0 | right.0)
    }
}

impl vstd::std_specs::ops::BitOrSpecImpl for NativeSurfaceLayerMask {
    open spec fn obeys_bitor_spec() -> bool {
        true
    }

    open spec fn bitor_req(self, rhs: Self) -> bool {
        true
    }

    open spec fn bitor_spec(self, rhs: Self) -> Self {
        self.union_spec(rhs)
    }
}

/// A primitive command accepted by native-surface renderers. Coordinates
/// are local logical coordinates of the item.
#[derive(Clone, Debug)]
pub enum NativeSurfaceCommand {
    /// A solid filled rectangle.
    FillRect { x: F32Bits, y: F32Bits, width: F32Bits, height: F32Bits, color: Color },
    /// A text run with an explicit font request and local origin.
    Text {
        /// Stable host-assigned key used to correlate post-shaping geometry
        /// with this exact text command. Zero opts out of layout reporting.
        layout_key: u64,
        x: F32Bits,
        y: F32Bits,
        width: F32Bits,
        height: F32Bits,
        text: String,
        color: Color,
        /// Optional foreground-colour overrides for byte ranges in `text`.
        spans: Vec<NativeSurfaceTextSpan>,
        font: FontRequest,
        horizontal_alignment: TextHorizontalAlignment,
        vertical_alignment: TextVerticalAlignment,
    },
    /// A horizontal or vertical solid line.
    Line { x: F32Bits, y: F32Bits, width: F32Bits, height: F32Bits, color: Color },
}

/// A foreground-colour override within a UTF-8 text command.
#[derive(Clone, Copy, Debug, PartialEq, Eq, Structural)]
pub struct NativeSurfaceTextSpan {
    pub start_byte: usize,
    pub end_byte: usize,
    pub color: Color,
}

/// One shaped text cluster in a native-surface text command, relative to
/// the command's origin.
#[derive(Clone, Copy, Debug, Default)]
pub struct NativeSurfaceLayoutCluster {
    pub start_byte: u32,
    pub end_byte: u32,
    pub x: F32Bits,
    pub width: F32Bits,
}

/// Immutable post-shaping geometry for one text command.
#[derive(Clone, Debug, Default)]
pub struct NativeSurfaceLayoutSnapshot {
    pub layout_key: u64,
    pub baseline: F32Bits,
    pub advance: F32Bits,
    pub clusters: Vec<NativeSurfaceLayoutCluster>,
}

/// Whether the geometry of a shaped text command is reported to the layout
/// callback: a command with layout key zero opts out of reporting.
pub fn native_surface_layout_reported(snapshot: &NativeSurfaceLayoutSnapshot) -> (r: bool)
    ensures
        r == (snapshot.layout_key != 0),
{
    snapshot.layout_key != 0
}

/// One immutable display list consumed by a native-surface item.
#[derive(Clone, Debug)]
pub struct NativeSurfaceFrame {
    /// Monotonically increasing producer generation, for diagnostics.
    pub generation: u64,
    /// Generation of the immutable content commands.
    pub base_generation: u64,
    pub underlay_generation: u64,
    /// Generation of the transient overlay commands.
    pub overlay_generation: u64,
    /// Commands in the local coordinate system of the item.
    pub commands: Rc<Vec<NativeSurfaceCommand>>,
    pub underlay_commands: Rc<Vec<NativeSurfaceCommand>>,
    /// Commands drawn after `commands`: carets, selection and other overlays.
    pub overlay_commands: Rc<Vec<NativeSurfaceCommand>>,
}

impl Default for NativeSurfaceFrame {
    /// Generation zero with three empty layers.
    fn default() -> (f: Self)
        ensures
            f.generation == 0,
            f.base_generation == 0,
            f.underlay_generation == 0,
            f.overlay_generation == 0,
            f.commands@.len() == 0,
            f.underlay_commands@.len() == 0,
            f.overlay_commands@.len() == 0,
    {
        NativeSurfaceFrame {
            generation: 0,
            base_generation: 0,
            underlay_generation: 0,
            overlay_generation: 0,
            commands: Rc::new(Vec::new()),
            underlay_commands: Rc::new(Vec::new()),
            overlay_commands: Rc::new(Vec::new()),
        }
    }
}

impl NativeSurfaceFrame {
    /// A frame whose every generation is `generation`, with `commands` as
    /// the content layer and empty underlay and overlay layers.
    pub fn from_single_layer(generation: u64, commands: Vec<NativeSurfaceCommand>) -> (f: Self)
        ensures
            f.generation == generation,
            f.base_generation == generation,
            f.underlay_generation == generation,
            f.overlay_generation == generation,
            f.commands@ == commands@,
            f.underlay_commands@.len() == 0,
            f.overlay_commands@.len() == 0,
    {
        NativeSurfaceFrame {
            generation,
            base_generation: generation,
            underlay_generation: generation,
            overlay_generation: generation,
            commands: Rc::new(commands),
            underlay_commands: Rc::new(Vec::new()),
            overlay_commands: Rc::new(Vec::new()),
        }
    }

    /// A frame made of three given layers and their generations.
    pub fn from_layers(
        generation: u64,
        base_generation: u64,
        underlay_generation: u64,
        overlay_generation: u64,
        base: Vec<NativeSurfaceCommand>,
        underlay: Vec<NativeSurfaceCommand>,
        overlay: Vec<NativeSurfaceCommand>,
    ) -> (f: Self)
        ensures
            f.generation == generation,
            f.base_generation == base_generation,
            f.underlay_generation == underlay_generation,
            f.overlay_generation == overlay_generation,
            f.commands@ == base@,
            f.underlay_commands@ == underlay@,
            f.overlay_commands@ == overlay@,
    {
        NativeSurfaceFrame {
            generation,
            base_generation,
            underlay_generation,
            overlay_generation,
            commands: Rc::new(base),
            underlay_commands: Rc::new(underlay),
            overlay_commands: Rc::new(overlay),
        }
    }
}

/// What one layer holds after a delta. An included layer takes the
/// requested generation and list, an included layer without a list becomes
/// empty; an omitted layer keeps the previous frame's generation and the
/// very same list, or generation zero and an empty list where there was no
/// previous frame.
pub open spec fn delta_layer(
    included: bool,
    requested_generation: u64,
    requested: Option<Rc<Vec<NativeSurfaceCommand>>>,
    previous: Option<(u64, Rc<Vec<NativeSurfaceCommand>>)>,
    generation: u64,
    commands: Rc<Vec<NativeSurfaceCommand>>,
) -> bool {
    if included {
        &&& generation == requested_generation
        &&& match requested {
            Some(list) => commands == list,
            None => commands@.len() == 0,
        }
    } else {
        match previous {
            Some((g, list)) => generation == g && commands == list,
            None => generation == 0 && commands@.len() == 0,
        }
    }
}

/// The base layer of a frame, as a generation and its list.
pub open spec fn base_layer_of(frame: Option<NativeSurfaceFrame>) -> Option<(u64, Rc<Vec<NativeSurfaceCommand>>)> {
    match frame {
        Some(f) => Some((f.base_generation, f.commands)),
        None => None,
    }
}

/// The underlay layer of a frame, as a generation and its list.
pub open spec fn underlay_layer_of(frame: Option<NativeSurfaceFrame>) -> Option<(u64, Rc<Vec<NativeSurfaceCommand>>)> {
    match frame {
        Some(f) => Some((f.underlay_generation, f.underlay_commands)),
        None => None,
    }
}

/// The overlay layer of a frame, as a generation and its list.
pub open spec fn overlay_layer_of(frame: Option<NativeSurfaceFrame>) -> Option<(u64, Rc<Vec<NativeSurfaceCommand>>)> {
    match frame {
        Some(f) => Some((f.overlay_generation, f.overlay_commands)),
        None => None,
    }
}

/// `frame` is what a delta with these arguments makes of `previous`.
pub open spec fn is_delta_of(
    frame: NativeSurfaceFrame,
    previous: Option<NativeSurfaceFrame>,
    generation: u64,
    base_generation: u64,
    underlay_generation: u64,
    overlay_generation: u64,
    changed: NativeSurfaceLayerMask,
    base: Option<Rc<Vec<NativeSurfaceCommand>>>,
    underlay: Option<Rc<Vec<NativeSurfaceCommand>>>,
    overlay: Option<Rc<Vec<NativeSurfaceCommand>>>,
) -> bool {
    &&& frame.generation == generation
    &&& delta_layer(changed.has(1), base_generation, base, base_layer_of(previous),
        frame.base_generation, frame.commands)
    &&& delta_layer(changed.has(2), underlay_generation, underlay, underlay_layer_of(previous),
        frame.underlay_generation, frame.underlay_commands)
    &&& delta_layer(changed.has(4), overlay_generation, overlay, overlay_layer_of(previous),
        frame.overlay_generation, frame.overlay_commands)
}

/// The frames of all active native surfaces, by surface id.
pub struct NativeSurfaceRegistry {
    surfaces: BTreeMap<i32, Rc<NativeSurfaceFrame>>,
}

impl View for NativeSurfaceRegistry {
    type V = Map<i32, NativeSurfaceFrame>;

    closed spec fn view(&self) -> Map<i32, NativeSurfaceFrame> {
        self.surfaces@.map_values(|f: Rc<NativeSurfaceFrame>| *f)
    }
}

impl NativeSurfaceRegistry {
    /// A registry in which no surface has a frame.
    pub fn new() -> (r: Self)
        ensures
            r@ == Map::<i32, NativeSurfaceFrame>::empty(),
    {
        let r = NativeSurfaceRegistry { surfaces: BTreeMap::new() };
        assert(r@ =~= Map::<i32, NativeSurfaceFrame>::empty());
        r
    }
}

/// The frame of `surface_id` in `registry`, where it has one.
pub open spec fn frame_of(registry: Map<i32, NativeSurfaceFrame>, surface_id: i32) -> Option<NativeSurfaceFrame> {
    if registry.contains_key(surface_id) {
        Some(registry[surface_id])
    } else {
        None
    }
}

/// Replaces the immutable frame associated with `surface_id`.
pub fn publish_native_surface_frame(
    registry: &mut NativeSurfaceRegistry,
    surface_id: i32,
    frame: NativeSurfaceFrame,
)
    ensures
        final(registry)@ == old(registry)@.insert(surface_id, frame),
{
    registry.surfaces.insert(surface_id, Rc::new(frame));
    assert(registry@ =~= old(registry)@.insert(surface_id, frame));
}

/// Replaces only the layers selected by `changed`, retaining the very same
/// immutable lists for all omitted layers.
pub fn publish_native_surface_frame_delta(
    registry: &mut NativeSurfaceRegistry,
    surface_id: i32,
    generation: u64,
    base_generation: u64,
    underlay_generation: u64,
    overlay_generation: u64,
    changed: NativeSurfaceLayerMask,
    base: Option<Rc<Vec<NativeSurfaceCommand>>>,
    underlay: Option<Rc<Vec<NativeSurfaceCommand>>>,
    overlay: Option<Rc<Vec<NativeSurfaceCommand>>>,
)
    ensures
        final(registry)@.contains_key(surface_id),
        final(registry)@.remove(surface_id) == old(registry)@.remove(surface_id),
        is_delta_of(final(registry)@[surface_id], frame_of(old(registry)@, surface_id),
            generation, base_generation, underlay_generation, overlay_generation, changed, base,
            underlay, overlay),
{
    let ghost previous = frame_of(registry@, surface_id);
    let frame = {
        let prev = registry.surfaces.get(&surface_id);
        let include_base = changed.contains(NativeSurfaceLayerMask::BASE());
        let include_underlay = changed.contains(NativeSurfaceLayerMask::UNDERLAY());
        let include_overlay = changed.contains(NativeSurfaceLayerMask::OVERLAY());
        let (kept_base_generation, kept_base, kept_underlay_generation, kept_underlay,
            kept_overlay_generation, kept_overlay) = match prev {
            Some(p) => (p.base_generation, share_rc(&p.commands), p.underlay_generation,
                share_rc(&p.underlay_commands), p.overlay_generation, share_rc(&p.overlay_commands)),
            None => (0, Rc::new(Vec::new()), 0, Rc::new(Vec::new()), 0, Rc::new(Vec::new())),
        };
        NativeSurfaceFrame {
            generation,
            base_generation: if include_base { base_generation } else { kept_base_generation },
            underlay_generation: if include_underlay {
                underlay_generation
            } else {
                kept_underlay_generation
            },
            overlay_generation: if include_overlay {
                overlay_generation
            } else {
                kept_overlay_generation
            },
            commands: if include_base {
                match base {
                    Some(list) => list,
                    None => Rc::new(Vec::new()),
                }
            } else {
                kept_base
            },
            underlay_commands: if include_underlay {
                match underlay {
                    Some(list) => list,
                    None => Rc::new(Vec::new()),
                }
            } else {
                kept_underlay
            },
            overlay_commands: if include_overlay {
                match overlay {
                    Some(list) => list,
                    None => Rc::new(Vec::new()),
                }
            } else {
                kept_overlay
            },
        }
    };
    assert(is_delta_of(frame, previous, generation, base_generation, underlay_generation,
        overlay_generation, changed, base, underlay, overlay));
    registry.surfaces.insert(surface_id, Rc::new(frame));
    assert(registry@ =~= old(registry)@.insert(surface_id, frame));
    assert(registry@.remove(surface_id) =~= old(registry)@.remove(surface_id));
}

/// Removes the frame of an inactive surface.
pub fn clear_native_surface_frame(registry: &mut NativeSurfaceRegistry, surface_id: i32)
    ensures
        final(registry)@ == old(registry)@.remove(surface_id),
{
    registry.surfaces.remove(&surface_id);
    assert(registry@ =~= old(registry)@.remove(surface_id));
}

/// The current immutable frame of `surface_id`, if it has one.
pub fn native_surface_frame(registry: &NativeSurfaceRegistry, surface_id: i32) -> (r: Option<
    Rc<NativeSurfaceFrame>,
>)
    ensures
        match r {
            Some(f) => frame_of(registry@, surface_id) == Some(*f),
            None => frame_of(registry@, surface_id).is_none(),
        },
{
    match registry.surfaces.get(&surface_id) {
        Some(f) => Some(share_rc(f)),
        None => None,
    }
}

/// Lightweight rectangle adapter used by renderer implementations.
pub struct NativeSurfaceRectangle(pub Color);

impl NativeSurfaceRectangle {
    /// The rectangle is filled with a solid brush of its colour.
    pub fn background(&self) -> (c: Color)
        ensures
            c == self.0,
    {
        self.0
    }
}

/// The colour override that a span hands the renderer: its byte range and
/// its colour as `0xAARRGGBB`.
pub open spec fn colored_range_of(span: NativeSurfaceTextSpan) -> ColoredRange {
    ColoredRange {
        start: span.start_byte,
        end: span.end_byte,
        argb: crate::graphics::argb_encoding(span.color.alpha, span.color.red, span.color.green,
            span.color.blue),
    }
}

/// Lightweight text adapter used by renderer implementations.
pub struct NativeSurfaceTextRun {
    pub text: String,
    pub color: Color,
    pub spans: Vec<NativeSurfaceTextSpan>,
    pub font: FontRequest,
    pub horizontal_alignment: TextHorizontalAlignment,
    pub vertical_alignment: TextVerticalAlignment,
}

impl NativeSurfaceTextRun {
    /// The font the run asks for.
    pub fn font_request(&self) -> (f: FontRequest)
        ensures
            f == self.font,
    {
        self.font.duplicate()
    }

    /// The text of the run: plain where it has no span, otherwise styled
    /// with one colour override per span, in the order of the spans.
    pub fn text(&self) -> (r: PlainOrStyledText)
        ensures
            self.spans@.len() == 0 ==> (r matches PlainOrStyledText::Plain(t) && t@ == self.text@),
            self.spans@.len() != 0 ==> (r matches PlainOrStyledText::Styled(st) && st.text@
                == self.text@ && st.colored_ranges@ == self.spans@.map_values(
                |span: NativeSurfaceTextSpan| colored_range_of(span),
            )),
    {
        if self.spans.len() == 0 {
            PlainOrStyledText::Plain(self.text.clone())
        } else {
            let mut ranges: Vec<ColoredRange> = Vec::new();
            let n = self.spans.len();
            for i in 0..n
                invariant
                    n == self.spans@.len(),
                    ranges@ == self.spans@.subrange(0, i as int).map_values(
                        |span: NativeSurfaceTextSpan| colored_range_of(span),
                    ),
            {
                let span = self.spans[i];
                ranges.push(
                    ColoredRange {
                        start: span.start_byte,
                        end: span.end_byte,
                        argb: span.color.as_argb_encoded(),
                    },
                );
                assert(self.spans@.subrange(0, i + 1) =~= self.spans@.subrange(0, i as int).push(
                    span,
                ));
            }
            assert(self.spans@.subrange(0, n as int) =~= self.spans@);
            PlainOrStyledText::Styled(StyledText { text: self.text.clone(), colored_ranges: ranges })
        }
    }

    /// The run is painted with a solid brush of its colour.
    pub fn color(&self) -> (c: Color)
        ensures
            c == self.color,
    {
        self.color
    }

    /// Text runs carry no links; the link colour is transparent black.
    pub fn link_color(&self) -> (c: Color)
        ensures
            c == (Color { red: 0, green: 0, blue: 0, alpha: 0 }),
    {
        Color::default()
    }

    /// The alignment that the run was created with.
    pub fn alignment(&self) -> (a: (TextHorizontalAlignment, TextVerticalAlignment))
        ensures
            a == (self.horizontal_alignment, self.vertical_alignment),
    {
        (self.horizontal_alignment, self.vertical_alignment)
    }

    /// Runs are never wrapped.
    pub fn wrap(&self) -> (w: TextWrap)
        ensures
            w == TextWrap::NoWrap,
    {
        TextWrap::NoWrap
    }

    /// Runs are clipped to their box.
    pub fn overflow(&self) -> (o: TextOverflow)
        ensures
            o == TextOverflow::Clip,
    {
        TextOverflow::Clip
    }

    /// Run text is never interpreted as markdown.
    pub fn is_markdown(&self) -> (r: bool)
        ensures
            !r,
    {
        false
    }
}

/// Masks only ever hold the three layer bits.
pub open spec fn valid_mask(m: NativeSurfaceLayerMask) -> bool {
    m.bits() & 0xf8 == 0
}

/// Every mask that `from_bits` builds is valid, and reading its bits back
/// through `from_bits` gives the same mask.
pub proof fn lemma_from_bits_idempotent(bits: u8)
    ensures
        valid_mask(NativeSurfaceLayerMask::from_bits_spec(bits)),
        NativeSurfaceLayerMask::from_bits_spec(NativeSurfaceLayerMask::from_bits_spec(bits).bits())
            == NativeSurfaceLayerMask::from_bits_spec(bits),
{
    assert((bits & 7) & 7 == bits & 7) by (bit_vector);
    assert((bits & 7) & 0xf8 == 0) by (bit_vector);
}

/// The union of masks is commutative, associative and idempotent, and a
/// layer is in a union exactly when it is in one of its two masks.
pub proof fn lemma_union_laws(a: NativeSurfaceLayerMask, b: NativeSurfaceLayerMask, c: NativeSurfaceLayerMask, layer_bit: u8)
    requires
        valid_mask(a),
        valid_mask(b),
        valid_mask(c),
        layer_bit == 1 || layer_bit == 2 || layer_bit == 4,
    ensures
        a.union_spec(b) == b.union_spec(a),
        a.union_spec(b).union_spec(c) == a.union_spec(b.union_spec(c)),
        a.union_spec(a) == a,
        valid_mask(a.union_spec(b)),
        a.union_spec(b).has(layer_bit) == (a.has(layer_bit) || b.has(layer_bit)),
{
    let x = a.bits();
    let y = b.bits();
    let z = c.bits();
    assert((x | y) & 7 == (y | x) & 7) by (bit_vector);
    assert((((x | y) & 7) | z) & 7 == (x | ((y | z) & 7)) & 7) by (bit_vector);
    assert(x & 0xf8 == 0 ==> (x | x) & 7 == x) by (bit_vector);
    assert(((x | y) & 7) & 0xf8 == 0) by (bit_vector);
    assert((layer_bit == 1 || layer_bit == 2 || layer_bit == 4) ==> ((((x | y) & 7) & layer_bit
        != 0) == ((x & layer_bit != 0) || (y & layer_bit != 0)))) by (bit_vector);
}

/// The union of two masks holds the bits of both, restricted to the three
/// layers, and adding the empty mask to a mask changes nothing.
pub proof fn lemma_union_bits(a: NativeSurfaceLayerMask, b: NativeSurfaceLayerMask)
    ensures
        a.union_spec(b).bits() == (a.bits() | b.bits()) & 7,
        valid_mask(a) ==> a.union_spec(NativeSurfaceLayerMask::from_bits_spec(0)) == a,
{
    let x = a.bits();
    assert(x & 0xf8 == 0 ==> (x | (0u8 & 7)) & 7 == x) by (bit_vector);
}

/// Each named layer selects exactly its own layer.
pub proof fn lemma_named_layers()
    ensures
        valid_mask(NativeSurfaceLayerMask::from_bits_spec(1)),
        valid_mask(NativeSurfaceLayerMask::from_bits_spec(2)),
        valid_mask(NativeSurfaceLayerMask::from_bits_spec(4)),
        NativeSurfaceLayerMask::from_bits_spec(1).has(1),
        !NativeSurfaceLayerMask::from_bits_spec(1).has(2),
        !NativeSurfaceLayerMask::from_bits_spec(1).has(4),
        !NativeSurfaceLayerMask::from_bits_spec(2).has(1),
        NativeSurfaceLayerMask::from_bits_spec(2).has(2),
        !NativeSurfaceLayerMask::from_bits_spec(2).has(4),
        !NativeSurfaceLayerMask::from_bits_spec(4).has(1),
        !NativeSurfaceLayerMask::from_bits_spec(4).has(2),
        NativeSurfaceLayerMask::from_bits_spec(4).has(4),
{
    assert((1u8 & 7) & 0xf8 == 0 && (2u8 & 7) & 0xf8 == 0 && (4u8 & 7) & 0xf8 == 0) by (bit_vector);
    assert((1u8 & 7) & 1 != 0 && (1u8 & 7) & 2 == 0 && (1u8 & 7) & 4 == 0) by (bit_vector);
    assert((2u8 & 7) & 1 == 0 && (2u8 & 7) & 2 != 0 && (2u8 & 7) & 4 == 0) by (bit_vector);
    assert((4u8 & 7) & 1 == 0 && (4u8 & 7) & 2 == 0 && (4u8 & 7) & 4 != 0) by (bit_vector);
}

/// The three layers together make up `ALL`, and each layer is in `ALL`.
pub proof fn lemma_layers_make_all()
    ensures
        NativeSurfaceLayerMask::from_bits_spec(1).union_spec(
            NativeSurfaceLayerMask::from_bits_spec(2),
        ).union_spec(NativeSurfaceLayerMask::from_bits_spec(4))
            == NativeSurfaceLayerMask::from_bits_spec(7),
        NativeSurfaceLayerMask::from_bits_spec(7).has(1),
        NativeSurfaceLayerMask::from_bits_spec(7).has(2),
        NativeSurfaceLayerMask::from_bits_spec(7).has(4),
{
    assert((((1u8 & 7) | (2u8 & 7)) & 7 | (4u8 & 7)) & 7 == 7u8 & 7) by (bit_vector);
    assert((7u8 & 7) & 1 != 0 && (7u8 & 7) & 2 != 0 && (7u8 & 7) & 4 != 0) by (bit_vector);
}

/// Reading a surface right after publishing a frame for it gives that
/// frame; publishing for one surface leaves every other surface's frame as
/// it was.
pub proof fn lemma_publish_then_read(registry: Map<i32, NativeSurfaceFrame>, surface_id: i32, frame: NativeSurfaceFrame, other: i32)
    requires
        other != surface_id,
    ensures
        frame_of(registry.insert(surface_id, frame), surface_id) == Some(frame),
        frame_of(registry.insert(surface_id, frame), other) == frame_of(registry, other),
{
}

/// After clearing a surface it has no frame, and every other surface keeps
/// its frame.
pub proof fn lemma_clear_then_read(registry: Map<i32, NativeSurfaceFrame>, surface_id: i32, other: i32)
    requires
        other != surface_id,
    ensures
        frame_of(registry.remove(surface_id), surface_id).is_none(),
        frame_of(registry.remove(surface_id), other) == frame_of(registry, other),
{
}

/// A delta that includes every layer with a list is a full replacement: the
/// frame it makes does not depend on the previous frame.
pub proof fn lemma_full_delta_replaces(
    frame: NativeSurfaceFrame,
    previous: Option<NativeSurfaceFrame>,
    generation: u64,
    base_generation: u64,
    underlay_generation: u64,
    overlay_generation: u64,
    changed: NativeSurfaceLayerMask,
    base: Rc<Vec<NativeSurfaceCommand>>,
    underlay: Rc<Vec<NativeSurfaceCommand>>,
    overlay: Rc<Vec<NativeSurfaceCommand>>,
)
    requires
        changed.has(1) && changed.has(2) && changed.has(4),
        is_delta_of(frame, previous, generation, base_generation, underlay_generation,
            overlay_generation, changed, Some(base), Some(underlay), Some(overlay)),
    ensures
        frame == (NativeSurfaceFrame {
            generation,
            base_generation,
            underlay_generation,
            overlay_generation,
            commands: base,
            underlay_commands: underlay,
            overlay_commands: overlay,
        }),
{
}

/// A delta that includes no layer keeps every layer of the previous frame,
/// lists and generations alike, and only moves the frame generation.
pub proof fn lemma_empty_delta_retains(
    frame: NativeSurfaceFrame,
    previous: NativeSurfaceFrame,
    generation: u64,
    base_generation: u64,
    underlay_generation: u64,
    overlay_generation: u64,
    changed: NativeSurfaceLayerMask,
    base: Option<Rc<Vec<NativeSurfaceCommand>>>,
    underlay: Option<Rc<Vec<NativeSurfaceCommand>>>,
    overlay: Option<Rc<Vec<NativeSurfaceCommand>>>,
)
    requires
        !changed.has(1) && !changed.has(2) && !changed.has(4),
        is_delta_of(frame, Some(previous), generation, base_generation, underlay_generation,
            overlay_generation, changed, base, underlay, overlay),
    ensures
        frame == (NativeSurfaceFrame { generation, ..previous }),
{
}

/// Publishing the same delta twice in a row gives the same frame as
/// publishing it once, up to the identity of the lists that an included
/// layer without a list empties.
pub proof fn lemma_delta_repeat_stable(
    first: NativeSurfaceFrame,
    second: NativeSurfaceFrame,
    previous: Option<NativeSurfaceFrame>,
    generation: u64,
    base_generation: u64,
    underlay_generation: u64,
    overlay_generation: u64,
    changed: NativeSurfaceLayerMask,
    base: Option<Rc<Vec<NativeSurfaceCommand>>>,
    underlay: Option<Rc<Vec<NativeSurfaceCommand>>>,
    overlay: Option<Rc<Vec<NativeSurfaceCommand>>>,
)
    requires
        is_delta_of(first, previous, generation, base_generation, underlay_generation,
            overlay_generation, changed, base, underlay, overlay),
        is_delta_of(second, Some(first), generation, base_generation, underlay_generation,
            overlay_generation, changed, base, underlay, overlay),
    ensures
        second.generation == first.generation,
        second.base_generation == first.base_generation,
        second.underlay_generation == first.underlay_generation,
        second.overlay_generation == first.overlay_generation,
        second.commands@ == first.commands@,
        second.underlay_commands@ == first.underlay_commands@,
        second.overlay_commands@ == first.overlay_commands@,
{
}

} // verus!
