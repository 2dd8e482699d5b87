//! A picture of one frame, kept in memory: for each pixel a colour index, decided by the
//! highest layer drawn there.
use vstd::prelude::*;
use crate::nes_palette::COLOUR_MASK;
use crate::nes_specs::{SCREEN_HEIGHT_PX, SCREEN_TOTAL_PX, SCREEN_WIDTH_PX};
use crate::render_output::{spec_render, Layer, PixelWrite, RenderOutput};

pub mod depth;

verus! {

/// The depth of a layer: a pixel keeps the colour of the deepest layer drawn on it.
pub open spec fn spec_layer_depth(layer: Layer) -> u8 {
    match layer {
        Layer::UniversalBackground => depth::UNIVERSAL_BACKGROUND,
        Layer::SpriteBack => depth::SPRITE_BACK,
        Layer::Background => depth::BACKGROUND,
        Layer::SpriteFront => depth::SPRITE_FRONT,
    }
}

/// The colour index and the depth of each pixel, row by row.
#[derive(Clone, PartialEq, Eq)]
pub struct Frame {
    indices: [u8; 61440],
    depths: [u8; 61440],
}

pub struct FrameView {
    pub indices: Seq<u8>,
    pub depths: Seq<u8>,
}

impl View for Frame {
    type V = FrameView;

    closed spec fn view(&self) -> FrameView {
        FrameView { indices: self.indices@, depths: self.depths@ }
    }
}

/// A blank frame: colour 0 everywhere, nothing drawn.
pub open spec fn spec_blank_frame() -> FrameView {
    FrameView {
        indices: Seq::new(SCREEN_TOTAL_PX as nat, |_i: int| 0u8),
        depths: Seq::new(SCREEN_TOTAL_PX as nat, |_i: int| depth::EMPTY),
    }
}

impl Frame {
    pub fn new() -> (r: Self)
        ensures
            r@ == spec_blank_frame(),
    {
        let r = Self { indices: [0; 61440], depths: [depth::EMPTY; 61440] };
        assert(r@.indices =~= spec_blank_frame().indices);
        assert(r@.depths =~= spec_blank_frame().depths);
        r
    }

    pub fn clear(&mut self)
        ensures
            final(self)@ == spec_blank_frame(),
    {
        *self = Self::new();
    }

    pub fn indices(&self) -> (r: &[u8])
        ensures
            r@ == self@.indices,
    {
        self.indices.as_slice()
    }

    /// The layer each pixel was last drawn on, as its depth: what a hash of the frame covers
    /// besides the colour indices.
    pub fn depths(&self) -> (r: &[u8])
        ensures
            r@ == self@.depths,
    {
        self.depths.as_slice()
    }

    fn set_pixel_colour(&mut self, x: u16, y: u16, colour_index: u8, depth: u8)
        requires
            x < SCREEN_WIDTH_PX,
            y < SCREEN_HEIGHT_PX,
        ensures
            ({
                let offset = y * SCREEN_WIDTH_PX + x;
                if depth > old(self)@.depths[offset] {
                    final(self)@ == FrameView {
                        indices: old(self)@.indices.update(offset, colour_index & COLOUR_MASK),
                        depths: old(self)@.depths.update(offset, depth),
                    }
                } else {
                    final(self)@ == old(self)@
                }
            }),
    {
        let offset = (y * SCREEN_WIDTH_PX + x) as usize;
        if depth > self.depths[offset] {
            self.depths[offset] = depth;
            self.indices[offset] = colour_index & COLOUR_MASK;
        }
    }
}

impl RenderOutput for Frame {
    open spec fn spec_set_pixel(state: FrameView, write: PixelWrite) -> FrameView {
        let offset = write.y * SCREEN_WIDTH_PX + write.x;
        let depth = spec_layer_depth(write.layer);
        if depth > state.depths[offset] {
            FrameView {
                indices: state.indices.update(offset, write.colour_index & COLOUR_MASK),
                depths: state.depths.update(offset, depth),
            }
        } else {
            state
        }
    }

    fn set_pixel_colour_sprite_back(&mut self, x: u16, y: u16, colour_index: u8) {
        self.set_pixel_colour(x, y, colour_index, depth::SPRITE_BACK);
    }

    fn set_pixel_colour_sprite_front(&mut self, x: u16, y: u16, colour_index: u8) {
        self.set_pixel_colour(x, y, colour_index, depth::SPRITE_FRONT);
    }

    fn set_pixel_colour_background(&mut self, x: u16, y: u16, colour_index: u8) {
        self.set_pixel_colour(x, y, colour_index, depth::BACKGROUND);
    }

    fn set_pixel_colour_universal_background(&mut self, x: u16, y: u16, colour_index: u8) {
        self.set_pixel_colour(x, y, colour_index, depth::UNIVERSAL_BACKGROUND);
    }
}

/// A pixel drawn on a higher layer keeps its colour when a lower layer is drawn there later.
pub proof fn lemma_higher_layer_kept(state: FrameView, high: PixelWrite, low: PixelWrite)
    requires
        state.indices.len() == SCREEN_TOTAL_PX,
        state.depths.len() == SCREEN_TOTAL_PX,
        high.x < SCREEN_WIDTH_PX,
        high.y < SCREEN_HEIGHT_PX,
        low.x == high.x,
        low.y == high.y,
        spec_layer_depth(low.layer) < spec_layer_depth(high.layer),
    ensures
        ({
            let after = Frame::spec_set_pixel(Frame::spec_set_pixel(state, high), low);
            after.indices[high.y * SCREEN_WIDTH_PX + high.x] == (if spec_layer_depth(high.layer) > state.depths[high.y * SCREEN_WIDTH_PX + high.x] {
                high.colour_index & COLOUR_MASK
            } else {
                state.indices[high.y * SCREEN_WIDTH_PX + high.x]
            })
        }),
{
}

/// The write that shows at a pixel after `writes`: the first of the writes on the deepest
/// layer among them.
pub open spec fn spec_showing_write(writes: Seq<PixelWrite>) -> Option<PixelWrite>
    decreases writes.len(),
{
    if writes.len() == 0 {
        None
    } else {
        let last = writes.last();
        match spec_showing_write(writes.drop_last()) {
            None => Some(last),
            Some(p) => if spec_layer_depth(last.layer) > spec_layer_depth(p.layer) {
                Some(last)
            } else {
                Some(p)
            },
        }
    }
}

/// On a blank frame, after any writes to one pixel, the pixel shows the colour of the first
/// write on the deepest layer among them (colour 0 when there are none), whatever order the
/// layers came in.
pub proof fn lemma_deepest_first_write_shows(writes: Seq<PixelWrite>, x: u16, y: u16)
    requires
        x < SCREEN_WIDTH_PX,
        y < SCREEN_HEIGHT_PX,
        forall|i: int| 0 <= i < writes.len() ==> #[trigger] writes[i].x == x && writes[i].y == y,
    ensures
        ({
            let after = spec_render::<Frame>(spec_blank_frame(), writes);
            let offset = y * SCREEN_WIDTH_PX + x;
            &&& after.indices.len() == SCREEN_TOTAL_PX
            &&& after.depths.len() == SCREEN_TOTAL_PX
            &&& match spec_showing_write(writes) {
                Some(p) => after.indices[offset] == p.colour_index & COLOUR_MASK
                    && after.depths[offset] == spec_layer_depth(p.layer),
                None => after.indices[offset] == 0 && after.depths[offset] == depth::EMPTY,
            }
        }),
    decreases writes.len(),
{
    if writes.len() > 0 {
        let init = writes.drop_last();
        assert forall|i: int| 0 <= i < init.len() implies #[trigger] init[i].x == x && init[i].y == y by {
            assert(init[i] == writes[i]);
        }
        lemma_deepest_first_write_shows(init, x, y);
        assert(writes.last() == writes[writes.len() - 1]);
    }
}

/// Two writes to one pixel on different layers commute: in either order the pixel shows the
/// colour of the deeper one.
pub proof fn lemma_writes_on_different_layers_commute(a: PixelWrite, b: PixelWrite)
    requires
        a.x == b.x,
        a.y == b.y,
        a.x < SCREEN_WIDTH_PX,
        a.y < SCREEN_HEIGHT_PX,
        spec_layer_depth(a.layer) != spec_layer_depth(b.layer),
    ensures
        ({
            let offset = a.y * SCREEN_WIDTH_PX + a.x;
            let ab = spec_render::<Frame>(spec_blank_frame(), seq![a, b]);
            let ba = spec_render::<Frame>(spec_blank_frame(), seq![b, a]);
            let deeper = if spec_layer_depth(a.layer) > spec_layer_depth(b.layer) { a } else { b };
            &&& ab.indices[offset] == ba.indices[offset]
            &&& ab.indices[offset] == deeper.colour_index & COLOUR_MASK
        }),
{
    let ab = seq![a, b];
    let ba = seq![b, a];
    assert(ab.drop_last() =~= seq![a]);
    assert(ba.drop_last() =~= seq![b]);
    assert(seq![a].drop_last() =~= Seq::<PixelWrite>::empty());
    assert(seq![b].drop_last() =~= Seq::<PixelWrite>::empty());
    assert(spec_showing_write(Seq::<PixelWrite>::empty()) is None);
    assert(spec_showing_write(seq![a]) == Some(a));
    assert(spec_showing_write(seq![b]) == Some(b));
    assert(ab.last() == b && ba.last() == a);
    let deeper = if spec_layer_depth(a.layer) > spec_layer_depth(b.layer) { a } else { b };
    assert(spec_showing_write(ab) == Some(deeper));
    assert(spec_showing_write(ba) == Some(deeper));
    assert(ab[0] == a && ab[1] == b && ba[0] == b && ba[1] == a);
    lemma_deepest_first_write_shows(ab, a.x, a.y);
    lemma_deepest_first_write_shows(ba, a.x, a.y);
}

} // verus!
