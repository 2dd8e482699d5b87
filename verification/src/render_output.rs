use vstd::prelude::*;
use crate::nes_specs::{SCREEN_HEIGHT_PX, SCREEN_WIDTH_PX};

verus! {

/// The layer a pixel is drawn on. A renderer that composes layers shows, at each pixel,
/// the colour drawn on the highest layer.
#[derive(Clone, Copy, Debug, PartialEq, Eq, Structural)]
pub enum Layer {
    UniversalBackground,
    SpriteBack,
    Background,
    SpriteFront,
}

/// One pixel handed to a renderer.
#[derive(Clone, Copy, Debug, PartialEq, Eq, Structural)]
pub struct PixelWrite {
    pub layer: Layer,
    pub x: u16,
    pub y: u16,
    pub colour_index: u8,
}

/// Where the PPU sends the pixels it draws. Each call hands over one on-screen pixel; what
/// the renderer does with it is described by `spec_set_pixel` over its view.
pub trait RenderOutput: View + Sized {
    /// The renderer's state after it is handed `write`.
    spec fn spec_set_pixel(state: Self::V, write: PixelWrite) -> Self::V;

    fn set_pixel_colour_sprite_back(&mut self, x: u16, y: u16, colour_index: u8)
        requires
            x < SCREEN_WIDTH_PX,
            y < SCREEN_HEIGHT_PX,
        ensures
            final(self)@ == Self::spec_set_pixel(
                old(self)@,
                (PixelWrite { layer: Layer::SpriteBack, x: x, y: y, colour_index: colour_index }),
            ),
    ;

    fn set_pixel_colour_sprite_front(&mut self, x: u16, y: u16, colour_index: u8)
        requires
            x < SCREEN_WIDTH_PX,
            y < SCREEN_HEIGHT_PX,
        ensures
            final(self)@ == Self::spec_set_pixel(
                old(self)@,
                (PixelWrite { layer: Layer::SpriteFront, x: x, y: y, colour_index: colour_index }),
            ),
    ;

    fn set_pixel_colour_background(&mut self, x: u16, y: u16, colour_index: u8)
        requires
            x < SCREEN_WIDTH_PX,
            y < SCREEN_HEIGHT_PX,
        ensures
            final(self)@ == Self::spec_set_pixel(
                old(self)@,
                (PixelWrite { layer: Layer::Background, x: x, y: y, colour_index: colour_index }),
            ),
    ;

    fn set_pixel_colour_universal_background(&mut self, x: u16, y: u16, colour_index: u8)
        requires
            x < SCREEN_WIDTH_PX,
            y < SCREEN_HEIGHT_PX,
        ensures
            final(self)@ == Self::spec_set_pixel(
                old(self)@,
                (PixelWrite { layer: Layer::UniversalBackground, x: x, y: y, colour_index: colour_index }),
            ),
    ;
}

/// Whether a pixel write lands on the screen.
pub open spec fn spec_on_screen(write: PixelWrite) -> bool {
    write.x < SCREEN_WIDTH_PX && write.y < SCREEN_HEIGHT_PX
}

/// The renderer's state after it is handed `writes`, first to last.
pub open spec fn spec_render<O: RenderOutput>(state: O::V, writes: Seq<PixelWrite>) -> O::V
    decreases writes.len(),
{
    if writes.len() == 0 {
        state
    } else {
        O::spec_set_pixel(spec_render::<O>(state, writes.drop_last()), writes.last())
    }
}

/// Handing over two runs of writes one after the other is handing over their concatenation.
pub proof fn lemma_render_append<O: RenderOutput>(state: O::V, a: Seq<PixelWrite>, b: Seq<PixelWrite>)
    ensures
        spec_render::<O>(state, a + b) == spec_render::<O>(spec_render::<O>(state, a), b),
    decreases b.len(),
{
    if b.len() == 0 {
        assert(a + b =~= a);
    } else {
        lemma_render_append::<O>(state, a, b.drop_last());
        assert((a + b).drop_last() =~= a + b.drop_last());
        assert((a + b).last() == b.last());
    }
}

/// The concatenation of `f(0)`, `f(1)`, ..., `f(n - 1)`.
pub open spec fn spec_concat(n: nat, f: spec_fn(int) -> Seq<PixelWrite>) -> Seq<PixelWrite>
    decreases n,
{
    if n == 0 {
        Seq::empty()
    } else {
        spec_concat((n - 1) as nat, f) + f(n - 1)
    }
}

/// A renderer that hands every pixel to two renderers.
pub struct RenderOutputPair<A, B> {
    pub a: A,
    pub b: B,
}

impl<A, B> RenderOutputPair<A, B> {
    pub fn new(a: A, b: B) -> (r: Self)
        ensures
            r.a == a,
            r.b == b,
    {
        Self { a, b }
    }
}

impl<A: RenderOutput, B: RenderOutput> View for RenderOutputPair<A, B> {
    type V = (A::V, B::V);

    open spec fn view(&self) -> (A::V, B::V) {
        (self.a@, self.b@)
    }
}

impl<A: RenderOutput, B: RenderOutput> RenderOutput for RenderOutputPair<A, B> {
    open spec fn spec_set_pixel(state: (A::V, B::V), write: PixelWrite) -> (A::V, B::V) {
        (A::spec_set_pixel(state.0, write), B::spec_set_pixel(state.1, write))
    }

    fn set_pixel_colour_sprite_back(&mut self, x: u16, y: u16, colour_index: u8) {
        self.a.set_pixel_colour_sprite_back(x, y, colour_index);
        self.b.set_pixel_colour_sprite_back(x, y, colour_index);
    }

    fn set_pixel_colour_sprite_front(&mut self, x: u16, y: u16, colour_index: u8) {
        self.a.set_pixel_colour_sprite_front(x, y, colour_index);
        self.b.set_pixel_colour_sprite_front(x, y, colour_index);
    }

    fn set_pixel_colour_background(&mut self, x: u16, y: u16, colour_index: u8) {
        self.a.set_pixel_colour_background(x, y, colour_index);
        self.b.set_pixel_colour_background(x, y, colour_index);
    }

    fn set_pixel_colour_universal_background(&mut self, x: u16, y: u16, colour_index: u8) {
        self.a.set_pixel_colour_universal_background(x, y, colour_index);
        self.b.set_pixel_colour_universal_background(x, y, colour_index);
    }
}

/// A renderer that discards every pixel.
pub struct NoRenderOutput;

impl View for NoRenderOutput {
    type V = ();

    open spec fn view(&self) -> () {
        ()
    }
}

impl RenderOutput for NoRenderOutput {
    open spec fn spec_set_pixel(state: (), write: PixelWrite) -> () {
        ()
    }

    fn set_pixel_colour_sprite_back(&mut self, _x: u16, _y: u16, _colour_index: u8) {
    }

    fn set_pixel_colour_sprite_front(&mut self, _x: u16, _y: u16, _colour_index: u8) {
    }

    fn set_pixel_colour_background(&mut self, _x: u16, _y: u16, _colour_index: u8) {
    }

    fn set_pixel_colour_universal_background(&mut self, _x: u16, _y: u16, _colour_index: u8) {
    }
}

} // verus!
