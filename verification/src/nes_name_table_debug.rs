//! A picture of all four name tables at once, with the part each scanline showed marked.
use vstd::prelude::*;
use crate::nes_palette;
use crate::nes_specs::{SCREEN_HEIGHT_PX, SCREEN_WIDTH_PX};
use crate::render_output::PixelWrite;

verus! {

pub const NAME_TABLE_WIDTH_PX: u16 = 512;
pub const NAME_TABLE_HEIGHT_PX: u16 = 480;
pub const NAME_TABLE_TOTAL_PX: u32 = 245760;

/// The scroll position of one scanline.
#[derive(Clone, Copy, Debug, PartialEq, Eq, Structural)]
pub struct Scroll {
    pub x: u16,
    pub y: u16,
}

/// The colour index of each pixel of the 512x480 plane of name tables, row by row, and the
/// scroll position of each visible scanline.
pub struct NameTableFrame {
    indices: [u8; 245760],
    scroll_by_scanline: [Scroll; 240],
}

pub struct NameTableFrameView {
    pub indices: Seq<u8>,
    pub scroll_by_scanline: Seq<Scroll>,
}

impl View for NameTableFrame {
    type V = NameTableFrameView;

    closed spec fn view(&self) -> NameTableFrameView {
        NameTableFrameView { indices: self.indices@, scroll_by_scanline: self.scroll_by_scanline@ }
    }
}

/// The frame after pixel (`x`, `y`) is set to `index`.
pub open spec fn spec_set_pixel(v: NameTableFrameView, x: u16, y: u16, index: u8) -> NameTableFrameView {
    NameTableFrameView {
        indices: v.indices.update(y as int * NAME_TABLE_WIDTH_PX as int + x as int, index),
        ..v
    }
}

/// The frame after each of `writes` sets its pixel, first to last.
pub open spec fn spec_paint(v: NameTableFrameView, writes: Seq<PixelWrite>) -> NameTableFrameView
    decreases writes.len(),
{
    if writes.len() == 0 {
        v
    } else {
        let w = writes.last();
        spec_set_pixel(spec_paint(v, writes.drop_last()), w.x, w.y, w.colour_index)
    }
}

/// Painting two runs of writes one after the other is painting their concatenation.
pub proof fn lemma_paint_append(v: NameTableFrameView, a: Seq<PixelWrite>, b: Seq<PixelWrite>)
    ensures
        spec_paint(v, a + b) == spec_paint(spec_paint(v, a), b),
    decreases b.len(),
{
    if b.len() == 0 {
        assert(a + b =~= a);
    } else {
        lemma_paint_append(v, a, b.drop_last());
        assert((a + b).drop_last() =~= a + b.drop_last());
        assert((a + b).last() == b.last());
    }
}

/// Whether the scanline with scroll `s` showed pixel `p` of the plane: the 256 pixels from
/// the scroll position to the right, wrapping around horizontally, in row `s.y`.
pub open spec fn spec_shown(s: Scroll, p: int) -> bool {
    &&& s.y < NAME_TABLE_HEIGHT_PX
    &&& p / 512 == s.y
    &&& (p % 512 - s.x) % 512 < SCREEN_WIDTH_PX as int
}

/// Where the `i`th pixel shown by a scanline with scroll `s` lies in the plane: `i` pixels to
/// the right of the scroll position, taken back by one plane width once it passes the right
/// edge.
pub open spec fn spec_pixel_index(s: Scroll, i: int) -> int {
    let x = s.x + i;
    s.y * NAME_TABLE_WIDTH_PX as int + if x >= NAME_TABLE_WIDTH_PX { x - NAME_TABLE_WIDTH_PX } else { x }
}

/// Whether the `i`th pixel a scanline with scroll `s` shows is pixel `p`: scanlines scrolled
/// below the plane show nothing.
pub open spec fn spec_marks(s: Scroll, i: int, p: int) -> bool {
    &&& s.y < NAME_TABLE_HEIGHT_PX
    &&& 0 <= i < SCREEN_WIDTH_PX
    &&& p == spec_pixel_index(s, i)
}

/// Whether the pixels a scanline with scroll `s` shows all lie in the plane, and its scroll
/// position plus the screen width fits in 16 bits.
pub open spec fn spec_marks_in_bounds(s: Scroll) -> bool {
    s.y < NAME_TABLE_HEIGHT_PX ==> {
        &&& s.x + SCREEN_WIDTH_PX <= 0x10000
        &&& forall|i: int| 0 <= i < SCREEN_WIDTH_PX ==> #[trigger] spec_pixel_index(s, i) < NAME_TABLE_TOTAL_PX
    }
}

/// Whether some scanline showed pixel `p`.
pub open spec fn spec_marked(scrolls: Seq<Scroll>, p: int) -> bool {
    exists|k: int, i: int| 0 <= k < SCREEN_HEIGHT_PX && #[trigger] spec_marks(scrolls[k], i, p)
}

/// A colour index moved into the second run of colour codes when `marked`, unless it is
/// already past the first run.
pub open spec fn spec_mark_value(index: u8, marked: bool) -> u8 {
    if marked && index < nes_palette::NUM_COLOURS {
        (index + nes_palette::NUM_COLOURS) as u8
    } else {
        index
    }
}

/// The colour indices of `v` with every pixel some scanline showed marked.
pub open spec fn spec_marked_indices(v: NameTableFrameView) -> Seq<u8> {
    Seq::new(v.indices.len(), |p: int| spec_mark_value(v.indices[p], spec_marked(v.scroll_by_scanline, p)))
}

spec fn spec_marks_pixel(scrolls: Seq<Scroll>, k: int, i: int, p: int) -> bool {
    spec_marks(scrolls[k], i, p)
}

/// Whether one of the scanlines before `k`, or one of the first `i` pixels of scanline `k`,
/// is pixel `p`.
spec fn spec_marked_by_partial(scrolls: Seq<Scroll>, k: int, i: int, p: int) -> bool {
    exists|k2: int, i2: int|
        0 <= k2 && (k2 < k || (k2 == k && i2 < i)) && #[trigger] spec_marks_pixel(scrolls, k2, i2, p)
}

spec fn spec_partially_marked(orig: Seq<u8>, scrolls: Seq<Scroll>, k: int, i: int) -> Seq<u8> {
    Seq::new(orig.len(), |p: int| spec_mark_value(orig[p], spec_marked_by_partial(scrolls, k, i, p)))
}

proof fn lemma_mark_step(orig: Seq<u8>, scrolls: Seq<Scroll>, k: int, i: int, before: Seq<u8>, after: Seq<u8>)
    requires
        0 <= k < scrolls.len(),
        0 <= i < SCREEN_WIDTH_PX,
        scrolls[k].y < NAME_TABLE_HEIGHT_PX,
        0 <= spec_pixel_index(scrolls[k], i) < orig.len(),
        before == spec_partially_marked(orig, scrolls, k, i),
        ({
            let q = spec_pixel_index(scrolls[k], i);
            after == before.update(q, spec_mark_value(before[q], true))
        }),
    ensures
        after == spec_partially_marked(orig, scrolls, k, i + 1),
{
    let q = spec_pixel_index(scrolls[k], i);
    assert(spec_marks_pixel(scrolls, k, i, q));
    assert forall|p: int| 0 <= p < orig.len() implies
        after[p] == spec_mark_value(orig[p], spec_marked_by_partial(scrolls, k, i + 1, p)) by {
        if p != q {
            if spec_marked_by_partial(scrolls, k, i + 1, p) {
                let (k2, i2) = choose|k2: int, i2: int|
                    0 <= k2 && (k2 < k || (k2 == k && i2 < i + 1)) && #[trigger] spec_marks_pixel(scrolls, k2, i2, p);
                assert(spec_marks_pixel(scrolls, k2, i2, p));
            }
        }
    }
    assert(after =~= spec_partially_marked(orig, scrolls, k, i + 1));
}

proof fn lemma_mark_next_scanline(orig: Seq<u8>, scrolls: Seq<Scroll>, k: int)
    ensures
        spec_partially_marked(orig, scrolls, k, SCREEN_WIDTH_PX as int)
            == spec_partially_marked(orig, scrolls, k + 1, 0),
{
    assert forall|p: int| 0 <= p < orig.len() implies
        spec_marked_by_partial(scrolls, k, SCREEN_WIDTH_PX as int, p) == spec_marked_by_partial(scrolls, k + 1, 0, p) by {
        if spec_marked_by_partial(scrolls, k + 1, 0, p) {
            let (k2, i2) = choose|k2: int, i2: int|
                0 <= k2 && (k2 < k + 1 || (k2 == k + 1 && i2 < 0)) && #[trigger] spec_marks_pixel(scrolls, k2, i2, p);
            assert(spec_marks_pixel(scrolls, k2, i2, p));
        }
        if spec_marked_by_partial(scrolls, k, SCREEN_WIDTH_PX as int, p) {
            let (k2, i2) = choose|k2: int, i2: int|
                0 <= k2 && (k2 < k || (k2 == k && i2 < SCREEN_WIDTH_PX)) && #[trigger] spec_marks_pixel(scrolls, k2, i2, p);
            assert(spec_marks_pixel(scrolls, k2, i2, p));
        }
    }
    assert(spec_partially_marked(orig, scrolls, k, SCREEN_WIDTH_PX as int) =~= spec_partially_marked(orig, scrolls, k + 1, 0));
}

proof fn lemma_mark_skip_scanline(orig: Seq<u8>, scrolls: Seq<Scroll>, k: int)
    requires
        0 <= k < scrolls.len(),
        scrolls[k].y >= NAME_TABLE_HEIGHT_PX,
    ensures
        spec_partially_marked(orig, scrolls, k, 0) == spec_partially_marked(orig, scrolls, k + 1, 0),
{
    assert forall|p: int| 0 <= p < orig.len() implies
        spec_marked_by_partial(scrolls, k, 0, p) == spec_marked_by_partial(scrolls, k + 1, 0, p) by {
        if spec_marked_by_partial(scrolls, k + 1, 0, p) {
            let (k2, i2) = choose|k2: int, i2: int|
                0 <= k2 && (k2 < k + 1 || (k2 == k + 1 && i2 < 0)) && #[trigger] spec_marks_pixel(scrolls, k2, i2, p);
            assert(spec_marks_pixel(scrolls, k2, i2, p));
        }
    }
    assert(spec_partially_marked(orig, scrolls, k, 0) =~= spec_partially_marked(orig, scrolls, k + 1, 0));
}

impl NameTableFrame {
    pub fn new() -> (r: Self)
        ensures
            r@.indices == Seq::new(NAME_TABLE_TOTAL_PX as nat, |_i: int| 0u8),
            r@.scroll_by_scanline == Seq::new(SCREEN_HEIGHT_PX as nat, |_i: int| Scroll { x: 0, y: 0 }),
    {
        let r = Self {
            indices: [0; 245760],
            scroll_by_scanline: [Scroll { x: 0, y: 0 }; 240],
        };
        assert(r@.indices =~= Seq::new(NAME_TABLE_TOTAL_PX as nat, |_i: int| 0u8));
        assert(r@.scroll_by_scanline =~= Seq::new(SCREEN_HEIGHT_PX as nat, |_i: int| Scroll { x: 0, y: 0 }));
        r
    }

    pub fn set_pixel(&mut self, x: u16, y: u16, index: u8)
        requires
            x < NAME_TABLE_WIDTH_PX,
            y < NAME_TABLE_HEIGHT_PX,
        ensures
            final(self)@ == spec_set_pixel(old(self)@, x, y, index),
    {
        self.indices[(y as u32 * 512 + x as u32) as usize] = index;
    }

    pub fn set_scroll(&mut self, scanline: u8, x: u16, y: u16)
        requires
            scanline < SCREEN_HEIGHT_PX,
        ensures
            final(self)@ == (NameTableFrameView {
                scroll_by_scanline: old(self)@.scroll_by_scanline.update(scanline as int, Scroll { x: x, y: y }),
                ..old(self)@
            }),
    {
        self.scroll_by_scanline[scanline as usize] = Scroll { x, y };
    }

    /// The colour indices with each pixel that some scanline showed moved into the second
    /// run of colour codes (its index raised by the number of colours, once).
    pub fn indices(&self) -> (r: [u8; 245760])
        requires
            forall|k: int| 0 <= k < SCREEN_HEIGHT_PX ==> #[trigger] spec_marks_in_bounds(self@.scroll_by_scanline[k]),
        ensures
            r@ == spec_marked_indices(self@),
    {
        let ghost orig = self@.indices;
        let ghost scrolls = self@.scroll_by_scanline;
        let mut indices = self.indices;
        assert(indices@ =~= spec_partially_marked(orig, scrolls, 0, 0));
        let mut k: usize = 0;
        while k < 240
            invariant
                k <= 240,
                orig == self@.indices,
                scrolls == self@.scroll_by_scanline,
                scrolls.len() == 240,
                orig.len() == NAME_TABLE_TOTAL_PX,
                forall|k2: int| 0 <= k2 < SCREEN_HEIGHT_PX ==> #[trigger] spec_marks_in_bounds(scrolls[k2]),
                indices@ == spec_partially_marked(orig, scrolls, k as int, 0),
            decreases 240 - k,
        {
            let s = self.scroll_by_scanline[k];
            assert(s == scrolls[k as int]);
            assert(spec_marks_in_bounds(scrolls[k as int]));
            if s.y < NAME_TABLE_HEIGHT_PX {
                let mut i: u16 = 0;
                while i < SCREEN_WIDTH_PX
                    invariant
                        i <= SCREEN_WIDTH_PX,
                        k < 240,
                        s == scrolls[k as int],
                        s.y < NAME_TABLE_HEIGHT_PX,
                        spec_marks_in_bounds(s),
                        scrolls.len() == 240,
                        orig.len() == NAME_TABLE_TOTAL_PX,
                        indices@ == spec_partially_marked(orig, scrolls, k as int, i as int),
                    decreases SCREEN_WIDTH_PX - i,
                {
                    let mut pixel_x = s.x + i;
                    if pixel_x >= NAME_TABLE_WIDTH_PX {
                        pixel_x -= NAME_TABLE_WIDTH_PX;
                    }
                    assert(spec_pixel_index(s, i as int) < NAME_TABLE_TOTAL_PX);
                    let pixel_index = s.y as usize * NAME_TABLE_WIDTH_PX as usize + pixel_x as usize;
                    assert(pixel_index == spec_pixel_index(s, i as int));
                    let ghost before = indices@;
                    if indices[pixel_index] < nes_palette::NUM_COLOURS as u8 {
                        indices[pixel_index] += nes_palette::NUM_COLOURS as u8;
                    }
                    proof {
                        assert(indices@ =~= before.update(
                            pixel_index as int,
                            spec_mark_value(before[pixel_index as int], true),
                        ));
                        lemma_mark_step(orig, scrolls, k as int, i as int, before, indices@);
                    }
                    i += 1;
                }
                proof {
                    lemma_mark_next_scanline(orig, scrolls, k as int);
                }
            } else {
                proof {
                    lemma_mark_skip_scanline(orig, scrolls, k as int);
                }
            }
            k += 1;
        }
        assert(indices@ =~= spec_marked_indices(self@)) by {
            assert forall|p: int| 0 <= p < orig.len() implies
                spec_marked_by_partial(scrolls, 240, 0, p) == spec_marked(scrolls, p) by {
                if spec_marked(scrolls, p) {
                    let (k2, i2) = choose|k2: int, i2: int| 0 <= k2 < SCREEN_HEIGHT_PX && #[trigger] spec_marks(scrolls[k2], i2, p);
                    assert(spec_marks_pixel(scrolls, k2, i2, p));
                }
            }
        }
        indices
    }
}

} // verus!
