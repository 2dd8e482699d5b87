//! The colours the NES can show, and a palette that gives each colour index its colour.
use vstd::prelude::*;

verus! {

/// The number of colours the NES can show; colour indices are below this.
pub const NUM_COLOURS: usize = 64;

/// The bits of a colour index that select a colour.
pub const COLOUR_MASK: u8 = 0x3F;

/// The number of bytes of a palette: red, green and blue for each colour.
pub const PALETTE_BYTES: usize = 192;

/// A colour as its red, green and blue intensities.
#[derive(Clone, Copy, Debug, PartialEq, Eq, Structural)]
pub struct Rgb24 {
    pub r: u8,
    pub g: u8,
    pub b: u8,
}

impl Rgb24 {
    pub fn new(r: u8, g: u8, b: u8) -> (c: Self)
        ensures
            c == (Rgb24 { r: r, g: g, b: b }),
    {
        Self { r, g, b }
    }
}

/// The colour of each colour index.
#[derive(Clone, Copy)]
pub struct Palette {
    colours: [Rgb24; 64],
}

impl View for Palette {
    type V = Seq<Rgb24>;

    closed spec fn view(&self) -> Seq<Rgb24> {
        self.colours@
    }
}

/// The colours that `bytes` lists, three bytes each: red, green and blue.
pub open spec fn spec_colours_from_bytes(bytes: Seq<u8>) -> Seq<Rgb24> {
    Seq::new(bytes.len() / 3, |i: int| Rgb24 { r: bytes[3 * i], g: bytes[3 * i + 1], b: bytes[3 * i + 2] })
}

/// The bytes of `colours`, three each: red, green and blue.
pub open spec fn spec_bytes_from_colours(colours: Seq<Rgb24>) -> Seq<u8> {
    Seq::new(
        colours.len() * 3,
        |i: int|
            {
                let c = colours[i / 3];
                if i % 3 == 0 {
                    c.r
                } else if i % 3 == 1 {
                    c.g
                } else {
                    c.b
                }
            },
    )
}

impl Palette {
    /// The palette whose colours `bytes` lists, three bytes each: red, green and blue.
    pub fn from_bytes(bytes: &[u8]) -> (p: Self)
        requires
            bytes@.len() == PALETTE_BYTES,
        ensures
            p@ == spec_colours_from_bytes(bytes@),
    {
        let mut colours = [Rgb24::new(0, 0, 0); 64];
        let mut i: usize = 0;
        while i < NUM_COLOURS
            invariant
                i <= NUM_COLOURS,
                bytes@.len() == PALETTE_BYTES,
                colours@.len() == NUM_COLOURS,
                forall|j: int| 0 <= j < i ==> colours@[j] == #[trigger] spec_colours_from_bytes(bytes@)[j],
            decreases NUM_COLOURS - i,
        {
            colours[i] = Rgb24::new(bytes[3 * i], bytes[3 * i + 1], bytes[3 * i + 2]);
            i += 1;
        }
        let p = Self { colours };
        assert(p@ =~= spec_colours_from_bytes(bytes@));
        p
    }

    /// The colours as bytes, three each: red, green and blue.
    pub fn to_bytes(&self) -> (r: [u8; 192])
        ensures
            r@ == spec_bytes_from_colours(self@),
    {
        let mut bytes = [0u8; 192];
        let mut i: usize = 0;
        while i < NUM_COLOURS
            invariant
                i <= NUM_COLOURS,
                self@.len() == NUM_COLOURS,
                bytes@.len() == PALETTE_BYTES,
                forall|j: int| 0 <= j < 3 * i ==> bytes@[j] == #[trigger] spec_bytes_from_colours(self@)[j],
            decreases NUM_COLOURS - i,
        {
            let colour = self.colours[i];
            bytes[3 * i] = colour.r;
            bytes[3 * i + 1] = colour.g;
            bytes[3 * i + 2] = colour.b;
            assert forall|j: int| 0 <= j < 3 * (i + 1) implies bytes@[j] == #[trigger] spec_bytes_from_colours(self@)[j] by {
                if j >= 3 * i {
                    assert(j / 3 == i);
                }
            }
            i += 1;
        }
        assert(bytes@ =~= spec_bytes_from_colours(self@));
        bytes
    }

    /// Replaces each colour with what `f` makes of it.
    pub fn transform<F: Fn(Rgb24) -> Rgb24>(&mut self, f: F)
        requires
            forall|c: Rgb24| #[trigger] f.requires((c,)),
        ensures
            final(self)@.len() == old(self)@.len(),
            forall|i: int| 0 <= i < old(self)@.len() ==> f.ensures((old(self)@[i],), #[trigger] final(self)@[i]),
    {
        let mut i: usize = 0;
        while i < NUM_COLOURS
            invariant
                i <= NUM_COLOURS,
                self@.len() == old(self)@.len() == NUM_COLOURS,
                forall|c: Rgb24| #[trigger] f.requires((c,)),
                forall|j: int| 0 <= j < i ==> f.ensures((old(self)@[j],), #[trigger] self@[j]),
                forall|j: int| i <= j < NUM_COLOURS ==> #[trigger] self@[j] == old(self)@[j],
            decreases NUM_COLOURS - i,
        {
            let colour = f(self.colours[i]);
            self.colours[i] = colour;
            i += 1;
        }
    }
}

/// A colour turned towards red: red at full, green and blue each 64 lower, stopping at 0.
pub open spec fn spec_aged_colour(c: Rgb24) -> Rgb24 {
    Rgb24 {
        r: 255,
        g: if c.g >= 64 { (c.g - 64) as u8 } else { 0 },
        b: if c.b >= 64 { (c.b - 64) as u8 } else { 0 },
    }
}

/// A colour turned towards red, as the animated picture shows a background pixel that has
/// just changed.
pub fn aged_colour(c: Rgb24) -> (r: Rgb24)
    ensures
        r == spec_aged_colour(c),
{
    Rgb24 { r: c.r.saturating_add(255), g: c.g.saturating_sub(64), b: c.b.saturating_sub(64) }
}

/// The colour table of the animated picture: the bytes of the palette's 64 colours, then
/// those of the same 64 colours turned towards red.
pub fn animation_colour_table(palette: &Palette) -> (r: Vec<u8>)
    ensures
        r@ == spec_bytes_from_colours(palette@) + spec_bytes_from_colours(palette@.map_values(|c: Rgb24| spec_aged_colour(c))),
{
    let normal = palette.to_bytes();
    let mut aged = *palette;
    aged.transform(|c: Rgb24| -> (r: Rgb24)
        ensures
            r == spec_aged_colour(c),
        { aged_colour(c) });
    proof {
        assert(aged@ =~= palette@.map_values(|c: Rgb24| spec_aged_colour(c)));
    }
    let aged_bytes = aged.to_bytes();
    let mut table: Vec<u8> = Vec::new();
    let mut i: usize = 0;
    while i < PALETTE_BYTES
        invariant
            i <= PALETTE_BYTES,
            normal@.len() == PALETTE_BYTES,
            table@ == normal@.take(i as int),
        decreases PALETTE_BYTES - i,
    {
        table.push(normal[i]);
        i += 1;
        assert(table@ =~= normal@.take(i as int));
    }
    let mut j: usize = 0;
    while j < PALETTE_BYTES
        invariant
            j <= PALETTE_BYTES,
            normal@.len() == PALETTE_BYTES,
            aged_bytes@.len() == PALETTE_BYTES,
            table@ == normal@ + aged_bytes@.take(j as int),
        decreases PALETTE_BYTES - j,
    {
        table.push(aged_bytes[j]);
        j += 1;
        assert(table@ =~= normal@ + aged_bytes@.take(j as int));
    }
    assert(normal@.take(PALETTE_BYTES as int) =~= normal@);
    assert(aged_bytes@.take(PALETTE_BYTES as int) =~= aged_bytes@);
    table
}

/// Reading a palette's bytes back gives the bytes: three for each of the 64 colours.
pub proof fn lemma_bytes_round_trip(bytes: Seq<u8>)
    requires
        bytes.len() == PALETTE_BYTES,
    ensures
        spec_bytes_from_colours(spec_colours_from_bytes(bytes)) == bytes,
{
    let colours = spec_colours_from_bytes(bytes);
    let back = spec_bytes_from_colours(colours);
    assert forall|i: int| 0 <= i < PALETTE_BYTES implies back[i] == bytes[i] by {
        let k = i / 3;
        assert(0 <= k < 64);
        assert(3 * k <= i < 3 * k + 3);
    }
    assert(back =~= bytes);
}

/// A palette's bytes read back give its colours.
pub proof fn lemma_colours_round_trip(colours: Seq<Rgb24>)
    requires
        colours.len() == NUM_COLOURS,
    ensures
        spec_colours_from_bytes(spec_bytes_from_colours(colours)) == colours,
{
    let bytes = spec_bytes_from_colours(colours);
    let back = spec_colours_from_bytes(bytes);
    assert forall|k: int| 0 <= k < NUM_COLOURS implies back[k] == colours[k] by {
        assert((3 * k) / 3 == k && (3 * k) % 3 == 0);
        assert((3 * k + 1) / 3 == k && (3 * k + 1) % 3 == 1);
        assert((3 * k + 2) / 3 == k && (3 * k + 2) % 3 == 2);
    }
    assert(back =~= colours);
}

} // verus!
