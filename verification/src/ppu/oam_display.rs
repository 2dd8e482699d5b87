//! Object attribute memory written out as text, one sprite per line.
use vstd::prelude::*;
use super::{Oam, OAM_NUM_SPRITES, OAM_SPRITE_BYTES};
use crate::text::{ascii_string, lemma_ascii_concat, lemma_hex_padded_ascii, push_all, push_hex_padded, spec_chars, spec_hex_padded, spec_is_ascii};

verus! {

/// A number below 100 in two decimal digits.
pub open spec fn spec_decimal2(n: nat) -> Seq<u8> {
    seq![(48 + n / 10) as u8, (48 + n % 10) as u8]
}

/// The line of sprite `i` with attribute bytes `b`: its number in two decimal digits, ": [",
/// the four bytes in two hexadecimal digits each, separated by ", ", "]" and a newline.
pub open spec fn spec_sprite_line(i: nat, b: Seq<u8>) -> Seq<u8> {
    spec_decimal2(i) + seq![58u8, 32, 91] + spec_hex_padded(b[0] as nat, 2) + seq![44u8, 32] + spec_hex_padded(b[1] as nat, 2)
        + seq![44u8, 32] + spec_hex_padded(b[2] as nat, 2) + seq![44u8, 32] + spec_hex_padded(b[3] as nat, 2) + seq![93u8, 10]
}

/// The lines of the first `k` sprites of `ram`.
pub open spec fn spec_sprite_lines(ram: Seq<u8>, k: nat) -> Seq<u8>
    decreases k,
{
    if k == 0 {
        Seq::empty()
    } else {
        let i = (k - 1) as nat;
        spec_sprite_lines(ram, i) + spec_sprite_line(i, ram.subrange(4 * i as int, 4 * i as int + 4))
    }
}

proof fn lemma_sprite_line_ascii(i: nat, b: Seq<u8>)
    requires
        i < 100,
    ensures
        spec_is_ascii(spec_sprite_line(i, b)),
{
    let d = spec_decimal2(i);
    assert(spec_is_ascii(d)) by {
        assert forall|j: int| 0 <= j < d.len() implies #[trigger] d[j] < 128 by {}
    }
    let open = seq![58u8, 32, 91];
    let comma = seq![44u8, 32];
    let close = seq![93u8, 10];
    assert(spec_is_ascii(open));
    assert(spec_is_ascii(comma));
    assert(spec_is_ascii(close));
    lemma_hex_padded_ascii(b[0] as nat, 2);
    lemma_hex_padded_ascii(b[1] as nat, 2);
    lemma_hex_padded_ascii(b[2] as nat, 2);
    lemma_hex_padded_ascii(b[3] as nat, 2);
    let t1 = d + open;
    lemma_ascii_concat(d, open);
    let t2 = t1 + spec_hex_padded(b[0] as nat, 2);
    lemma_ascii_concat(t1, spec_hex_padded(b[0] as nat, 2));
    let t3 = t2 + comma;
    lemma_ascii_concat(t2, comma);
    let t4 = t3 + spec_hex_padded(b[1] as nat, 2);
    lemma_ascii_concat(t3, spec_hex_padded(b[1] as nat, 2));
    let t5 = t4 + comma;
    lemma_ascii_concat(t4, comma);
    let t6 = t5 + spec_hex_padded(b[2] as nat, 2);
    lemma_ascii_concat(t5, spec_hex_padded(b[2] as nat, 2));
    let t7 = t6 + comma;
    lemma_ascii_concat(t6, comma);
    let t8 = t7 + spec_hex_padded(b[3] as nat, 2);
    lemma_ascii_concat(t7, spec_hex_padded(b[3] as nat, 2));
    lemma_ascii_concat(t8, close);
}

proof fn lemma_sprite_lines_ascii(ram: Seq<u8>, k: nat)
    requires
        k <= 100,
    ensures
        spec_is_ascii(spec_sprite_lines(ram, k)),
    decreases k,
{
    if k > 0 {
        let i = (k - 1) as nat;
        lemma_sprite_lines_ascii(ram, i);
        lemma_sprite_line_ascii(i, ram.subrange(4 * i as int, 4 * i as int + 4));
        lemma_ascii_concat(spec_sprite_lines(ram, i), spec_sprite_line(i, ram.subrange(4 * i as int, 4 * i as int + 4)));
    }
}

impl Oam {
    /// Each sprite's four attribute bytes on a line of their own, after the sprite's number.
    pub fn to_string(&self) -> (r: String)
        ensures
            r@ == spec_chars(spec_sprite_lines(self@, OAM_NUM_SPRITES as nat)),
    {
        let mut out: Vec<u8> = Vec::new();
        let open: [u8; 3] = [58, 32, 91];
        let comma: [u8; 2] = [44, 32];
        let close: [u8; 2] = [93, 10];
        assert(open@ =~= seq![58u8, 32, 91]);
        assert(comma@ =~= seq![44u8, 32]);
        assert(close@ =~= seq![93u8, 10]);
        let mut i: usize = 0;
        while i < OAM_NUM_SPRITES
            invariant
                i <= OAM_NUM_SPRITES,
                self@.len() == 256,
                open@ == seq![58u8, 32, 91],
                comma@ == seq![44u8, 32],
                close@ == seq![93u8, 10],
                out@ == spec_sprite_lines(self@, i as nat),
            decreases OAM_NUM_SPRITES - i,
        {
            let ghost before = out@;
            let digits: [u8; 2] = [48 + (i / 10) as u8, 48 + (i % 10) as u8];
            push_all(&mut out, digits.as_slice());
            push_all(&mut out, open.as_slice());
            let base = i * OAM_SPRITE_BYTES;
            push_hex_padded(&mut out, self.ram[base] as u64, 2);
            push_all(&mut out, comma.as_slice());
            push_hex_padded(&mut out, self.ram[base + 1] as u64, 2);
            push_all(&mut out, comma.as_slice());
            push_hex_padded(&mut out, self.ram[base + 2] as u64, 2);
            push_all(&mut out, comma.as_slice());
            push_hex_padded(&mut out, self.ram[base + 3] as u64, 2);
            push_all(&mut out, close.as_slice());
            proof {
                let b = self@.subrange(4 * i, 4 * i + 4);
                assert(digits@ =~= spec_decimal2(i as nat));
                assert(b[0] == self@[4 * i]);
                assert(b[1] == self@[4 * i + 1]);
                assert(b[2] == self@[4 * i + 2]);
                assert(b[3] == self@[4 * i + 3]);
                assert(out@ =~= before + spec_sprite_line(i as nat, b));
            }
            i += 1;
        }
        proof {
            lemma_sprite_lines_ascii(self@, OAM_NUM_SPRITES as nat);
        }
        ascii_string(out)
    }
}

} // verus!
