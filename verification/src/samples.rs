//! Building a cartridge image around an assembled program.
use vstd::prelude::*;
use crate::assembler::Assembler;
use crate::ines::{self, spec_encode_image, Header, Ines};
use crate::Address;
use vstd::string::StrSliceExecFns;

verus! {

/// Where a single 16KB PRG ROM block sits: it fills the top of the address space, where the
/// interrupt vectors are.
pub const PRG_START: Address = 0xC000;

/// The iNES header of a one-block NROM cartridge without CHR ROM.
pub open spec fn spec_single_block_header() -> Header {
    Header { num_prg_rom_blocks: 1, num_chr_rom_blocks: 0, mapper: ines::Mapper::Nrom, mirroring: ines::Mirroring::Horizontal }
}

/// The iNES image of the program in `assembler`: one PRG ROM block holding the top 16KB of
/// the address space, no CHR ROM.
pub fn assemble_ines(assembler: &Assembler) -> (r: Vec<u8>)
    ensures
        r@ == spec_encode_image(
            spec_single_block_header(),
            assembler@.binary.subrange(PRG_START as int, PRG_START + ines::PRG_ROM_BLOCK_BYTES),
            Seq::empty(),
            Seq::empty(),
        ),
{
    let mut prg_rom = Vec::new();
    assembler.partial_binary(PRG_START, ines::PRG_ROM_BLOCK_BYTES, &mut prg_rom);
    let ines = Ines {
        header: Header { num_prg_rom_blocks: 1, num_chr_rom_blocks: 0, mapper: ines::Mapper::Nrom, mirroring: ines::Mirroring::Horizontal },
        prg_rom,
        chr_rom: Vec::new(),
    };
    let mut output = Vec::new();
    ines.encode(&mut output);
    output
}

/// The packing state after a character: the bytes completed so far and the byte being
/// filled. A '#' sets the top bit of the byte; the eighth character of each group of eight in
/// a row completes the byte, and the others shift it right by one.
pub open spec fn spec_pixel_step(st: (Seq<u8>, u8), c: char, i: int) -> (Seq<u8>, u8) {
    let byte = if c == '#' { st.1 | 0x80 } else { st.1 };
    if i % 8 == 7 {
        (st.0.push(byte), 0)
    } else {
        (st.0, byte >> 1u8)
    }
}

/// The packing state after the first `n` characters of `row`, from `st`.
pub open spec fn spec_pack_row(st: (Seq<u8>, u8), row: Seq<char>, n: nat) -> (Seq<u8>, u8)
    decreases n,
{
    if n == 0 {
        st
    } else {
        spec_pixel_step(spec_pack_row(st, row, (n - 1) as nat), row[n - 1], n - 1)
    }
}

/// The packing state after the first `k` rows, from nothing.
pub open spec fn spec_pack_rows(rows: Seq<Seq<char>>, k: nat) -> (Seq<u8>, u8)
    decreases k,
{
    if k == 0 {
        (Seq::empty(), 0)
    } else {
        let st = spec_pack_rows(rows, (k - 1) as nat);
        spec_pack_row(st, rows[k - 1], rows[k - 1].len())
    }
}

/// The rows of a picture drawn in text, as characters.
pub open spec fn spec_rows(image: Seq<&str>) -> Seq<Seq<char>> {
    image.map_values(|row: &str| row@)
}

/// Packs a picture drawn in text ('#' for a set pixel) into bytes, eight pixels to a byte with
/// the first pixel in the lowest bit.
pub fn test_image_bits(image: &[&str]) -> (r: Vec<u8>)
    ensures
        r@ == spec_pack_rows(spec_rows(image@), image@.len()).0,
{
    let ghost rows = spec_rows(image@);
    let mut bits: Vec<u8> = Vec::new();
    let mut byte: u8 = 0;
    let mut k: usize = 0;
    while k < image.len()
        invariant
            k <= image@.len(),
            rows == spec_rows(image@),
            (bits@, byte) == spec_pack_rows(rows, k as nat),
        decreases image@.len() - k,
    {
        let row = image[k];
        let ghost st0 = (bits@, byte);
        assert(rows[k as int] == row@);
        let n = row.unicode_len();
        let mut i: usize = 0;
        while i < n
            invariant
                i <= n,
                n == row@.len(),
                (bits@, byte) == spec_pack_row(st0, row@, i as nat),
            decreases n - i,
        {
            let c = row.get_char(i);
            if c == '#' {
                byte = byte | 0x80;
            }
            if i % 8 == 7 {
                bits.push(byte);
                byte = 0;
            } else {
                byte = byte >> 1;
            }
            i += 1;
        }
        k += 1;
    }
    bits
}

} // verus!
