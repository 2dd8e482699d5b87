use vstd::prelude::*;

verus! {

pub const HEADER_BYTES: usize = 16;
pub const PRG_ROM_BLOCK_BYTES: usize = 16384;
pub const CHR_ROM_BLOCK_BYTES: usize = 8192;

/// The first four bytes of every iNES file: "NES" and an end-of-file character.
pub open spec fn spec_header_checksum() -> Seq<u8> {
    seq![78u8, 69u8, 83u8, 26u8]
}

/// How the cartridge arranges the PPU's name tables.
#[derive(Debug, Clone, Copy, PartialEq, Eq, Structural)]
pub enum Mirroring {
    Horizontal,
    Vertical,
    FourScreenVram,
}

/// The cartridge hardware that maps ROM into the address spaces.
#[derive(Debug, Clone, Copy, PartialEq, Eq, Structural)]
pub enum Mapper {
    Nrom,
    Mmc1,
}

#[derive(Debug, Clone, Copy, PartialEq, Eq, Structural)]
pub enum Error {
    UnimplementedMapper { code: u8 },
}

/// The iNES number of a mapper.
pub open spec fn spec_mapper_code(mapper: Mapper) -> u8 {
    match mapper {
        Mapper::Nrom => 0,
        Mapper::Mmc1 => 1,
    }
}

/// The mapper with iNES number `code`, when this library implements it.
pub open spec fn spec_mapper_from_code(code: u8) -> Result<Mapper, Error> {
    if code == 0 {
        Ok(Mapper::Nrom)
    } else if code == 1 {
        Ok(Mapper::Mmc1)
    } else {
        Err(Error::UnimplementedMapper { code: code })
    }
}

impl Mapper {
    fn encode(self) -> (r: u8)
        ensures
            r == spec_mapper_code(self),
    {
        match self {
            Mapper::Nrom => 0,
            Mapper::Mmc1 => 1,
        }
    }

    fn decode(code: u8) -> (r: Result<Self, Error>)
        ensures
            r == spec_mapper_from_code(code),
    {
        match code {
            0 => Ok(Mapper::Nrom),
            1 => Ok(Mapper::Mmc1),
            other => Err(Error::UnimplementedMapper { code: other }),
        }
    }
}

#[derive(Debug, Clone, Copy, PartialEq, Eq, Structural)]
pub struct Header {
    pub num_prg_rom_blocks: u8,
    pub num_chr_rom_blocks: u8,
    pub mapper: Mapper,
    pub mirroring: Mirroring,
}

/// The mirroring flags of header byte 6: bit 3 for four-screen VRAM, else bit 0 for vertical.
pub open spec fn spec_mirroring_from_flags(flags6: u8) -> Mirroring {
    if flags6 & 0x08 != 0 {
        Mirroring::FourScreenVram
    } else if flags6 & 0x01 != 0 {
        Mirroring::Vertical
    } else {
        Mirroring::Horizontal
    }
}

/// The header that the first 8 bytes of `buffer` describe.
pub open spec fn spec_parse_header(buffer: Seq<u8>) -> Result<Header, Error> {
    let mapper_number = (buffer[7] & 0xF0) | (buffer[6] >> 4u8);
    match spec_mapper_from_code(mapper_number) {
        Ok(mapper) => Ok(Header {
            num_prg_rom_blocks: buffer[4],
            num_chr_rom_blocks: buffer[5],
            mapper: mapper,
            mirroring: spec_mirroring_from_flags(buffer[6]),
        }),
        Err(e) => Err(e),
    }
}

/// The bytes of PRG ROM a header announces.
pub open spec fn spec_prg_rom_bytes(header: Header) -> nat {
    header.num_prg_rom_blocks as nat * PRG_ROM_BLOCK_BYTES as nat
}

/// The bytes of CHR ROM a header announces.
pub open spec fn spec_chr_rom_bytes(header: Header) -> nat {
    header.num_chr_rom_blocks as nat * CHR_ROM_BLOCK_BYTES as nat
}

/// Header byte 6 as `encode` writes it: the mapper's low nibble in the high nibble, and
/// bit 0 set for horizontal mirroring, bit 3 for four-screen VRAM.
pub open spec fn spec_flags6(header: Header) -> u8 {
    let base = spec_mapper_code(header.mapper) << 4u8;
    match header.mirroring {
        Mirroring::Horizontal => (base | 0x01) & !0x08u8,
        Mirroring::Vertical => (base & !0x01u8) & !0x08u8,
        Mirroring::FourScreenVram => base | 0x08,
    }
}

impl Header {
    fn parse(buffer: &[u8]) -> (r: Result<Self, Error>)
        requires
            buffer@.len() >= 8,
            buffer@.subrange(0, 4) == spec_header_checksum(),
        ensures
            r == spec_parse_header(buffer@),
    {
        let mirroring = if buffer[6] & 0x08 != 0 {
            Mirroring::FourScreenVram
        } else if buffer[6] & 0x01 != 0 {
            Mirroring::Vertical
        } else {
            Mirroring::Horizontal
        };
        let num_prg_rom_blocks = buffer[4];
        let num_chr_rom_blocks = buffer[5];
        let mapper_number = (buffer[7] & 0xF0) | (buffer[6] >> 4u8);
        let mapper = Mapper::decode(mapper_number)?;
        Ok(Self { num_prg_rom_blocks, num_chr_rom_blocks, mapper, mirroring })
    }

    pub fn prg_rom_bytes(&self) -> (r: usize)
        ensures
            r == spec_prg_rom_bytes(*self),
    {
        self.num_prg_rom_blocks as usize * PRG_ROM_BLOCK_BYTES
    }

    pub fn chr_rom_bytes(&self) -> (r: usize)
        ensures
            r == spec_chr_rom_bytes(*self),
    {
        self.num_chr_rom_blocks as usize * CHR_ROM_BLOCK_BYTES
    }

    /// Writes the header into the first 8 bytes of `buffer`.
    fn encode(&self, buffer: &mut Vec<u8>)
        requires
            old(buffer)@.len() >= 8,
        ensures
            final(buffer)@ == old(buffer)@.update(0, 78).update(1, 69).update(2, 83).update(3, 26)
                .update(4, self.num_prg_rom_blocks).update(5, self.num_chr_rom_blocks)
                .update(6, spec_flags6(*self)).update(7, spec_mapper_code(self.mapper) & 0xF0),
    {
        buffer.set(0, 78);
        buffer.set(1, 69);
        buffer.set(2, 83);
        buffer.set(3, 26);
        buffer.set(4, self.num_prg_rom_blocks);
        buffer.set(5, self.num_chr_rom_blocks);
        let mapper_number = self.mapper.encode();
        buffer.set(6, mapper_number << 4u8);
        buffer.set(7, mapper_number & 0xF0);
        match self.mirroring {
            Mirroring::Horizontal => {
                let b = buffer[6] | 0x01;
                buffer.set(6, b);
                let b = buffer[6] & !0x08u8;
                buffer.set(6, b);
            },
            Mirroring::Vertical => {
                let b = buffer[6] & !0x01u8;
                buffer.set(6, b);
                let b = buffer[6] & !0x08u8;
                buffer.set(6, b);
            },
            Mirroring::FourScreenVram => {
                let b = buffer[6] | 0x08;
                buffer.set(6, b);
            },
        }
    }
}

/// An iNES cartridge image: its header and its ROM contents.
pub struct Ines {
    pub header: Header,
    pub prg_rom: Vec<u8>,
    pub chr_rom: Vec<u8>,
}

/// Whether `buffer` can be read as an iNES image without running past its end: the
/// checksum matches and the ROM contents the header announces are present.
pub open spec fn spec_parse_in_bounds(buffer: Seq<u8>) -> bool {
    &&& buffer.len() >= HEADER_BYTES
    &&& buffer.subrange(0, 4) == spec_header_checksum()
    &&& spec_parse_header(buffer) matches Ok(header)
        ==> HEADER_BYTES + spec_prg_rom_bytes(header) + spec_chr_rom_bytes(header) <= buffer.len()
}

fn copy_range(buffer: &[u8], start: usize, end: usize) -> (r: Vec<u8>)
    requires
        start <= end <= buffer@.len(),
    ensures
        r@ == buffer@.subrange(start as int, end as int),
{
    let mut out: Vec<u8> = Vec::new();
    let mut i = start;
    while i < end
        invariant
            start <= i <= end <= buffer@.len(),
            out@ == buffer@.subrange(start as int, i as int),
        decreases end - i,
    {
        out.push(buffer[i]);
        i += 1;
        assert(out@ =~= buffer@.subrange(start as int, i as int));
    }
    out
}

/// Whether `buffer` can be read as an iNES image: whether `Ines::parse` may be called on it.
pub fn image_in_bounds(buffer: &[u8]) -> (r: bool)
    ensures
        r == spec_parse_in_bounds(buffer@),
{
    if buffer.len() < HEADER_BYTES {
        return false;
    }
    let checksum_matches = buffer[0] == 78 && buffer[1] == 69 && buffer[2] == 83 && buffer[3] == 26;
    assert(checksum_matches <==> buffer@.subrange(0, 4) =~= spec_header_checksum());
    if !checksum_matches {
        return false;
    }
    match Header::parse(buffer) {
        Ok(header) => HEADER_BYTES + header.prg_rom_bytes() + header.chr_rom_bytes() <= buffer.len(),
        Err(_) => true,
    }
}

impl Ines {
    /// Reads an iNES image: the header after the checksum, the PRG ROM after the header,
    /// the CHR ROM after that. Fails when the header names a mapper this library lacks.
    pub fn parse(buffer: &[u8]) -> (r: Result<Self, Error>)
        requires
            spec_parse_in_bounds(buffer@),
        ensures
            match spec_parse_header(buffer@) {
                Ok(header) => r is Ok && r->Ok_0.header == header
                    && r->Ok_0.prg_rom@ == buffer@.subrange(
                        HEADER_BYTES as int,
                        HEADER_BYTES + spec_prg_rom_bytes(header),
                    )
                    && r->Ok_0.chr_rom@ == buffer@.subrange(
                        HEADER_BYTES + spec_prg_rom_bytes(header),
                        HEADER_BYTES + spec_prg_rom_bytes(header) + spec_chr_rom_bytes(header),
                    ),
                Err(e) => r is Err && r->Err_0 == e,
            },
    {
        let header = Header::parse(buffer)?;
        let prg_rom_bytes = header.prg_rom_bytes();
        let chr_rom_bytes = header.chr_rom_bytes();
        let prg_rom = copy_range(buffer, HEADER_BYTES, HEADER_BYTES + prg_rom_bytes);
        let chr_rom = copy_range(buffer, HEADER_BYTES + prg_rom_bytes, HEADER_BYTES + prg_rom_bytes + chr_rom_bytes);
        Ok(Self { header, prg_rom, chr_rom })
    }

    /// Writes the image into `buffer`, which is resized to the length the header
    /// announces. Bytes 8 to 15 of the header and any ROM space the contents do not fill
    /// keep what `buffer` held there (zero where it was shorter).
    pub fn encode(&self, buffer: &mut Vec<u8>)
        requires
            self.prg_rom@.len() <= spec_prg_rom_bytes(self.header) + spec_chr_rom_bytes(self.header),
            self.chr_rom@.len() <= spec_chr_rom_bytes(self.header),
        ensures
            final(buffer)@ == spec_encode(*self, old(buffer)@),
    {
        let total = HEADER_BYTES + self.header.prg_rom_bytes() + self.header.chr_rom_bytes();
        vec_resize(buffer, total);
        self.header.encode(buffer);
        let prg_start = HEADER_BYTES;
        let chr_start = prg_start + self.header.prg_rom_bytes();
        copy_into(buffer, prg_start, &self.prg_rom);
        copy_into(buffer, chr_start, &self.chr_rom);
    }
}

/// `buffer` cut or padded with zeros to length `len`.
pub open spec fn spec_resized(buffer: Seq<u8>, len: nat) -> Seq<u8> {
    Seq::new(len, |i: int| if i < buffer.len() { buffer[i] } else { 0u8 })
}

/// `buffer` with `data` written from index `start` on.
pub open spec fn spec_copied_into(buffer: Seq<u8>, start: int, data: Seq<u8>) -> Seq<u8> {
    Seq::new(buffer.len(), |i: int| if start <= i < start + data.len() { data[i - start] } else { buffer[i] })
}

/// What `encode` leaves in a buffer that held `buffer`.
pub open spec fn spec_encode(ines: Ines, buffer: Seq<u8>) -> Seq<u8> {
    spec_encode_image(ines.header, ines.prg_rom@, ines.chr_rom@, buffer)
}

/// What encoding an image with these header and ROM contents leaves in a buffer that held
/// `buffer`.
pub open spec fn spec_encode_image(header: Header, prg_rom: Seq<u8>, chr_rom: Seq<u8>, buffer: Seq<u8>) -> Seq<u8> {
    let total = HEADER_BYTES as nat + spec_prg_rom_bytes(header) + spec_chr_rom_bytes(header);
    let b0 = spec_resized(buffer, total);
    let b1 = b0.update(0, 78).update(1, 69).update(2, 83).update(3, 26)
        .update(4, header.num_prg_rom_blocks).update(5, header.num_chr_rom_blocks)
        .update(6, spec_flags6(header)).update(7, spec_mapper_code(header.mapper) & 0xF0);
    let b2 = spec_copied_into(b1, HEADER_BYTES as int, prg_rom);
    spec_copied_into(b2, HEADER_BYTES + spec_prg_rom_bytes(header), chr_rom)
}

fn vec_resize(buffer: &mut Vec<u8>, len: usize)
    ensures
        final(buffer)@ == spec_resized(old(buffer)@, len as nat),
{
    if buffer.len() > len {
        buffer.truncate(len);
    } else {
        while buffer.len() < len
            invariant
                buffer@.len() <= len,
                buffer@ == spec_resized(old(buffer)@, buffer@.len()),
                old(buffer)@.len() <= buffer@.len(),
            decreases len - buffer@.len(),
        {
            buffer.push(0);
        }
    }
    assert(buffer@ =~= spec_resized(old(buffer)@, len as nat));
}

fn copy_into(buffer: &mut Vec<u8>, start: usize, data: &Vec<u8>)
    requires
        start + data@.len() <= old(buffer)@.len(),
    ensures
        final(buffer)@ == spec_copied_into(old(buffer)@, start as int, data@),
{
    let n = buffer.len();
    let mut i: usize = 0;
    while i < data.len()
        invariant
            n == old(buffer)@.len(),
            start + data@.len() <= buffer@.len(),
            buffer@.len() == old(buffer)@.len(),
            buffer@ == spec_copied_into(old(buffer)@, start as int, data@.subrange(0, i as int)),
            i <= data@.len(),
        decreases data@.len() - i,
    {
        buffer.set(start + i, data[i]);
        i += 1;
        assert(buffer@ =~= spec_copied_into(old(buffer)@, start as int, data@.subrange(0, i as int)));
    }
    assert(data@.subrange(0, i as int) =~= data@);
}

} // verus!

verus! {

/// Reading back an encoded image gives the image: the header, the PRG ROM and the CHR ROM,
/// for an image whose ROM contents fill the space its header announces and whose
/// mirroring is four-screen VRAM. (Horizontal and vertical mirroring do not survive the
/// trip: the encoder marks horizontal mirroring with the bit the parser reads as vertical.)
pub proof fn lemma_parse_encode_roundtrip(ines: Ines, buffer: Seq<u8>)
    requires
        ines.prg_rom@.len() == spec_prg_rom_bytes(ines.header),
        ines.chr_rom@.len() == spec_chr_rom_bytes(ines.header),
        ines.header.mirroring == Mirroring::FourScreenVram,
    ensures
        ({
            let b = spec_encode(ines, buffer);
            let prg_end = HEADER_BYTES + spec_prg_rom_bytes(ines.header);
            &&& spec_parse_in_bounds(b)
            &&& spec_parse_header(b) == Ok::<Header, Error>(ines.header)
            &&& b.subrange(HEADER_BYTES as int, prg_end) == ines.prg_rom@
            &&& b.subrange(prg_end, prg_end + spec_chr_rom_bytes(ines.header)) == ines.chr_rom@
        }),
{
    let header = ines.header;
    let b = spec_encode(ines, buffer);
    let code = spec_mapper_code(header.mapper);
    let flags6 = spec_flags6(header);
    assert(flags6 == (code << 4u8) | 0x08);
    assert(b[6] == flags6);
    assert(b[7] == code & 0xF0);
    assert(code == 0 || code == 1);
    assert(flags6 & 0x08 != 0) by (bit_vector)
        requires
            flags6 == (code << 4u8) | 0x08,
    ;
    assert((code & 0xF0) & 0xF0 | (flags6 >> 4u8) == code) by (bit_vector)
        requires
            flags6 == (code << 4u8) | 0x08,
            code == 0 || code == 1,
    ;
    assert(b.subrange(0, 4) =~= spec_header_checksum());
    let prg_end = HEADER_BYTES + spec_prg_rom_bytes(header);
    assert(b.subrange(HEADER_BYTES as int, prg_end) =~= ines.prg_rom@);
    assert(b.subrange(prg_end, prg_end + spec_chr_rom_bytes(header)) =~= ines.chr_rom@);
}

} // verus!
