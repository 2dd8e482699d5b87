//! Instructions written out as text, the way a debugger lists them.
use vstd::prelude::*;
use super::{AddressingMode, Instruction, InstructionType, InstructionWithOperand};
use crate::text::{ascii_string, lemma_ascii_concat, lemma_hex_padded_ascii, push_all, push_hex_padded, spec_chars, spec_hex_padded, spec_is_ascii};
use crate::Address;

verus! {

/// The name of an instruction type, in ASCII.
pub open spec fn spec_instruction_type_name(t: InstructionType) -> Seq<u8> {
    match t {
        InstructionType::Adc => seq![65u8, 100, 99],
        InstructionType::Ahx => seq![65u8, 104, 120],
        InstructionType::Alr => seq![65u8, 108, 114],
        InstructionType::Anc => seq![65u8, 110, 99],
        InstructionType::And => seq![65u8, 110, 100],
        InstructionType::Arr => seq![65u8, 114, 114],
        InstructionType::Asl => seq![65u8, 115, 108],
        InstructionType::Axs => seq![65u8, 120, 115],
        InstructionType::Bcc => seq![66u8, 99, 99],
        InstructionType::Bcs => seq![66u8, 99, 115],
        InstructionType::Beq => seq![66u8, 101, 113],
        InstructionType::Bit => seq![66u8, 105, 116],
        InstructionType::Bmi => seq![66u8, 109, 105],
        InstructionType::Bne => seq![66u8, 110, 101],
        InstructionType::Bpl => seq![66u8, 112, 108],
        InstructionType::Brk => seq![66u8, 114, 107],
        InstructionType::Bvc => seq![66u8, 118, 99],
        InstructionType::Bvs => seq![66u8, 118, 115],
        InstructionType::Clc => seq![67u8, 108, 99],
        InstructionType::Cld => seq![67u8, 108, 100],
        InstructionType::Cli => seq![67u8, 108, 105],
        InstructionType::Clv => seq![67u8, 108, 118],
        InstructionType::Cmp => seq![67u8, 109, 112],
        InstructionType::Cpx => seq![67u8, 112, 120],
        InstructionType::Cpy => seq![67u8, 112, 121],
        InstructionType::Dcp => seq![68u8, 99, 112],
        InstructionType::Dec => seq![68u8, 101, 99],
        InstructionType::Dex => seq![68u8, 101, 120],
        InstructionType::Dey => seq![68u8, 101, 121],
        InstructionType::Eor => seq![69u8, 111, 114],
        InstructionType::Ign => seq![73u8, 103, 110],
        InstructionType::Inc => seq![73u8, 110, 99],
        InstructionType::Inx => seq![73u8, 110, 120],
        InstructionType::Iny => seq![73u8, 110, 121],
        InstructionType::Isc => seq![73u8, 115, 99],
        InstructionType::Jmp => seq![74u8, 109, 112],
        InstructionType::Jsr => seq![74u8, 115, 114],
        InstructionType::Lax => seq![76u8, 97, 120],
        InstructionType::Lda => seq![76u8, 100, 97],
        InstructionType::Ldx => seq![76u8, 100, 120],
        InstructionType::Ldy => seq![76u8, 100, 121],
        InstructionType::Lsr => seq![76u8, 115, 114],
        InstructionType::Nop => seq![78u8, 111, 112],
        InstructionType::Ora => seq![79u8, 114, 97],
        InstructionType::Pha => seq![80u8, 104, 97],
        InstructionType::Php => seq![80u8, 104, 112],
        InstructionType::Pla => seq![80u8, 108, 97],
        InstructionType::Plp => seq![80u8, 108, 112],
        InstructionType::Rla => seq![82u8, 108, 97],
        InstructionType::Rol => seq![82u8, 111, 108],
        InstructionType::Ror => seq![82u8, 111, 114],
        InstructionType::Rra => seq![82u8, 114, 97],
        InstructionType::Rti => seq![82u8, 116, 105],
        InstructionType::Rts => seq![82u8, 116, 115],
        InstructionType::Sax => seq![83u8, 97, 120],
        InstructionType::Sbc => seq![83u8, 98, 99],
        InstructionType::Sec => seq![83u8, 101, 99],
        InstructionType::Sed => seq![83u8, 101, 100],
        InstructionType::Sei => seq![83u8, 101, 105],
        InstructionType::Skb => seq![83u8, 107, 98],
        InstructionType::Slo => seq![83u8, 108, 111],
        InstructionType::Sre => seq![83u8, 114, 101],
        InstructionType::Sta => seq![83u8, 116, 97],
        InstructionType::Stx => seq![83u8, 116, 120],
        InstructionType::Sty => seq![83u8, 116, 121],
        InstructionType::Sxa => seq![83u8, 120, 97],
        InstructionType::Sya => seq![83u8, 121, 97],
        InstructionType::Tax => seq![84u8, 97, 120],
        InstructionType::Tay => seq![84u8, 97, 121],
        InstructionType::Tsx => seq![84u8, 115, 120],
        InstructionType::Txa => seq![84u8, 120, 97],
        InstructionType::Txs => seq![84u8, 120, 115],
        InstructionType::Tya => seq![84u8, 121, 97],
    }
}

/// The name of an addressing mode, in ASCII.
pub open spec fn spec_addressing_mode_name(m: AddressingMode) -> Seq<u8> {
    match m {
        AddressingMode::Absolute => seq![65u8, 98, 115, 111, 108, 117, 116, 101],
        AddressingMode::AbsoluteXIndexed => seq![65u8, 98, 115, 111, 108, 117, 116, 101, 88, 73, 110, 100, 101, 120, 101, 100],
        AddressingMode::AbsoluteYIndexed => seq![65u8, 98, 115, 111, 108, 117, 116, 101, 89, 73, 110, 100, 101, 120, 101, 100],
        AddressingMode::Accumulator => seq![65u8, 99, 99, 117, 109, 117, 108, 97, 116, 111, 114],
        AddressingMode::Implied => seq![73u8, 109, 112, 108, 105, 101, 100],
        AddressingMode::Immediate => seq![73u8, 109, 109, 101, 100, 105, 97, 116, 101],
        AddressingMode::Indirect => seq![73u8, 110, 100, 105, 114, 101, 99, 116],
        AddressingMode::IndirectYIndexed => seq![73u8, 110, 100, 105, 114, 101, 99, 116, 89, 73, 110, 100, 101, 120, 101, 100],
        AddressingMode::Relative => seq![82u8, 101, 108, 97, 116, 105, 118, 101],
        AddressingMode::XIndexedIndirect => seq![88u8, 73, 110, 100, 101, 120, 101, 100, 73, 110, 100, 105, 114, 101, 99, 116],
        AddressingMode::ZeroPage => seq![90u8, 101, 114, 111, 80, 97, 103, 101],
        AddressingMode::ZeroPageXIndexed => seq![90u8, 101, 114, 111, 80, 97, 103, 101, 88, 73, 110, 100, 101, 120, 101, 100],
        AddressingMode::ZeroPageYIndexed => seq![90u8, 101, 114, 111, 80, 97, 103, 101, 89, 73, 110, 100, 101, 120, 101, 100],
    }
}

proof fn lemma_names_ascii(t: InstructionType, m: AddressingMode)
    ensures
        spec_is_ascii(spec_instruction_type_name(t)),
        spec_is_ascii(spec_addressing_mode_name(m)),
{
    let a = spec_instruction_type_name(t);
    let b = spec_addressing_mode_name(m);
    assert forall|i: int| 0 <= i < a.len() implies #[trigger] a[i] < 128 by {
        assert(65 <= a[i] <= 122);
    }
    assert forall|i: int| 0 <= i < b.len() implies #[trigger] b[i] < 128 by {
        assert(65 <= b[i] <= 122);
    }
}

/// The name of an instruction type put after the bytes of `out`.
fn push_instruction_type_name(out: &mut Vec<u8>, t: InstructionType)
    ensures
        final(out)@ == old(out)@ + spec_instruction_type_name(t),
{
    let name: [u8; 3] = match t {
        InstructionType::Adc => [65, 100, 99],
        InstructionType::Ahx => [65, 104, 120],
        InstructionType::Alr => [65, 108, 114],
        InstructionType::Anc => [65, 110, 99],
        InstructionType::And => [65, 110, 100],
        InstructionType::Arr => [65, 114, 114],
        InstructionType::Asl => [65, 115, 108],
        InstructionType::Axs => [65, 120, 115],
        InstructionType::Bcc => [66, 99, 99],
        InstructionType::Bcs => [66, 99, 115],
        InstructionType::Beq => [66, 101, 113],
        InstructionType::Bit => [66, 105, 116],
        InstructionType::Bmi => [66, 109, 105],
        InstructionType::Bne => [66, 110, 101],
        InstructionType::Bpl => [66, 112, 108],
        InstructionType::Brk => [66, 114, 107],
        InstructionType::Bvc => [66, 118, 99],
        InstructionType::Bvs => [66, 118, 115],
        InstructionType::Clc => [67, 108, 99],
        InstructionType::Cld => [67, 108, 100],
        InstructionType::Cli => [67, 108, 105],
        InstructionType::Clv => [67, 108, 118],
        InstructionType::Cmp => [67, 109, 112],
        InstructionType::Cpx => [67, 112, 120],
        InstructionType::Cpy => [67, 112, 121],
        InstructionType::Dcp => [68, 99, 112],
        InstructionType::Dec => [68, 101, 99],
        InstructionType::Dex => [68, 101, 120],
        InstructionType::Dey => [68, 101, 121],
        InstructionType::Eor => [69, 111, 114],
        InstructionType::Ign => [73, 103, 110],
        InstructionType::Inc => [73, 110, 99],
        InstructionType::Inx => [73, 110, 120],
        InstructionType::Iny => [73, 110, 121],
        InstructionType::Isc => [73, 115, 99],
        InstructionType::Jmp => [74, 109, 112],
        InstructionType::Jsr => [74, 115, 114],
        InstructionType::Lax => [76, 97, 120],
        InstructionType::Lda => [76, 100, 97],
        InstructionType::Ldx => [76, 100, 120],
        InstructionType::Ldy => [76, 100, 121],
        InstructionType::Lsr => [76, 115, 114],
        InstructionType::Nop => [78, 111, 112],
        InstructionType::Ora => [79, 114, 97],
        InstructionType::Pha => [80, 104, 97],
        InstructionType::Php => [80, 104, 112],
        InstructionType::Pla => [80, 108, 97],
        InstructionType::Plp => [80, 108, 112],
        InstructionType::Rla => [82, 108, 97],
        InstructionType::Rol => [82, 111, 108],
        InstructionType::Ror => [82, 111, 114],
        InstructionType::Rra => [82, 114, 97],
        InstructionType::Rti => [82, 116, 105],
        InstructionType::Rts => [82, 116, 115],
        InstructionType::Sax => [83, 97, 120],
        InstructionType::Sbc => [83, 98, 99],
        InstructionType::Sec => [83, 101, 99],
        InstructionType::Sed => [83, 101, 100],
        InstructionType::Sei => [83, 101, 105],
        InstructionType::Skb => [83, 107, 98],
        InstructionType::Slo => [83, 108, 111],
        InstructionType::Sre => [83, 114, 101],
        InstructionType::Sta => [83, 116, 97],
        InstructionType::Stx => [83, 116, 120],
        InstructionType::Sty => [83, 116, 121],
        InstructionType::Sxa => [83, 120, 97],
        InstructionType::Sya => [83, 121, 97],
        InstructionType::Tax => [84, 97, 120],
        InstructionType::Tay => [84, 97, 121],
        InstructionType::Tsx => [84, 115, 120],
        InstructionType::Txa => [84, 120, 97],
        InstructionType::Txs => [84, 120, 115],
        InstructionType::Tya => [84, 121, 97],
    };
    push_all(out, name.as_slice());
    assert(name@ =~= spec_instruction_type_name(t));
}

/// The name of an addressing mode put after the bytes of `out`.
fn push_addressing_mode_name(out: &mut Vec<u8>, m: AddressingMode)
    ensures
        final(out)@ == old(out)@ + spec_addressing_mode_name(m),
{
    match m {
        AddressingMode::Absolute => {
            let name: [u8; 8] = [65, 98, 115, 111, 108, 117, 116, 101];
            push_all(out, name.as_slice());
            assert(name@ =~= spec_addressing_mode_name(m));
        },
        AddressingMode::AbsoluteXIndexed => {
            let name: [u8; 16] = [65, 98, 115, 111, 108, 117, 116, 101, 88, 73, 110, 100, 101, 120, 101, 100];
            push_all(out, name.as_slice());
            assert(name@ =~= spec_addressing_mode_name(m));
        },
        AddressingMode::AbsoluteYIndexed => {
            let name: [u8; 16] = [65, 98, 115, 111, 108, 117, 116, 101, 89, 73, 110, 100, 101, 120, 101, 100];
            push_all(out, name.as_slice());
            assert(name@ =~= spec_addressing_mode_name(m));
        },
        AddressingMode::Accumulator => {
            let name: [u8; 11] = [65, 99, 99, 117, 109, 117, 108, 97, 116, 111, 114];
            push_all(out, name.as_slice());
            assert(name@ =~= spec_addressing_mode_name(m));
        },
        AddressingMode::Implied => {
            let name: [u8; 7] = [73, 109, 112, 108, 105, 101, 100];
            push_all(out, name.as_slice());
            assert(name@ =~= spec_addressing_mode_name(m));
        },
        AddressingMode::Immediate => {
            let name: [u8; 9] = [73, 109, 109, 101, 100, 105, 97, 116, 101];
            push_all(out, name.as_slice());
            assert(name@ =~= spec_addressing_mode_name(m));
        },
        AddressingMode::Indirect => {
            let name: [u8; 8] = [73, 110, 100, 105, 114, 101, 99, 116];
            push_all(out, name.as_slice());
            assert(name@ =~= spec_addressing_mode_name(m));
        },
        AddressingMode::IndirectYIndexed => {
            let name: [u8; 16] = [73, 110, 100, 105, 114, 101, 99, 116, 89, 73, 110, 100, 101, 120, 101, 100];
            push_all(out, name.as_slice());
            assert(name@ =~= spec_addressing_mode_name(m));
        },
        AddressingMode::Relative => {
            let name: [u8; 8] = [82, 101, 108, 97, 116, 105, 118, 101];
            push_all(out, name.as_slice());
            assert(name@ =~= spec_addressing_mode_name(m));
        },
        AddressingMode::XIndexedIndirect => {
            let name: [u8; 16] = [88, 73, 110, 100, 101, 120, 101, 100, 73, 110, 100, 105, 114, 101, 99, 116];
            push_all(out, name.as_slice());
            assert(name@ =~= spec_addressing_mode_name(m));
        },
        AddressingMode::ZeroPage => {
            let name: [u8; 8] = [90, 101, 114, 111, 80, 97, 103, 101];
            push_all(out, name.as_slice());
            assert(name@ =~= spec_addressing_mode_name(m));
        },
        AddressingMode::ZeroPageXIndexed => {
            let name: [u8; 16] = [90, 101, 114, 111, 80, 97, 103, 101, 88, 73, 110, 100, 101, 120, 101, 100];
            push_all(out, name.as_slice());
            assert(name@ =~= spec_addressing_mode_name(m));
        },
        AddressingMode::ZeroPageYIndexed => {
            let name: [u8; 16] = [90, 101, 114, 111, 80, 97, 103, 101, 89, 73, 110, 100, 101, 120, 101, 100];
            push_all(out, name.as_slice());
            assert(name@ =~= spec_addressing_mode_name(m));
        },
    }
}

/// The operand of an instruction in hexadecimal: one byte as two digits, two bytes as the
/// four digits of the little-endian number they make, nothing otherwise.
pub open spec fn spec_operand_text(operand: Seq<u8>) -> Seq<u8> {
    if operand.len() == 1 {
        spec_hex_padded(operand[0] as nat, 2)
    } else if operand.len() == 2 {
        spec_hex_padded(operand[1] as nat * 256 + operand[0] as nat, 4)
    } else {
        Seq::empty()
    }
}

/// An instruction as text: its address in four hexadecimal digits, two spaces, the
/// instruction type, the addressing mode in brackets, a space and the operand.
pub open spec fn spec_instruction_text(address: Address, instruction: Instruction, operand: Seq<u8>) -> Seq<u8> {
    spec_hex_padded(address as nat, 4) + seq![32u8, 32] + spec_instruction_type_name(instruction.instruction_type) + seq![40u8]
        + spec_addressing_mode_name(instruction.addressing_mode) + seq![41u8, 32] + spec_operand_text(operand)
}

pub proof fn lemma_instruction_text_ascii(address: Address, instruction: Instruction, operand: Seq<u8>)
    ensures
        spec_is_ascii(spec_instruction_text(address, instruction, operand)),
{
    lemma_names_ascii(instruction.instruction_type, instruction.addressing_mode);
    lemma_hex_padded_ascii(address as nat, 4);
    if operand.len() == 1 {
        lemma_hex_padded_ascii(operand[0] as nat, 2);
    } else if operand.len() == 2 {
        lemma_hex_padded_ascii(operand[1] as nat * 256 + operand[0] as nat, 4);
    }
    let s0 = spec_hex_padded(address as nat, 4);
    let s1 = s0 + seq![32u8, 32];
    let s2 = s1 + spec_instruction_type_name(instruction.instruction_type);
    let s3 = s2 + seq![40u8];
    let s4 = s3 + spec_addressing_mode_name(instruction.addressing_mode);
    let s5 = s4 + seq![41u8, 32];
    assert(spec_is_ascii(seq![32u8, 32]));
    assert(spec_is_ascii(seq![40u8]));
    assert(spec_is_ascii(seq![41u8, 32]));
    assert(spec_is_ascii(Seq::<u8>::empty()));
    lemma_ascii_concat(s0, seq![32u8, 32]);
    lemma_ascii_concat(s1, spec_instruction_type_name(instruction.instruction_type));
    lemma_ascii_concat(s2, seq![40u8]);
    lemma_ascii_concat(s3, spec_addressing_mode_name(instruction.addressing_mode));
    lemma_ascii_concat(s4, seq![41u8, 32]);
    lemma_ascii_concat(s5, spec_operand_text(operand));
}

impl InstructionWithOperand {
    /// The instruction as text put after the bytes of `out`.
    pub fn push_text(&self, out: &mut Vec<u8>)
        ensures
            final(out)@ == old(out)@ + spec_instruction_text(self.address, self.instruction, self.operand@),
    {
        push_hex_padded(out, self.address as u64, 4);
        let spaces: [u8; 2] = [32, 32];
        push_all(out, spaces.as_slice());
        push_instruction_type_name(out, self.instruction.instruction_type);
        let open: [u8; 1] = [40];
        push_all(out, open.as_slice());
        push_addressing_mode_name(out, self.instruction.addressing_mode);
        let close: [u8; 2] = [41, 32];
        push_all(out, close.as_slice());
        let ghost before_operand = out@;
        if self.operand.len() == 1 {
            push_hex_padded(out, self.operand[0] as u64, 2);
        } else if self.operand.len() == 2 {
            let value = (self.operand[1] as u16) * 256 + self.operand[0] as u16;
            push_hex_padded(out, value as u64, 4);
        }
        assert(spaces@ =~= seq![32u8, 32]);
        assert(open@ =~= seq![40u8]);
        assert(close@ =~= seq![41u8, 32]);
        assert(out@ =~= old(out)@ + spec_instruction_text(self.address, self.instruction, self.operand@));
    }

    /// The instruction as text: its address, type, addressing mode and operand.
    pub fn to_string(&self) -> (r: String)
        ensures
            r@ == spec_chars(spec_instruction_text(self.address, self.instruction, self.operand@)),
    {
        let mut out: Vec<u8> = Vec::new();
        self.push_text(&mut out);
        proof {
            lemma_instruction_text_ascii(self.address, self.instruction, self.operand@);
            assert(out@ =~= spec_instruction_text(self.address, self.instruction, self.operand@));
        }
        ascii_string(out)
    }
}

/// The bytes of a line of a hex dump: each in two hexadecimal digits followed by two spaces.
pub open spec fn spec_hex_bytes(bytes: Seq<u8>) -> Seq<u8>
    decreases bytes.len(),
{
    if bytes.len() == 0 {
        Seq::empty()
    } else {
        spec_hex_bytes(bytes.drop_last()) + spec_hex_padded(bytes.last() as nat, 2) + seq![32u8, 32]
    }
}

/// One line of a hex dump: the address of its first byte in at least four hexadecimal
/// digits, ": ", its bytes and a newline.
pub open spec fn spec_hex_dump_line(address: nat, bytes: Seq<u8>) -> Seq<u8> {
    spec_hex_padded(address, 4) + seq![58u8, 32] + spec_hex_bytes(bytes) + seq![10u8]
}

/// A hex dump of `data`, whose first byte is at `address`: a line for each `width` bytes,
/// the last one shorter when the bytes run out.
pub open spec fn spec_hex_dump(data: Seq<u8>, address: nat, width: nat) -> Seq<u8>
    decreases data.len(),
{
    if width == 0 || data.len() == 0 {
        Seq::empty()
    } else {
        let n = if data.len() < width { data.len() } else { width };
        spec_hex_dump_line(address, data.take(n as int)) + spec_hex_dump(data.skip(n as int), address + width, width)
    }
}

proof fn lemma_hex_bytes_ascii(bytes: Seq<u8>)
    ensures
        spec_is_ascii(spec_hex_bytes(bytes)),
    decreases bytes.len(),
{
    if bytes.len() > 0 {
        lemma_hex_bytes_ascii(bytes.drop_last());
        lemma_hex_padded_ascii(bytes.last() as nat, 2);
        assert(spec_is_ascii(seq![32u8, 32]));
        lemma_ascii_concat(spec_hex_bytes(bytes.drop_last()), spec_hex_padded(bytes.last() as nat, 2));
        lemma_ascii_concat(spec_hex_bytes(bytes.drop_last()) + spec_hex_padded(bytes.last() as nat, 2), seq![32u8, 32]);
    }
}

proof fn lemma_hex_dump_ascii(data: Seq<u8>, address: nat, width: nat)
    ensures
        spec_is_ascii(spec_hex_dump(data, address, width)),
    decreases data.len(),
{
    if width > 0 && data.len() > 0 {
        let n = if data.len() < width { data.len() } else { width };
        lemma_hex_dump_ascii(data.skip(n as int), address + width, width);
        let line = data.take(n as int);
        lemma_hex_padded_ascii(address, 4);
        lemma_hex_bytes_ascii(line);
        assert(spec_is_ascii(seq![58u8, 32]));
        assert(spec_is_ascii(seq![10u8]));
        lemma_ascii_concat(spec_hex_padded(address, 4), seq![58u8, 32]);
        lemma_ascii_concat(spec_hex_padded(address, 4) + seq![58u8, 32], spec_hex_bytes(line));
        lemma_ascii_concat(spec_hex_padded(address, 4) + seq![58u8, 32] + spec_hex_bytes(line), seq![10u8]);
        lemma_ascii_concat(spec_hex_dump_line(address, line), spec_hex_dump(data.skip(n as int), address + width, width));
    }
}

/// A hex dump of `data`, whose first byte is at `address_offset`, in lines of `line_width`
/// bytes.
pub fn bytes_hex_text(data: &[u8], address_offset: u16, line_width: usize) -> (r: String)
    requires
        line_width > 0,
        data@.len() + 0x10000 <= usize::MAX,
    ensures
        r@ == spec_chars(spec_hex_dump(data@, address_offset as nat, line_width as nat)),
{
    let ghost total = spec_hex_dump(data@, address_offset as nat, line_width as nat);
    let mut out: Vec<u8> = Vec::new();
    let separator: [u8; 2] = [58, 32];
    let spaces: [u8; 2] = [32, 32];
    let newline: [u8; 1] = [10];
    assert(separator@ =~= seq![58u8, 32]);
    assert(spaces@ =~= seq![32u8, 32]);
    assert(newline@ =~= seq![10u8]);
    let mut start: usize = 0;
    assert(data@.subrange(0, data@.len() as int) =~= data@);
    while start < data.len()
        invariant
            start <= data@.len(),
            line_width > 0,
            data@.len() + 0x10000 <= usize::MAX,
            separator@ == seq![58u8, 32],
            spaces@ == seq![32u8, 32],
            newline@ == seq![10u8],
            total == out@ + spec_hex_dump(data@.subrange(start as int, data@.len() as int), (address_offset + start) as nat, line_width as nat),
        decreases data@.len() - start,
    {
        let ghost rest = data@.subrange(start as int, data@.len() as int);
        let end = if data.len() - start < line_width { data.len() } else { start + line_width };
        let ghost line_start = out@;
        push_hex_padded(&mut out, address_offset as u64 + start as u64, 4);
        push_all(&mut out, separator.as_slice());
        let ghost bytes_start = out@;
        let mut j: usize = start;
        while j < end
            invariant
                start <= j <= end <= data@.len(),
                spaces@ == seq![32u8, 32],
                out@ == bytes_start + spec_hex_bytes(data@.subrange(start as int, j as int)),
            decreases end - j,
        {
            push_hex_padded(&mut out, data[j] as u64, 2);
            push_all(&mut out, spaces.as_slice());
            proof {
                let b = data@.subrange(start as int, j + 1);
                assert(b.drop_last() =~= data@.subrange(start as int, j as int));
                assert(b.last() == data@[j as int]);
            }
            j += 1;
        }
        push_all(&mut out, newline.as_slice());
        proof {
            let n = end - start;
            let address = (address_offset + start) as nat;
            let w = line_width as nat;
            let line = spec_hex_dump_line(address, rest.take(n as int));
            let next = data@.subrange(end as int, data@.len() as int);
            assert(rest.take(n as int) =~= data@.subrange(start as int, end as int));
            assert(rest.skip(n as int) =~= next);
            assert(out@ =~= line_start + line);
            assert(spec_hex_dump(rest, address, w) == line + spec_hex_dump(rest.skip(n as int), address + w, w));
            if end < data@.len() {
                assert(end == start + line_width);
                assert(address + w == (address_offset + end) as nat);
            } else {
                assert(next =~= Seq::<u8>::empty());
                assert(spec_hex_dump(next, address + w, w) == Seq::<u8>::empty());
                assert(spec_hex_dump(next, (address_offset + end) as nat, w) == Seq::<u8>::empty());
            }
            assert(spec_hex_dump(next, address + w, w) == spec_hex_dump(next, (address_offset + end) as nat, w));
            assert(line_start + (line + spec_hex_dump(next, address + w, w)) =~= (line_start + line) + spec_hex_dump(next, address + w, w));
        }
        start = end;
    }
    proof {
        assert(data@.subrange(start as int, data@.len() as int) =~= Seq::<u8>::empty());
        assert(out@ =~= total);
        lemma_hex_dump_ascii(data@, address_offset as nat, line_width as nat);
    }
    ascii_string(out)
}

} // verus!
