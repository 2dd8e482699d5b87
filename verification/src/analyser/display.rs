//! Function traces written out as text, one step per line.
use vstd::prelude::*;
use super::{FunctionStep, FunctionStepView, FunctionTrace, InstructionView};
use crate::debug::display::{lemma_instruction_text_ascii, spec_instruction_text};
use crate::text::{
    ascii_string, lemma_ascii_concat, lemma_hex_ascii, lemma_hex_padded_ascii, push_all, push_hex, push_hex_padded,
    spec_chars, spec_hex, spec_hex_padded, spec_is_ascii,
};

verus! {

pub open spec fn spec_instruction_view_text(i: InstructionView) -> Seq<u8> {
    spec_instruction_text(i.address, i.instruction, i.operand)
}

/// " <--- END"
pub open spec fn spec_end_marker() -> Seq<u8> {
    seq![32u8, 60, 45, 45, 45, 32, 69, 78, 68]
}

/// " (relative: "
pub open spec fn spec_relative_label() -> Seq<u8> {
    seq![32u8, 40, 114, 101, 108, 97, 116, 105, 118, 101, 58, 32]
}

/// ", absolute: "
pub open spec fn spec_absolute_label() -> Seq<u8> {
    seq![44u8, 32, 97, 98, 115, 111, 108, 117, 116, 101, 58, 32]
}

/// "  ???????? ("
pub open spec fn spec_invalid_label() -> Seq<u8> {
    seq![32u8, 32, 63, 63, 63, 63, 63, 63, 63, 63, 32, 40]
}

/// A step as text: the instruction; for an indirect jump, marked as the end; for a branch,
/// followed by its offset (as the byte it is stored in) and its target in hexadecimal; for an
/// invalid opcode, its address and the opcode.
pub open spec fn spec_step_text(s: FunctionStepView) -> Seq<u8> {
    match s {
        FunctionStepView::TracedInstruction(i) => spec_instruction_view_text(i),
        FunctionStepView::FunctionCall { instruction, .. } => spec_instruction_view_text(instruction),
        FunctionStepView::JumpIndirect(i) => spec_instruction_view_text(i) + spec_end_marker(),
        FunctionStepView::Branch { instruction, absolute_target, relative_target } => spec_instruction_view_text(instruction)
            + spec_relative_label() + spec_hex(relative_target as u8 as nat) + spec_absolute_label()
            + spec_hex(absolute_target as nat) + seq![41u8],
        FunctionStepView::InvalidOpcode { address, opcode } => spec_hex_padded(address as nat, 4) + spec_invalid_label()
            + spec_hex_padded(opcode as nat, 2) + seq![41u8],
    }
}

/// The steps as text, each on a line of its own.
pub open spec fn spec_trace_text(steps: Seq<FunctionStepView>) -> Seq<u8>
    decreases steps.len(),
{
    if steps.len() == 0 {
        Seq::empty()
    } else {
        spec_trace_text(steps.drop_last()) + spec_step_text(steps.last()) + seq![10u8]
    }
}

proof fn lemma_literal_ascii()
    ensures
        spec_is_ascii(spec_end_marker()),
        spec_is_ascii(spec_relative_label()),
        spec_is_ascii(spec_absolute_label()),
        spec_is_ascii(spec_invalid_label()),
        spec_is_ascii(seq![41u8]),
        spec_is_ascii(seq![10u8]),
{
    let a = spec_end_marker();
    let b = spec_relative_label();
    let c = spec_absolute_label();
    let d = spec_invalid_label();
    assert forall|i: int| 0 <= i < a.len() implies #[trigger] a[i] < 128 by {}
    assert forall|i: int| 0 <= i < b.len() implies #[trigger] b[i] < 128 by {}
    assert forall|i: int| 0 <= i < c.len() implies #[trigger] c[i] < 128 by {}
    assert forall|i: int| 0 <= i < d.len() implies #[trigger] d[i] < 128 by {}
}

proof fn lemma_step_text_ascii(s: FunctionStepView)
    ensures
        spec_is_ascii(spec_step_text(s)),
{
    lemma_literal_ascii();
    match s {
        FunctionStepView::TracedInstruction(i) => {
            lemma_instruction_text_ascii(i.address, i.instruction, i.operand);
        },
        FunctionStepView::FunctionCall { instruction, .. } => {
            lemma_instruction_text_ascii(instruction.address, instruction.instruction, instruction.operand);
        },
        FunctionStepView::JumpIndirect(i) => {
            lemma_instruction_text_ascii(i.address, i.instruction, i.operand);
            lemma_ascii_concat(spec_instruction_view_text(i), spec_end_marker());
        },
        FunctionStepView::Branch { instruction, absolute_target, relative_target } => {
            lemma_instruction_text_ascii(instruction.address, instruction.instruction, instruction.operand);
            lemma_hex_ascii(relative_target as u8 as nat);
            lemma_hex_ascii(absolute_target as nat);
            let t0 = spec_instruction_view_text(instruction);
            lemma_ascii_concat(t0, spec_relative_label());
            let t1 = t0 + spec_relative_label();
            lemma_ascii_concat(t1, spec_hex(relative_target as u8 as nat));
            let t2 = t1 + spec_hex(relative_target as u8 as nat);
            lemma_ascii_concat(t2, spec_absolute_label());
            let t3 = t2 + spec_absolute_label();
            lemma_ascii_concat(t3, spec_hex(absolute_target as nat));
            lemma_ascii_concat(t3 + spec_hex(absolute_target as nat), seq![41u8]);
        },
        FunctionStepView::InvalidOpcode { address, opcode } => {
            lemma_hex_padded_ascii(address as nat, 4);
            lemma_hex_padded_ascii(opcode as nat, 2);
            let t0 = spec_hex_padded(address as nat, 4);
            lemma_ascii_concat(t0, spec_invalid_label());
            let t1 = t0 + spec_invalid_label();
            lemma_ascii_concat(t1, spec_hex_padded(opcode as nat, 2));
            lemma_ascii_concat(t1 + spec_hex_padded(opcode as nat, 2), seq![41u8]);
        },
    }
}

proof fn lemma_trace_text_ascii(steps: Seq<FunctionStepView>)
    ensures
        spec_is_ascii(spec_trace_text(steps)),
    decreases steps.len(),
{
    if steps.len() > 0 {
        lemma_trace_text_ascii(steps.drop_last());
        lemma_step_text_ascii(steps.last());
        lemma_literal_ascii();
        lemma_ascii_concat(spec_trace_text(steps.drop_last()), spec_step_text(steps.last()));
        lemma_ascii_concat(spec_trace_text(steps.drop_last()) + spec_step_text(steps.last()), seq![10u8]);
    }
}

impl FunctionStep {
    /// The step as text put after the bytes of `out`.
    fn push_text(&self, out: &mut Vec<u8>)
        ensures
            final(out)@ == old(out)@ + spec_step_text(self@),
    {
        let close: [u8; 1] = [41];
        assert(close@ =~= seq![41u8]);
        match self {
            FunctionStep::TracedInstruction(i) => {
                i.push_text(out);
            },
            FunctionStep::FunctionCall { instruction_with_operand, .. } => {
                instruction_with_operand.push_text(out);
            },
            FunctionStep::JumpIndirect(i) => {
                i.push_text(out);
                let end: [u8; 9] = [32, 60, 45, 45, 45, 32, 69, 78, 68];
                push_all(out, end.as_slice());
                assert(end@ =~= spec_end_marker());
            },
            FunctionStep::Branch { instruction_with_operand, absolute_target, relative_target } => {
                instruction_with_operand.push_text(out);
                let relative: [u8; 12] = [32, 40, 114, 101, 108, 97, 116, 105, 118, 101, 58, 32];
                push_all(out, relative.as_slice());
                assert(relative@ =~= spec_relative_label());
                push_hex(out, *relative_target as u8 as u64);
                let absolute: [u8; 12] = [44, 32, 97, 98, 115, 111, 108, 117, 116, 101, 58, 32];
                push_all(out, absolute.as_slice());
                assert(absolute@ =~= spec_absolute_label());
                push_hex(out, *absolute_target as u64);
                push_all(out, close.as_slice());
            },
            FunctionStep::InvalidOpcode { address, opcode } => {
                push_hex_padded(out, *address as u64, 4);
                let invalid: [u8; 12] = [32, 32, 63, 63, 63, 63, 63, 63, 63, 63, 32, 40];
                push_all(out, invalid.as_slice());
                assert(invalid@ =~= spec_invalid_label());
                push_hex_padded(out, *opcode as u64, 2);
                push_all(out, close.as_slice());
            },
        }
        assert(out@ =~= old(out)@ + spec_step_text(self@));
    }

    /// The step as text.
    pub fn to_string(&self) -> (r: String)
        ensures
            r@ == spec_chars(spec_step_text(self@)),
    {
        let mut out: Vec<u8> = Vec::new();
        self.push_text(&mut out);
        proof {
            lemma_step_text_ascii(self@);
            assert(out@ =~= spec_step_text(self@));
        }
        ascii_string(out)
    }
}

impl FunctionTrace {
    /// The steps as text, one per line.
    pub fn to_string(&self) -> (r: String)
        ensures
            r@ == spec_chars(spec_trace_text(self@)),
    {
        let mut out: Vec<u8> = Vec::new();
        let newline: [u8; 1] = [10];
        assert(newline@ =~= seq![10u8]);
        let mut i: usize = 0;
        while i < self.steps.len()
            invariant
                i <= self.steps@.len(),
                newline@ == seq![10u8],
                out@ == spec_trace_text(self@.take(i as int)),
            decreases self.steps@.len() - i,
        {
            self.steps[i].push_text(&mut out);
            push_all(&mut out, newline.as_slice());
            proof {
                let t = self@.take(i as int + 1);
                assert(t.drop_last() =~= self@.take(i as int));
                assert(t.last() == self.steps@[i as int]@);
            }
            i += 1;
        }
        proof {
            assert(self@.take(i as int) =~= self@);
            lemma_trace_text_ascii(self@);
        }
        ascii_string(out)
    }
}

} // verus!
