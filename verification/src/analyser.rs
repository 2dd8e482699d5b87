//! Static analysis of a 6502 program in memory: the instructions of each function, found by
//! following control flow from the function's first instruction, and the call graph.
use vstd::prelude::*;
use std::collections::{BTreeMap, BTreeSet};
use vstd::std_specs::iter::IteratorSpec;
use crate::address;
use crate::debug::{spec_decode, spec_operand_bytes, AddressingMode, Instruction, InstructionType, InstructionWithOperand};
use crate::instruction::jsr;
use crate::machine::MemoryReadOnly;
use crate::Address;

pub mod display;
pub mod dot;

verus! {

broadcast use vstd::std_specs::btree::group_btree_axioms;

/// The contents of memory as a function from address to byte.
pub open spec fn spec_memory<M: MemoryReadOnly>(memory: &M) -> spec_fn(Address) -> u8 {
    |a: Address| memory.spec_read_u8_read_only(a)
}

/// How a program lays out its code, for finding where called functions begin.
pub trait MemoryMap {
    /// Where the function called by the JSR opcode at `jsr_opcode_address` begins, as this
    /// map reads the program in `memory`, if it can tell.
    spec fn spec_normalise_function_call(&self, jsr_opcode_address: Address, memory: spec_fn(Address) -> u8) -> Option<Address>;

    /// Takes the address of a JSR opcode and returns the address of the beginning of the
    /// function being called.
    fn normalise_function_call<M: MemoryReadOnly>(&self, jsr_opcode_address: Address, memory: &M) -> (r: Option<Address>)
        ensures
            r == self.spec_normalise_function_call(jsr_opcode_address, spec_memory(memory)),
    ;
}

/// A memory map in which each function is called at the address it begins at: the callee
/// of a JSR is its absolute operand.
pub struct CallTargetMemoryMap;

impl MemoryMap for CallTargetMemoryMap {
    open spec fn spec_normalise_function_call(&self, jsr_opcode_address: Address, memory: spec_fn(Address) -> u8) -> Option<Address> {
        Some(address::spec_from_lo_hi(memory(jsr_opcode_address.wrapping_add(1)), memory(jsr_opcode_address.wrapping_add(2))))
    }

    fn normalise_function_call<M: MemoryReadOnly>(&self, jsr_opcode_address: Address, memory: &M) -> (r: Option<Address>) {
        let lo = memory.read_u8_read_only(jsr_opcode_address.wrapping_add(1));
        let hi = memory.read_u8_read_only(jsr_opcode_address.wrapping_add(2));
        Some(address::from_u8_lo_hi(lo, hi))
    }
}

/// An instruction at an address and its operand bytes.
pub struct InstructionView {
    pub address: Address,
    pub instruction: Instruction,
    pub operand: Seq<u8>,
}

pub open spec fn spec_instruction_view(i: InstructionWithOperand) -> InstructionView {
    InstructionView { address: i.address, instruction: i.instruction, operand: i.operand@ }
}

/// The instruction decoded at `a`, if the byte there is an opcode.
pub open spec fn spec_decoded(memory: spec_fn(Address) -> u8, a: Address) -> Option<InstructionView> {
    match spec_decode(memory(a)) {
        Some((t, m)) => Some(InstructionView {
            address: a,
            instruction: Instruction { instruction_type: t, addressing_mode: m },
            operand: Seq::new(spec_operand_bytes(m), |i: int| memory(a.wrapping_add(i as u16).wrapping_add(1))),
        }),
        None => None,
    }
}

/// The address after the instruction at `a` of the given size.
pub open spec fn spec_next_address(a: Address, m: AddressingMode) -> Address {
    a.wrapping_add((1 + spec_operand_bytes(m)) as u16)
}

/// Where a branch at `a` goes when taken: its signed offset added to the address after it.
pub open spec fn spec_branch_target(memory: spec_fn(Address) -> u8, a: Address) -> Address {
    spec_next_address(a, AddressingMode::Relative).wrapping_add((memory(a.wrapping_add(1)) as i8) as i16 as u16)
}

pub open spec fn spec_is_branch(t: InstructionType) -> bool {
    t is Bcc || t is Bcs || t is Beq || t is Bmi || t is Bne || t is Bpl || t is Bvc || t is Bvs
}

/// One step of a function trace.
pub enum FunctionStep {
    InvalidOpcode { address: Address, opcode: u8 },
    JumpIndirect(InstructionWithOperand),
    TracedInstruction(InstructionWithOperand),
    FunctionCall { instruction_with_operand: InstructionWithOperand, callee: Address },
    Branch { instruction_with_operand: InstructionWithOperand, absolute_target: Address, relative_target: i8 },
}

pub enum FunctionStepView {
    InvalidOpcode { address: Address, opcode: u8 },
    JumpIndirect(InstructionView),
    TracedInstruction(InstructionView),
    FunctionCall { instruction: InstructionView, callee: Address },
    Branch { instruction: InstructionView, absolute_target: Address, relative_target: i8 },
}

impl View for FunctionStep {
    type V = FunctionStepView;

    open spec fn view(&self) -> FunctionStepView {
        match *self {
            FunctionStep::InvalidOpcode { address, opcode } => FunctionStepView::InvalidOpcode { address, opcode },
            FunctionStep::JumpIndirect(i) => FunctionStepView::JumpIndirect(spec_instruction_view(i)),
            FunctionStep::TracedInstruction(i) => FunctionStepView::TracedInstruction(spec_instruction_view(i)),
            FunctionStep::FunctionCall { instruction_with_operand, callee } => FunctionStepView::FunctionCall {
                instruction: spec_instruction_view(instruction_with_operand),
                callee,
            },
            FunctionStep::Branch { instruction_with_operand, absolute_target, relative_target } => FunctionStepView::Branch {
                instruction: spec_instruction_view(instruction_with_operand),
                absolute_target,
                relative_target,
            },
        }
    }
}

/// The address of the instruction a step describes.
pub open spec fn spec_step_address(s: FunctionStepView) -> Address {
    match s {
        FunctionStepView::InvalidOpcode { address, .. } => address,
        FunctionStepView::JumpIndirect(i) => i.address,
        FunctionStepView::TracedInstruction(i) => i.address,
        FunctionStepView::FunctionCall { instruction, .. } => instruction.address,
        FunctionStepView::Branch { instruction, .. } => instruction.address,
    }
}

/// The step a trace records for the instruction at `a`: an invalid opcode; an indirect jump,
/// where the trace cannot follow; a call, with the called address; a branch, with both
/// targets; or an instruction traced through.
pub open spec fn spec_step_at(memory: spec_fn(Address) -> u8, a: Address) -> FunctionStepView {
    match spec_decoded(memory, a) {
        None => FunctionStepView::InvalidOpcode { address: a, opcode: memory(a) },
        Some(i) => {
            let t = i.instruction.instruction_type;
            if t is Jmp && i.instruction.addressing_mode is Indirect {
                FunctionStepView::JumpIndirect(i)
            } else if spec_is_branch(t) {
                FunctionStepView::Branch {
                    instruction: i,
                    absolute_target: spec_branch_target(memory, a),
                    relative_target: memory(a.wrapping_add(1)) as i8,
                }
            } else if t is Jsr {
                FunctionStepView::FunctionCall {
                    instruction: i,
                    callee: address::spec_from_lo_hi(memory(a.wrapping_add(1)), memory(a.wrapping_add(2))),
                }
            } else {
                FunctionStepView::TracedInstruction(i)
            }
        },
    }
}

/// Where control can go after the instruction at `a`, within the function: nowhere after an
/// invalid opcode, a return or an indirect jump; the target of an absolute jump; both ways
/// of a branch; otherwise (a call included) the next instruction.
pub open spec fn spec_successors(memory: spec_fn(Address) -> u8, a: Address) -> Set<Address> {
    match spec_decoded(memory, a) {
        None => Set::empty(),
        Some(i) => {
            let t = i.instruction.instruction_type;
            let m = i.instruction.addressing_mode;
            if t is Jmp {
                if m is Absolute {
                    set![address::spec_from_lo_hi(memory(a.wrapping_add(1)), memory(a.wrapping_add(2)))]
                } else {
                    Set::empty()
                }
            } else if t is Rts || t is Rti {
                Set::empty()
            } else if spec_is_branch(t) {
                set![spec_branch_target(memory, a), spec_next_address(a, m)]
            } else {
                set![spec_next_address(a, m)]
            }
        },
    }
}

/// Whether `path` follows edges of `succ`.
pub open spec fn spec_path_in(succ: spec_fn(Address) -> Set<Address>, path: Seq<Address>) -> bool {
    forall|i: int| 0 <= i < path.len() - 1 ==> #[trigger] succ(path[i]).contains(path[i + 1])
}

/// Whether `a` can be reached from `start` along edges of `succ`.
pub open spec fn spec_reachable(succ: spec_fn(Address) -> Set<Address>, start: Address, a: Address) -> bool {
    exists|path: Seq<Address>|
        #![trigger spec_path_in(succ, path)]
        path.len() >= 1 && path[0] == start && path.last() == a && spec_path_in(succ, path)
}

/// `start` reaches itself.
pub proof fn lemma_reachable_start(succ: spec_fn(Address) -> Set<Address>, start: Address)
    ensures
        spec_reachable(succ, start, start),
{
    let path = seq![start];
    assert(spec_path_in(succ, path));
}

/// Whatever follows a reachable address is reachable.
pub proof fn lemma_reachable_step(succ: spec_fn(Address) -> Set<Address>, start: Address, a: Address, b: Address)
    requires
        spec_reachable(succ, start, a),
        succ(a).contains(b),
    ensures
        spec_reachable(succ, start, b),
{
    let path = choose|path: Seq<Address>| #![trigger spec_path_in(succ, path)]
        path.len() >= 1 && path[0] == start && path.last() == a && spec_path_in(succ, path);
    let path2 = path.push(b);
    assert forall|i: int| 0 <= i < path2.len() - 1 implies #[trigger] succ(path2[i]).contains(path2[i + 1]) by {
        if i < path.len() - 1 {
            assert(succ(path[i]).contains(path[i + 1]));
        }
    }
    assert(spec_path_in(succ, path2));
}

/// A set that holds `start` and is closed under `succ` holds everything reachable from `start`.
pub proof fn lemma_closed_holds_reachable(succ: spec_fn(Address) -> Set<Address>, start: Address, s: Set<Address>, a: Address)
    requires
        s.contains(start),
        forall|x: Address, y: Address| s.contains(x) && #[trigger] succ(x).contains(y) ==> s.contains(y),
        spec_reachable(succ, start, a),
    ensures
        s.contains(a),
{
    let path = choose|path: Seq<Address>| #![trigger spec_path_in(succ, path)]
        path.len() >= 1 && path[0] == start && path.last() == a && spec_path_in(succ, path);
    lemma_path_in_closed_set(succ, path, s, path.len() - 1);
}

/// Every address of a path that starts in a closed set is in the set.
proof fn lemma_path_in_closed_set(succ: spec_fn(Address) -> Set<Address>, path: Seq<Address>, s: Set<Address>, i: int)
    requires
        0 <= i < path.len(),
        s.contains(path[0]),
        spec_path_in(succ, path),
        forall|x: Address, y: Address| s.contains(x) && #[trigger] succ(x).contains(y) ==> s.contains(y),
    ensures
        s.contains(path[i]),
    decreases i,
{
    if i > 0 {
        let k = i - 1;
        lemma_path_in_closed_set(succ, path, s, k);
        assert(succ(path[k]).contains(path[k + 1]));
    }
}

/// An address a trace holds is reachable from the function's start.
proof fn lemma_trace_address_reachable(memory: spec_fn(Address) -> u8, start: Address, steps: Seq<FunctionStepView>, a: Address)
    requires
        spec_is_trace(memory, start, steps),
        spec_addresses(steps).contains(a),
    ensures
        spec_reachable(|x: Address| spec_successors(memory, x), start, a),
{
    let i = choose|i: int| 0 <= i < spec_addresses(steps).len() && spec_addresses(steps)[i] == a;
    assert(steps[i] == spec_step_at(memory, spec_step_address(steps[i])));
}

/// A trace follows absolute jumps: when it holds a JMP (opcode 0x4C) at `a`, it also holds
/// the instruction at the jump's target, the address in the two bytes after the opcode, low
/// byte first.
pub proof fn lemma_trace_follows_absolute_jump(memory: spec_fn(Address) -> u8, start: Address, steps: Seq<FunctionStepView>, a: Address)
    requires
        spec_is_trace(memory, start, steps),
        spec_addresses(steps).contains(a),
        memory(a) == 0x4C,
    ensures
        spec_addresses(steps).contains((memory(a.wrapping_add(1)) as int + 256 * memory(a.wrapping_add(2)) as int) as Address),
{
    let succ = |x: Address| spec_successors(memory, x);
    lemma_trace_address_reachable(memory, start, steps, a);
    let target = (memory(a.wrapping_add(1)) as int + 256 * memory(a.wrapping_add(2)) as int) as Address;
    assert(succ(a).contains(target));
    lemma_reachable_step(succ, start, a, target);
}

/// A trace goes on past a subroutine call: when it holds a JSR (opcode 0x20) at `a`, it also
/// holds the instruction three bytes on, where the call returns.
pub proof fn lemma_trace_continues_after_call(memory: spec_fn(Address) -> u8, start: Address, steps: Seq<FunctionStepView>, a: Address)
    requires
        spec_is_trace(memory, start, steps),
        spec_addresses(steps).contains(a),
        memory(a) == 0x20,
    ensures
        spec_addresses(steps).contains(a.wrapping_add(3)),
{
    let succ = |x: Address| spec_successors(memory, x);
    lemma_trace_address_reachable(memory, start, steps, a);
    assert(succ(a).contains(a.wrapping_add(3)));
    lemma_reachable_step(succ, start, a, a.wrapping_add(3));
}

/// A trace follows both ways of a conditional branch: when it holds a BNE (opcode 0xD0) at
/// `a`, it also holds the instruction two bytes on and the one the signed offset in the byte
/// after the opcode points at, counted from two bytes on.
pub proof fn lemma_trace_follows_both_ways_of_a_branch(memory: spec_fn(Address) -> u8, start: Address, steps: Seq<FunctionStepView>, a: Address)
    requires
        spec_is_trace(memory, start, steps),
        spec_addresses(steps).contains(a),
        memory(a) == 0xD0,
    ensures
        spec_addresses(steps).contains(a.wrapping_add(2)),
        spec_addresses(steps).contains(
            (a as int + 2 + (memory(a.wrapping_add(1)) as i8) as int + 0x10000) as Address,
        ),
{
    let succ = |x: Address| spec_successors(memory, x);
    lemma_trace_address_reachable(memory, start, steps, a);
    let taken = (a as int + 2 + (memory(a.wrapping_add(1)) as i8) as int + 0x10000) as Address;
    let off = memory(a.wrapping_add(1));
    let next = a.wrapping_add(2);
    assert(next.wrapping_add((off as i8) as i16 as u16) == taken) by (bit_vector)
        requires
            next == a.wrapping_add(2),
            taken == (a as int + 2 + (off as i8) as int + 0x10000) as u16,
    ;
    assert(succ(a).contains(next));
    assert(succ(a).contains(taken));
    lemma_reachable_step(succ, start, a, next);
    lemma_reachable_step(succ, start, a, taken);
}

/// The steps as the trace describes them.
pub open spec fn spec_steps_view(steps: Seq<FunctionStep>) -> Seq<FunctionStepView> {
    steps.map_values(|s: FunctionStep| s@)
}

/// The addresses of the steps of a trace.
pub open spec fn spec_addresses(steps: Seq<FunctionStepView>) -> Seq<Address> {
    steps.map_values(|s: FunctionStepView| spec_step_address(s))
}

pub open spec fn spec_strictly_increasing(s: Seq<Address>) -> bool {
    forall|i: int, j: int| 0 <= i < j < s.len() ==> s[i] < s[j]
}

/// Whether `steps` is the trace of the function at `start`: one step for each instruction
/// reachable from `start`, in address order.
pub open spec fn spec_is_trace(memory: spec_fn(Address) -> u8, start: Address, steps: Seq<FunctionStepView>) -> bool {
    let succ = |a: Address| spec_successors(memory, a);
    &&& spec_strictly_increasing(spec_addresses(steps))
    &&& forall|i: int| 0 <= i < steps.len() ==> {
        &&& #[trigger] steps[i] == spec_step_at(memory, spec_step_address(steps[i]))
        &&& spec_reachable(succ, start, spec_step_address(steps[i]))
    }
    &&& forall|a: Address| spec_reachable(succ, start, a) ==> #[trigger] spec_addresses(steps).contains(a)
}

/// A strictly increasing sequence of addresses starts at least at its index.
proof fn lemma_increasing_lower_bound(s: Seq<Address>, i: int)
    requires
        spec_strictly_increasing(s),
        0 <= i < s.len(),
    ensures
        s[i] >= i,
    decreases i,
{
    if i > 0 {
        lemma_increasing_lower_bound(s, i - 1);
    }
}

/// A strictly increasing sequence of addresses ends at most at the last address less its
/// distance from the end.
proof fn lemma_increasing_upper_bound(s: Seq<Address>, i: int)
    requires
        spec_strictly_increasing(s),
        0 <= i < s.len(),
    ensures
        s[i] <= 0xFFFF - (s.len() - 1 - i),
    decreases s.len() - i,
{
    if i < s.len() - 1 {
        lemma_increasing_upper_bound(s, i + 1);
    }
}

/// A strictly increasing sequence of addresses that misses an address has fewer than 65536
/// elements.
proof fn lemma_increasing_missing_len(s: Seq<Address>, x: Address)
    requires
        spec_strictly_increasing(s),
        !s.contains(x),
    ensures
        s.len() < 0x10000,
{
    if s.len() >= 0x10000 {
        lemma_increasing_lower_bound(s, x as int);
        lemma_increasing_upper_bound(s, x as int);
        assert(s[x as int] == x);
    }
}

impl FunctionStep {
    pub fn address(&self) -> (r: Address)
        ensures
            r == spec_step_address(self@),
    {
        match self {
            FunctionStep::InvalidOpcode { address, .. } => *address,
            FunctionStep::JumpIndirect(instruction_with_operand) => instruction_with_operand.address(),
            FunctionStep::TracedInstruction(instruction_with_operand) => instruction_with_operand.address(),
            FunctionStep::FunctionCall { instruction_with_operand, .. } => instruction_with_operand.address(),
            FunctionStep::Branch { instruction_with_operand, .. } => instruction_with_operand.address(),
        }
    }
}

/// The steps of a function, in address order.
pub struct FunctionTrace {
    steps: Vec<FunctionStep>,
}

impl View for FunctionTrace {
    type V = Seq<FunctionStepView>;

    closed spec fn view(&self) -> Seq<FunctionStepView> {
        spec_steps_view(self.steps@)
    }
}

impl FunctionTrace {
    pub fn steps(&self) -> (r: &[FunctionStep])
        ensures
            spec_steps_view(r@) == self@,
    {
        self.steps.as_slice()
    }

    pub fn contains_address(&self, address: Address) -> (r: bool)
        ensures
            r == spec_addresses(self@).contains(address),
    {
        let mut i: usize = 0;
        while i < self.steps.len()
            invariant
                i <= self.steps@.len(),
                forall|j: int| 0 <= j < i ==> spec_step_address(self@[j]) != address,
            decreases self.steps@.len() - i,
        {
            if self.steps[i].address() == address {
                assert(spec_addresses(self@)[i as int] == address);
                return true;
            }
            i += 1;
        }
        proof {
            if spec_addresses(self@).contains(address) {
                let j = choose|j: int| 0 <= j < spec_addresses(self@).len() && spec_addresses(self@)[j] == address;
                assert(spec_step_address(self@[j]) == address);
            }
        }
        false
    }
}

/// Inserts a step into steps kept in address order.
fn insert_step(steps: &mut Vec<FunctionStep>, step: FunctionStep) -> (p: usize)
    requires
        spec_strictly_increasing(spec_addresses(spec_steps_view(old(steps)@))),
        !spec_addresses(spec_steps_view(old(steps)@)).contains(spec_step_address(step@)),
    ensures
        spec_strictly_increasing(spec_addresses(spec_steps_view(final(steps)@))),
        p <= old(steps)@.len(),
        spec_steps_view(final(steps)@) == spec_steps_view(old(steps)@).insert(p as int, step@),
{
    let ghost old_view = spec_steps_view(steps@);
    let address = step.address();
    let mut p: usize = 0;
    while p < steps.len() && steps[p].address() < address
        invariant
            p <= steps@.len(),
            spec_steps_view(steps@) == old_view,
            forall|j: int| 0 <= j < p ==> spec_addresses(old_view)[j] < address,
        decreases steps@.len() - p,
    {
        p += 1;
    }
    proof {
        if p < steps@.len() {
            assert(spec_addresses(old_view)[p as int] != address);
        }
    }
    steps.insert(p, step);
    proof {
        let new_view = spec_steps_view(steps@);
        assert(new_view =~= old_view.insert(p as int, step@));
        let a = spec_addresses(new_view);
        let o = spec_addresses(old_view);
        assert forall|i: int, j: int| 0 <= i < j < a.len() implies a[i] < a[j] by {
            if j < p {
                assert(a[i] == o[i] && a[j] == o[j]);
            } else if j == p {
                assert(a[i] == o[i]);
            } else if i < p {
                assert(a[i] == o[i] && a[j] == o[j - 1]);
                if p < o.len() {
                    assert(o[p as int] > address);
                }
            } else if i == p {
                assert(a[j] == o[j - 1]);
                assert(o[p as int] > address || j - 1 == p);
            } else {
                assert(a[i] == o[i - 1] && a[j] == o[j - 1]);
            }
        }
    }
    p
}

/// Jumps are absolute or indirect, calls absolute and branches relative.
proof fn lemma_decode_control_flow_modes(opcode: u8)
    ensures
        match spec_decode(opcode) {
            Some((t, m)) => {
                &&& t is Jmp ==> (m is Absolute || m is Indirect)
                &&& t is Jsr ==> m is Absolute
                &&& spec_is_branch(t) ==> m is Relative
            },
            None => true,
        },
{
}

/// The instruction decoded from memory, as the analysis describes it.
proof fn lemma_decoded_view<M: MemoryReadOnly>(memory: &M, a: Address, i: InstructionWithOperand)
    requires
        spec_decode(memory.spec_read_u8_read_only(a)) is Some,
        i.address == a,
        i.instruction == (Instruction {
            instruction_type: spec_decode(memory.spec_read_u8_read_only(a)).unwrap().0,
            addressing_mode: spec_decode(memory.spec_read_u8_read_only(a)).unwrap().1,
        }),
        i.operand@ == crate::debug::spec_operand(memory, a, spec_operand_bytes(i.instruction.addressing_mode)),
    ensures
        spec_decoded(spec_memory(memory), a) == Some(spec_instruction_view(i)),
{
    assert(spec_instruction_view(i).operand =~= spec_decoded(spec_memory(memory), a).unwrap().operand);
}


/// The step for the instruction at `visited`, with the addresses control can go to next
/// pushed onto `to_visit`.
fn visit_instruction<M: MemoryReadOnly>(visited: Address, memory: &M, to_visit: &mut Vec<Address>) -> (step: FunctionStep)
    ensures
        step@ == spec_step_at(spec_memory(memory), visited),
        final(to_visit)@.len() >= old(to_visit)@.len(),
        final(to_visit)@.subrange(0, old(to_visit)@.len() as int) == old(to_visit)@,
        forall|k: int| old(to_visit)@.len() <= k < final(to_visit)@.len()
            ==> spec_successors(spec_memory(memory), visited).contains(#[trigger] final(to_visit)@[k]),
        forall|y: Address| #[trigger] spec_successors(spec_memory(memory), visited).contains(y)
            ==> exists|k: int| old(to_visit)@.len() <= k < final(to_visit)@.len() && final(to_visit)@[k] == y,
{
    let ghost mem = spec_memory(memory);
    let ghost before = to_visit@;
    proof {
        lemma_decode_control_flow_modes(memory.spec_read_u8_read_only(visited));
    }
    let step = match InstructionWithOperand::decode(visited, memory) {
        Ok(instruction_with_operand) => {
            proof {
                lemma_decoded_view(memory, visited, instruction_with_operand);
            }
            let instruction = instruction_with_operand.instruction();
            let next_address = visited.wrapping_add(instruction.size() as u16);
            match instruction.instruction_type() {
                InstructionType::Jmp => match instruction.addressing_mode() {
                    AddressingMode::Indirect => FunctionStep::JumpIndirect(instruction_with_operand),
                    _ => {
                        let lo = memory.read_u8_read_only(visited.wrapping_add(1));
                        let hi = memory.read_u8_read_only(visited.wrapping_add(2));
                        let address = address::from_u8_lo_hi(lo, hi);
                        to_visit.push(address);
                        FunctionStep::TracedInstruction(instruction_with_operand)
                    },
                },
                InstructionType::Rts | InstructionType::Rti => FunctionStep::TracedInstruction(instruction_with_operand),
                InstructionType::Bcc | InstructionType::Bcs | InstructionType::Beq | InstructionType::Bmi
                | InstructionType::Bne | InstructionType::Bpl | InstructionType::Bvc | InstructionType::Bvs => {
                    let offset = memory.read_u8_read_only(visited.wrapping_add(1)) as i8;
                    let absolute_target = next_address.wrapping_add(offset as i16 as u16);
                    to_visit.push(absolute_target);
                    to_visit.push(next_address);
                    FunctionStep::Branch { instruction_with_operand, absolute_target, relative_target: offset }
                },
                other => {
                    to_visit.push(next_address);
                    match other {
                        InstructionType::Jsr => {
                            let callee = instruction_with_operand.operand_u16_le().unwrap();
                            FunctionStep::FunctionCall { callee, instruction_with_operand }
                        },
                        _ => FunctionStep::TracedInstruction(instruction_with_operand),
                    }
                },
            }
        },
        Err(_) => FunctionStep::InvalidOpcode { address: visited, opcode: memory.read_u8_read_only(visited) },
    };
    proof {
        let succ = spec_successors(mem, visited);
        assert(to_visit@.subrange(0, before.len() as int) =~= before);
        if to_visit@.len() == before.len() + 1 {
            assert forall|y: Address| #[trigger] succ.contains(y) implies exists|k: int| before.len() <= k < to_visit@.len() && to_visit@[k] == y by {
                assert(to_visit@[before.len() as int] == y);
            }
        }
        if to_visit@.len() == before.len() + 2 {
            assert forall|y: Address| #[trigger] succ.contains(y) implies exists|k: int| before.len() <= k < to_visit@.len() && to_visit@[k] == y by {
                if y == to_visit@[before.len() as int] {
                } else {
                    assert(to_visit@[before.len() as int + 1] == y);
                }
            }
        }
    }
    step
}

/// Follows control flow from `function_definition_address` and records a step for each
/// instruction reached, in address order. Each address is visited once.
#[verifier::spinoff_prover]
#[verifier::rlimit(40)]
pub fn trace_function_definition<M: MemoryReadOnly>(function_definition_address: Address, memory: &M) -> (r: FunctionTrace)
    ensures
        spec_is_trace(spec_memory(memory), function_definition_address, r@),
{
    let ghost mem = spec_memory(memory);
    let ghost succ = |a: Address| spec_successors(mem, a);
    let ghost start = function_definition_address;
    let mut steps: Vec<FunctionStep> = Vec::new();
    let mut seen: BTreeSet<Address> = BTreeSet::new();
    let mut to_visit: Vec<Address> = Vec::new();
    to_visit.push(function_definition_address);
    proof {
        lemma_reachable_start(succ, start);
        assert(to_visit@[0] == function_definition_address);
    }
    while to_visit.len() > 0
        invariant
            mem == spec_memory(memory),
            succ == (|a: Address| spec_successors(mem, a)),
            start == function_definition_address,
            spec_strictly_increasing(spec_addresses(spec_steps_view(steps@))),
            forall|i: int| 0 <= i < steps@.len() ==>
                #[trigger] spec_steps_view(steps@)[i] == spec_step_at(mem, spec_step_address(spec_steps_view(steps@)[i])),
            forall|a: Address| seen@.contains(a) <==> spec_addresses(spec_steps_view(steps@)).contains(a),
            forall|a: Address| #[trigger] seen@.contains(a) ==> spec_reachable(succ, start, a),
            forall|k: int| 0 <= k < to_visit@.len() ==> spec_reachable(succ, start, #[trigger] to_visit@[k]),
            forall|x: Address, y: Address| seen@.contains(x) && #[trigger] succ(x).contains(y) ==> seen@.contains(y) || to_visit@.contains(y),
            seen@.contains(start) || to_visit@.contains(start),
        decreases 0x10000 - steps@.len(), to_visit@.len(),
    {
        let ghost old_to_visit = to_visit@;
        let ghost old_seen = seen@;
        let ghost old_steps = spec_steps_view(steps@);
        let visited = to_visit.pop().unwrap();
        assert(old_to_visit == to_visit@.push(visited));
        assert(spec_reachable(succ, start, visited)) by {
            assert(old_to_visit[old_to_visit.len() - 1] == visited);
        }
        if seen.insert(visited) {
            proof {
                lemma_increasing_missing_len(spec_addresses(old_steps), visited);
                lemma_decode_control_flow_modes(memory.spec_read_u8_read_only(visited));
            }
            let ghost to_visit_before = to_visit@;
            let step = visit_instruction(visited, memory, &mut to_visit);
            proof {
                assert forall|k: int| 0 <= k < to_visit@.len() implies spec_reachable(succ, start, #[trigger] to_visit@[k]) by {
                    if k < to_visit_before.len() {
                        assert(to_visit@[k] == to_visit_before[k]);
                        assert(to_visit_before[k] == old_to_visit[k]);
                    } else {
                        assert(spec_successors(mem, visited).contains(to_visit@[k]));
                        lemma_reachable_step(succ, start, visited, to_visit@[k]);
                    }
                }
            }
            assert(step@ == spec_step_at(mem, visited));
            assert(spec_step_address(step@) == visited);
            let ghost steps_before = spec_steps_view(steps@);
            let p = insert_step(&mut steps, step);
            proof {
                let new_steps = spec_steps_view(steps@);
                assert forall|i: int| 0 <= i < steps@.len() implies
                    #[trigger] spec_steps_view(steps@)[i] == spec_step_at(mem, spec_step_address(spec_steps_view(steps@)[i])) by {
                    if i < p {
                        assert(new_steps[i] == steps_before[i]);
                    } else if i > p {
                        assert(new_steps[i] == steps_before[i - 1]);
                    }
                }
                assert forall|a: Address| seen@.contains(a) <==> spec_addresses(new_steps).contains(a) by {
                    if seen@.contains(a) && a != visited {
                        assert(spec_addresses(steps_before).contains(a));
                        let j = choose|j: int| 0 <= j < steps_before.len() && spec_addresses(steps_before)[j] == a;
                        if j < p {
                            assert(spec_addresses(new_steps)[j] == a);
                        } else {
                            assert(spec_addresses(new_steps)[j + 1] == a);
                        }
                    }
                    if a == visited {
                        assert(spec_addresses(new_steps)[p as int] == a);
                    }
                    if spec_addresses(new_steps).contains(a) {
                        let j = choose|j: int| 0 <= j < new_steps.len() && spec_addresses(new_steps)[j] == a;
                        if j < p {
                            assert(spec_addresses(steps_before)[j] == a);
                        } else if j > p {
                            assert(spec_addresses(steps_before)[j - 1] == a);
                        }
                    }
                }
                assert forall|x: Address, y: Address| seen@.contains(x) && #[trigger] succ(x).contains(y) implies seen@.contains(y) || to_visit@.contains(y) by {
                    if x != visited {
                        assert(old_seen.contains(x));
                        if old_to_visit.contains(y) && y != visited {
                            let k = choose|k: int| 0 <= k < old_to_visit.len() && old_to_visit[k] == y;
                            assert(to_visit@[k] == y);
                        }
                    } else {
                        assert(spec_successors(mem, visited).contains(y));
                        let k = choose|k: int| to_visit_before.len() <= k < to_visit@.len() && to_visit@[k] == y;
                        assert(to_visit@.contains(y));
                    }
                }
                if !seen@.contains(start) {
                    let k = choose|k: int| 0 <= k < old_to_visit.len() && old_to_visit[k] == start;
                    assert(to_visit@[k] == start);
                }
            }
        } else {
            proof {
                assert(seen@ =~= old_seen);
                assert forall|x: Address, y: Address| seen@.contains(x) && #[trigger] succ(x).contains(y) implies seen@.contains(y) || to_visit@.contains(y) by {
                    if old_to_visit.contains(y) && y != visited {
                        let k = choose|k: int| 0 <= k < old_to_visit.len() && old_to_visit[k] == y;
                        assert(to_visit@[k] == y);
                    }
                }
                assert forall|k: int| 0 <= k < to_visit@.len() implies spec_reachable(succ, start, #[trigger] to_visit@[k]) by {
                    assert(to_visit@[k] == old_to_visit[k]);
                }
                if !seen@.contains(start) {
                    let k = choose|k: int| 0 <= k < old_to_visit.len() && old_to_visit[k] == start;
                    assert(to_visit@[k] == start);
                }
            }
        }
    }
    proof {
        assert forall|a: Address| spec_reachable(succ, start, a) implies #[trigger] spec_addresses(spec_steps_view(steps@)).contains(a) by {
            lemma_closed_holds_reachable(succ, start, seen@, a);
        }
        assert forall|i: int| 0 <= i < steps@.len() implies spec_reachable(succ, start, spec_step_address(#[trigger] spec_steps_view(steps@)[i])) by {
            let a = spec_step_address(spec_steps_view(steps@)[i]);
            assert(spec_addresses(spec_steps_view(steps@))[i] == a);
            assert(seen@.contains(a));
        }
    }
    FunctionTrace { steps }
}

/// Whether `f` is where a function called from somewhere in memory begins: the memory map
/// reads a JSR opcode somewhere as a call to `f`.
pub open spec fn spec_is_called_function<MM: MemoryMap>(memory_map: &MM, memory: spec_fn(Address) -> u8, f: Address) -> bool {
    exists|a: Address| memory(a) == jsr::ABSOLUTE && #[trigger] memory_map.spec_normalise_function_call(a, memory) == Some(f)
}

/// Inserts an address into addresses kept in increasing order, unless it is there already.
fn insert_address(addresses: &mut Vec<Address>, address: Address)
    requires
        spec_strictly_increasing(old(addresses)@),
    ensures
        spec_strictly_increasing(final(addresses)@),
        final(addresses)@.to_set() == old(addresses)@.to_set().insert(address),
{
    let mut p: usize = 0;
    while p < addresses.len() && addresses[p] < address
        invariant
            p <= addresses@.len(),
            spec_strictly_increasing(addresses@),
            addresses@ == old(addresses)@,
            forall|j: int| 0 <= j < p ==> addresses@[j] < address,
        decreases addresses@.len() - p,
    {
        p += 1;
    }
    if p < addresses.len() && addresses[p] == address {
        assert(addresses@.to_set() =~= old(addresses)@.to_set().insert(address));
        return;
    }
    let ghost o = addresses@;
    addresses.insert(p, address);
    proof {
        let a = addresses@;
        assert(a =~= o.insert(p as int, address));
        assert forall|i: int, j: int| 0 <= i < j < a.len() implies a[i] < a[j] by {
            if j < p {
            } else if j == p {
            } else if i < p {
                assert(a[j] == o[j - 1]);
                assert(o[p as int] > address);
            } else if i == p {
                assert(a[j] == o[j - 1]);
                assert(o[p as int] > address);
            } else {
                assert(a[i] == o[i - 1] && a[j] == o[j - 1]);
            }
        }
        assert forall|x: Address| a.to_set().contains(x) <==> o.to_set().insert(address).contains(x) by {
            if o.contains(x) {
                let k = choose|k: int| 0 <= k < o.len() && o[k] == x;
                if k < p {
                    assert(a[k] == x);
                } else {
                    assert(a[k + 1] == x);
                }
            }
            if x == address {
                assert(a[p as int] == x);
            }
            if a.contains(x) {
                let k = choose|k: int| 0 <= k < a.len() && a[k] == x;
                if k < p {
                    assert(o[k] == x);
                } else if k > p {
                    assert(o[k - 1] == x);
                }
            }
        }
        assert(a.to_set() =~= o.to_set().insert(address));
    }
}

/// The addresses where functions called from somewhere in memory begin, in increasing order.
pub fn enumerate_function_definition_addresses<MRO: MemoryReadOnly, MM: MemoryMap>(memory: &MRO, memory_map: &MM) -> (r: Vec<Address>)
    ensures
        spec_strictly_increasing(r@),
        forall|f: Address| r@.contains(f) <==> spec_is_called_function(memory_map, spec_memory(memory), f),
{
    let ghost mem = spec_memory(memory);
    let mut function_definition_addresses: Vec<Address> = Vec::new();
    let mut address: u32 = 0;
    while address <= 0xFFFF
        invariant
            address <= 0x10000,
            mem == spec_memory(memory),
            spec_strictly_increasing(function_definition_addresses@),
            forall|f: Address| function_definition_addresses@.contains(f) <==> exists|a: Address|
                a < address && mem(a) == jsr::ABSOLUTE && #[trigger] memory_map.spec_normalise_function_call(a, mem) == Some(f),
        decreases 0x10000 - address,
    {
        let byte = memory.read_u8_read_only(address as Address);
        let ghost before = function_definition_addresses@;
        if byte == jsr::ABSOLUTE {
            if let Some(function_address) = memory_map.normalise_function_call(address as Address, memory) {
                insert_address(&mut function_definition_addresses, function_address);
                proof {
                    assert forall|f: Address| function_definition_addresses@.contains(f) <==> exists|a: Address|
                        a < address + 1 && mem(a) == jsr::ABSOLUTE && #[trigger] memory_map.spec_normalise_function_call(a, mem) == Some(f) by {
                        assert(function_definition_addresses@.to_set().contains(f) == before.to_set().insert(function_address).contains(f));
                        if f == function_address {
                            assert(memory_map.spec_normalise_function_call(address as Address, mem) == Some(f));
                        }
                    }
                }
            } else {
                proof {
                    assert forall|f: Address| function_definition_addresses@.contains(f) <==> exists|a: Address|
                        a < address + 1 && mem(a) == jsr::ABSOLUTE && #[trigger] memory_map.spec_normalise_function_call(a, mem) == Some(f) by {
                        if exists|a: Address| a < address + 1 && mem(a) == jsr::ABSOLUTE && #[trigger] memory_map.spec_normalise_function_call(a, mem) == Some(f) {
                            let a = choose|a: Address| a < address + 1 && mem(a) == jsr::ABSOLUTE && #[trigger] memory_map.spec_normalise_function_call(a, mem) == Some(f);
                            assert(a < address);
                        }
                    }
                }
            }
        } else {
            proof {
                assert forall|f: Address| function_definition_addresses@.contains(f) <==> exists|a: Address|
                    a < address + 1 && mem(a) == jsr::ABSOLUTE && #[trigger] memory_map.spec_normalise_function_call(a, mem) == Some(f) by {
                    if exists|a: Address| a < address + 1 && mem(a) == jsr::ABSOLUTE && #[trigger] memory_map.spec_normalise_function_call(a, mem) == Some(f) {
                        let a = choose|a: Address| a < address + 1 && mem(a) == jsr::ABSOLUTE && #[trigger] memory_map.spec_normalise_function_call(a, mem) == Some(f);
                        assert(a < address);
                    }
                }
            }
        }
        address += 1;
    }
    function_definition_addresses
}

/// A set of addresses has at most 65536 elements.
proof fn lemma_address_set_len(s: Set<Address>)
    ensures
        s.finite(),
        s.len() <= 0x10000,
{
    let all = Seq::new(0x10000, |i: int| i as Address);
    let full = all.to_set();
    broadcast use vstd::seq_lib::seq_to_set_is_finite;
    all.lemma_cardinality_of_set();
    assert forall|y: Address| s.contains(y) implies #[trigger] full.contains(y) by {
        assert(all[y as int] == y);
    }
    vstd::set_lib::lemma_len_subset(s, full);
}

/// Edges between addresses: for each address with an entry, the addresses it leads to.
#[derive(Debug, Clone)]
pub struct AddressGraph(BTreeMap<Address, BTreeSet<Address>>);

impl View for AddressGraph {
    type V = Map<Address, Set<Address>>;

    closed spec fn view(&self) -> Map<Address, Set<Address>> {
        self.0@.map_values(|s: BTreeSet<Address>| s@)
    }
}

/// The addresses a graph leads to from each address.
pub open spec fn spec_graph_successors(g: Map<Address, Set<Address>>) -> spec_fn(Address) -> Set<Address> {
    |a: Address| if g.contains_key(a) { g[a] } else { Set::empty() }
}

impl AddressGraph {
    pub fn get(&self, address: Address) -> (r: Option<&BTreeSet<Address>>)
        ensures
            match r {
                Some(s) => self@.contains_key(address) && s@ == self@[address],
                None => !self@.contains_key(address),
            },
    {
        self.0.get(&address)
    }

    /// The part of the graph reachable from `address`: the entries of the addresses it
    /// reaches, itself included.
    pub fn descendants_of(&self, address: Address) -> (r: Self)
        ensures
            forall|a: Address| #[trigger] r@.contains_key(a) <==> self@.contains_key(a)
                && spec_reachable(spec_graph_successors(self@), address, a),
            forall|a: Address| #[trigger] r@.contains_key(a) ==> r@[a] == self@[a],
    {
        let ghost succ = spec_graph_successors(self@);
        let mut to_visit: Vec<Address> = Vec::new();
        to_visit.push(address);
        let mut seen: BTreeSet<Address> = BTreeSet::new();
        seen.insert(address);
        let mut graph: BTreeMap<Address, BTreeSet<Address>> = BTreeMap::new();
        proof {
            lemma_reachable_start(succ, address);
            assert(to_visit@[0] == address);
            lemma_address_set_len(seen@);
        }
        while to_visit.len() > 0
            invariant
                succ == spec_graph_successors(self@),
                seen@.finite(),
                seen@.len() <= 0x10000,
                seen@.contains(address),
                forall|a: Address| #[trigger] seen@.contains(a) ==> spec_reachable(succ, address, a),
                forall|k: int| 0 <= k < to_visit@.len() ==> seen@.contains(#[trigger] to_visit@[k]),
                forall|a: Address| #[trigger] graph@.contains_key(a) ==> self@.contains_key(a) && seen@.contains(a)
                    && graph@[a]@ == self@[a],
                forall|a: Address| seen@.contains(a) && self@.contains_key(a) && !to_visit@.contains(a)
                    ==> #[trigger] graph@.contains_key(a),
                forall|x: Address, y: Address| graph@.contains_key(x) && #[trigger] succ(x).contains(y) ==> seen@.contains(y),
            decreases 0x10000 - seen@.len(), to_visit@.len(),
        {
            let ghost old_to_visit = to_visit@;
            let ghost old_seen = seen@;
            let ghost old_graph = graph@;
            let visited = to_visit.pop().unwrap();
            assert(old_to_visit == to_visit@.push(visited));
            assert(seen@.contains(visited)) by {
                assert(old_to_visit[old_to_visit.len() - 1] == visited);
            }
            match self.get(visited) {
                Some(callees) => {
                    graph.insert(visited, callees.clone());
                    let ghost keys = vstd::std_specs::btree::spec_btree_keys_iter(callees).remaining().unref();
                    let ghost to_visit_mid = to_visit@;
                    let ghost seen_mid = seen@;
                    for callee in it: callees.iter()
                        invariant
                            it.seq().unref() == keys,
                            keys.to_set() == callees@,
                            callees@ == self@[visited],
                            succ == spec_graph_successors(self@),
                            seen@.finite(),
                            seen@.len() <= 0x10000,
                            seen_mid.subset_of(seen@),
                            seen@.len() >= seen_mid.len(),
                            forall|k: int| 0 <= k < it.index() ==> seen@.contains(#[trigger] keys[k]),
                            forall|a: Address| #[trigger] seen@.contains(a) ==> seen_mid.contains(a) || callees@.contains(a),
                            to_visit@.subrange(0, to_visit_mid.len() as int) == to_visit_mid,
                            forall|k: int| to_visit_mid.len() <= k < to_visit@.len() ==> seen@.contains(#[trigger] to_visit@[k]),
                            forall|a: Address| seen@.contains(a) && !seen_mid.contains(a) ==> #[trigger] to_visit@.contains(a),
                            to_visit@.len() - to_visit_mid.len() == seen@.len() - seen_mid.len(),
                    {
                        let ghost before = seen@;
                        let ghost to_visit_before = to_visit@;
                        if seen.insert(*callee) {
                            to_visit.push(*callee);
                            proof {
                                assert(to_visit@.subrange(0, to_visit_mid.len() as int) =~= to_visit_mid);
                                assert(to_visit@[to_visit@.len() - 1] == *callee);
                                assert forall|a: Address| seen@.contains(a) && !seen_mid.contains(a) implies #[trigger] to_visit@.contains(a) by {
                                    if a != *callee {
                                        assert(before.contains(a));
                                        assert(to_visit_before.contains(a));
                                        let k = choose|k: int| 0 <= k < to_visit_before.len() && to_visit_before[k] == a;
                                        assert(to_visit@[k] == a);
                                    }
                                }
                                lemma_address_set_len(seen@);
                            }
                        } else {
                            assert(seen@ =~= before);
                        }
                        proof {
                            assert(keys[it.index() as int] == *callee);
                        }
                    }
                    proof {
                        assert forall|y: Address| succ(visited).contains(y) implies seen@.contains(y) by {
                            assert(keys.to_set().contains(y));
                            let k = choose|k: int| 0 <= k < keys.len() && keys[k] == y;
                        }
                        assert forall|a: Address| #[trigger] seen@.contains(a) implies spec_reachable(succ, address, a) by {
                            if !seen_mid.contains(a) {
                                lemma_reachable_step(succ, address, visited, a);
                            }
                        }
                        assert forall|k: int| 0 <= k < to_visit@.len() implies seen@.contains(#[trigger] to_visit@[k]) by {
                            if k < to_visit_mid.len() {
                                assert(to_visit@[k] == to_visit_mid[k]);
                                assert(to_visit_mid[k] == old_to_visit[k]);
                            }
                        }
                        assert forall|a: Address| seen@.contains(a) && self@.contains_key(a) && !to_visit@.contains(a)
                            implies #[trigger] graph@.contains_key(a) by {
                            if a != visited && seen_mid.contains(a) {
                                if old_to_visit.contains(a) {
                                    let k = choose|k: int| 0 <= k < old_to_visit.len() && old_to_visit[k] == a;
                                    assert(to_visit@[k] == a);
                                }
                            }
                        }
                        if seen@.len() == seen_mid.len() {
                            assert(to_visit@.len() < old_to_visit.len());
                        }
                    }
                },
                None => {
                    proof {
                        assert forall|k: int| 0 <= k < to_visit@.len() implies seen@.contains(#[trigger] to_visit@[k]) by {
                            assert(to_visit@[k] == old_to_visit[k]);
                        }
                        assert forall|a: Address| seen@.contains(a) && self@.contains_key(a) && !to_visit@.contains(a)
                            implies #[trigger] graph@.contains_key(a) by {
                            if old_to_visit.contains(a) && a != visited {
                                let k = choose|k: int| 0 <= k < old_to_visit.len() && old_to_visit[k] == a;
                                assert(to_visit@[k] == a);
                            }
                        }
                    }
                },
            }
        }
        let r = AddressGraph(graph);
        proof {
            let closed = seen@;
            assert forall|x: Address, y: Address| closed.contains(x) && #[trigger] succ(x).contains(y) implies closed.contains(y) by {
                if self@.contains_key(x) {
                    assert(graph@.contains_key(x));
                }
            }
            assert forall|a: Address| #[trigger] r@.contains_key(a) <==> self@.contains_key(a)
                && spec_reachable(succ, address, a) by {
                if self@.contains_key(a) && spec_reachable(succ, address, a) {
                    lemma_closed_holds_reachable(succ, address, closed, a);
                    assert(graph@.contains_key(a));
                }
            }
        }
        r
    }
}

/// The graph with an entry for `a`, empty if it had none.
pub open spec fn spec_with_node(g: Map<Address, Set<Address>>, a: Address) -> Map<Address, Set<Address>> {
    if g.contains_key(a) { g } else { g.insert(a, Set::empty()) }
}

/// The graph with an edge from `a` to `b`.
pub open spec fn spec_with_edge(g: Map<Address, Set<Address>>, a: Address, b: Address) -> Map<Address, Set<Address>> {
    g.insert(a, (if g.contains_key(a) { g[a] } else { Set::empty() }).insert(b))
}

impl AddressGraph {
    fn new() -> (r: Self)
        ensures
            r@ == Map::<Address, Set<Address>>::empty(),
    {
        let r = AddressGraph(BTreeMap::new());
        assert(r@ =~= Map::<Address, Set<Address>>::empty());
        r
    }

    fn add_node(&mut self, a: Address)
        ensures
            final(self)@ == spec_with_node(old(self)@, a),
    {
        if !self.0.contains_key(&a) {
            self.0.insert(a, BTreeSet::new());
            assert(self@ =~= old(self)@.insert(a, Set::empty()));
        }
    }

    fn add_edge(&mut self, a: Address, b: Address)
        ensures
            final(self)@ == spec_with_edge(old(self)@, a, b),
    {
        let mut targets = match self.0.remove(&a) {
            Some(targets) => targets,
            None => BTreeSet::new(),
        };
        targets.insert(b);
        self.0.insert(a, targets);
        assert(self@ =~= spec_with_edge(old(self)@, a, b));
    }
}

/// Who calls whom, both ways round.
#[derive(Debug)]
pub struct CallGraph {
    by_caller: AddressGraph,
    by_callee: AddressGraph,
}

pub struct CallGraphView {
    pub by_caller: Map<Address, Set<Address>>,
    pub by_callee: Map<Address, Set<Address>>,
}

impl View for CallGraph {
    type V = CallGraphView;

    closed spec fn view(&self) -> CallGraphView {
        CallGraphView { by_caller: self.by_caller@, by_callee: self.by_callee@ }
    }
}

impl CallGraph {
    fn new() -> (r: Self)
        ensures
            r@.by_caller == Map::<Address, Set<Address>>::empty(),
            r@.by_callee == Map::<Address, Set<Address>>::empty(),
            spec_call_graph_inverse(r@),
    {
        let r = Self { by_caller: AddressGraph::new(), by_callee: AddressGraph::new() };
        proof {
            lemma_call_graph_inverse_kept(r@, 0, 0, 0);
        }
        r
    }

    fn insert_empty(&mut self, address: Address)
        ensures
            final(self)@.by_caller == spec_with_node(old(self)@.by_caller, address),
            final(self)@.by_callee == spec_with_node(old(self)@.by_callee, address),
            spec_call_graph_inverse(old(self)@) ==> spec_call_graph_inverse(final(self)@),
    {
        self.by_caller.add_node(address);
        self.by_callee.add_node(address);
        proof {
            if spec_call_graph_inverse(old(self)@) {
                lemma_call_graph_inverse_kept(old(self)@, address, address, address);
            }
        }
    }

    fn insert(&mut self, caller: Address, callee: Address)
        ensures
            final(self)@.by_caller == spec_with_edge(old(self)@.by_caller, caller, callee),
            final(self)@.by_callee == spec_with_edge(old(self)@.by_callee, callee, caller),
            spec_call_graph_inverse(old(self)@) ==> spec_call_graph_inverse(final(self)@),
    {
        self.by_caller.add_edge(caller, callee);
        self.by_callee.add_edge(callee, caller);
        proof {
            if spec_call_graph_inverse(old(self)@) {
                lemma_call_graph_inverse_kept(old(self)@, caller, caller, callee);
            }
        }
    }

    pub fn by_caller(&self) -> (r: &AddressGraph)
        ensures
            r@ == self@.by_caller,
    {
        &self.by_caller
    }

    pub fn by_callee(&self) -> (r: &AddressGraph)
        ensures
            r@ == self@.by_callee,
    {
        &self.by_callee
    }
}

/// Whether graph `g` has an edge from `a` to `b`.
pub open spec fn spec_has_edge(g: Map<Address, Set<Address>>, a: Address, b: Address) -> bool {
    g.contains_key(a) && g[a].contains(b)
}

/// Whether each half of a call graph lists exactly the edges of the other, turned round.
pub open spec fn spec_call_graph_inverse(v: CallGraphView) -> bool {
    forall|a: Address, b: Address|
        #![trigger spec_has_edge(v.by_caller, a, b)]
        #![trigger spec_has_edge(v.by_callee, b, a)]
        spec_has_edge(v.by_caller, a, b) <==> spec_has_edge(v.by_callee, b, a)
}

/// A new call graph is its own inverse; adding a function without calls and adding a call
/// each keep the two halves inverse, and a call adds that edge and no other.
pub proof fn lemma_call_graph_inverse_kept(v: CallGraphView, f: Address, caller: Address, callee: Address)
    requires
        spec_call_graph_inverse(v),
    ensures
        spec_call_graph_inverse(CallGraphView {
            by_caller: Map::<Address, Set<Address>>::empty(),
            by_callee: Map::<Address, Set<Address>>::empty(),
        }),
        spec_call_graph_inverse(CallGraphView {
            by_caller: spec_with_node(v.by_caller, f),
            by_callee: spec_with_node(v.by_callee, f),
        }),
        ({
            let w = CallGraphView {
                by_caller: spec_with_edge(v.by_caller, caller, callee),
                by_callee: spec_with_edge(v.by_callee, callee, caller),
            };
            &&& spec_call_graph_inverse(w)
            &&& spec_has_edge(w.by_caller, caller, callee)
            &&& spec_has_edge(w.by_callee, callee, caller)
            &&& forall|a: Address, b: Address| (a != caller || b != callee) ==>
                (#[trigger] spec_has_edge(w.by_caller, a, b) <==> spec_has_edge(v.by_caller, a, b))
        }),
{
    let n = CallGraphView { by_caller: spec_with_node(v.by_caller, f), by_callee: spec_with_node(v.by_callee, f) };
    assert forall|a: Address, b: Address|
        spec_has_edge(n.by_caller, a, b) <==> spec_has_edge(n.by_callee, b, a) by {
        assert(spec_has_edge(v.by_caller, a, b) <==> spec_has_edge(v.by_callee, b, a));
    }
    let w = CallGraphView {
        by_caller: spec_with_edge(v.by_caller, caller, callee),
        by_callee: spec_with_edge(v.by_callee, callee, caller),
    };
    assert forall|a: Address, b: Address|
        spec_has_edge(w.by_caller, a, b) <==> spec_has_edge(w.by_callee, b, a) by {
        assert(spec_has_edge(v.by_caller, a, b) <==> spec_has_edge(v.by_callee, b, a));
    }
}

/// The function a step calls, for a call.
pub open spec fn spec_call_target(s: FunctionStepView) -> Option<Address> {
    match s {
        FunctionStepView::FunctionCall { callee, .. } => Some(callee),
        _ => None,
    }
}

/// The functions called from the function at `f`: the targets of the calls among the
/// instructions reachable from `f`.
pub open spec fn spec_function_callees(memory: spec_fn(Address) -> u8, f: Address) -> Set<Address> {
    Set::new(|c: Address| exists|a: Address| spec_reachable(|x: Address| spec_successors(memory, x), f, a)
        && #[trigger] spec_call_target(spec_step_at(memory, a)) == Some(c))
}

/// The functions called from the first `n` steps of a trace.
pub open spec fn spec_trace_callees(steps: Seq<FunctionStepView>, n: int) -> Set<Address> {
    Set::new(|c: Address| exists|i: int| 0 <= i < n && #[trigger] spec_call_target(steps[i]) == Some(c))
}

/// The calls a trace records are the calls of its function.
pub proof fn lemma_trace_callees(memory: spec_fn(Address) -> u8, f: Address, steps: Seq<FunctionStepView>)
    requires
        spec_is_trace(memory, f, steps),
    ensures
        spec_trace_callees(steps, steps.len() as int) == spec_function_callees(memory, f),
{
    let succ = |x: Address| spec_successors(memory, x);
    assert forall|c: Address| spec_trace_callees(steps, steps.len() as int).contains(c)
        <==> spec_function_callees(memory, f).contains(c) by {
        if spec_trace_callees(steps, steps.len() as int).contains(c) {
            let i = choose|i: int| 0 <= i < steps.len() && #[trigger] spec_call_target(steps[i]) == Some(c);
            let a = spec_step_address(steps[i]);
            assert(steps[i] == spec_step_at(memory, a));
            assert(spec_reachable(succ, f, a));
            assert(spec_call_target(spec_step_at(memory, a)) == Some(c));
        }
        if spec_function_callees(memory, f).contains(c) {
            let a = choose|a: Address| spec_reachable(succ, f, a) && #[trigger] spec_call_target(spec_step_at(memory, a)) == Some(c);
            assert(spec_addresses(steps).contains(a));
            let i = choose|i: int| 0 <= i < spec_addresses(steps).len() && spec_addresses(steps)[i] == a;
            assert(steps[i] == spec_step_at(memory, spec_step_address(steps[i])));
            assert(spec_call_target(steps[i]) == Some(c));
        }
    }
    assert(spec_trace_callees(steps, steps.len() as int) =~= spec_function_callees(memory, f));
}

/// The functions of a program, each with its trace, and its call graph.
pub struct Analysis {
    call_graph: CallGraph,
    function_traces_by_definition_address: BTreeMap<Address, FunctionTrace>,
}

pub struct AnalysisView {
    pub call_graph: CallGraphView,
    pub traces: Map<Address, Seq<FunctionStepView>>,
}

impl View for Analysis {
    type V = AnalysisView;

    closed spec fn view(&self) -> AnalysisView {
        AnalysisView {
            call_graph: self.call_graph@,
            traces: self.function_traces_by_definition_address@.map_values(|t: FunctionTrace| t@),
        }
    }
}

/// Whether `v` is the analysis of the functions that begin at `definitions`: a trace of each;
/// for each, the functions it calls; for each function and each called address, the
/// functions that call it.
pub open spec fn spec_is_analysis(memory: spec_fn(Address) -> u8, definitions: Set<Address>, v: AnalysisView) -> bool {
    &&& v.traces.dom() == definitions
    &&& forall|f: Address| #[trigger] definitions.contains(f) ==> spec_is_trace(memory, f, v.traces[f])
    &&& v.call_graph.by_caller.dom() == definitions
    &&& forall|f: Address| #[trigger] definitions.contains(f) ==> v.call_graph.by_caller[f] == spec_function_callees(memory, f)
    &&& forall|c: Address| #[trigger] v.call_graph.by_callee.contains_key(c) <==> definitions.contains(c)
        || exists|f: Address| definitions.contains(f) && #[trigger] spec_function_callees(memory, f).contains(c)
    &&& forall|c: Address| #[trigger] v.call_graph.by_callee.contains_key(c) ==> v.call_graph.by_callee[c]
        == Set::new(|f: Address| definitions.contains(f) && spec_function_callees(memory, f).contains(c))
}

/// The two halves of an analysis's call graph are each other's inverse: a function lists a
/// callee exactly when the callee lists it among its callers.
pub proof fn lemma_call_graph_inverse(memory: spec_fn(Address) -> u8, definitions: Set<Address>, v: AnalysisView, caller: Address, callee: Address)
    requires
        spec_is_analysis(memory, definitions, v),
    ensures
        (v.call_graph.by_caller.contains_key(caller) && v.call_graph.by_caller[caller].contains(callee))
            <==> (v.call_graph.by_callee.contains_key(callee) && v.call_graph.by_callee[callee].contains(caller)),
{
    if v.call_graph.by_caller.contains_key(caller) && v.call_graph.by_caller[caller].contains(callee) {
        assert(definitions.contains(caller));
        assert(spec_function_callees(memory, caller).contains(callee));
        assert(v.call_graph.by_callee.contains_key(callee));
    }
}

impl Analysis {
    /// Analyses the functions called from somewhere in memory, and the functions beginning at
    /// `extra_function_definition_addresses`.
    pub fn analyse<MRO: MemoryReadOnly, MM: MemoryMap>(
        memory: &MRO,
        memory_map: &MM,
        extra_function_definition_addresses: &[Address],
    ) -> (r: Self)
        ensures
            spec_is_analysis(
                spec_memory(memory),
                Set::new(|f: Address| spec_is_called_function(memory_map, spec_memory(memory), f))
                    + extra_function_definition_addresses@.to_set(),
                r@,
            ),
    {
        let ghost mem = spec_memory(memory);
        let mut function_definition_addresses = enumerate_function_definition_addresses(memory, memory_map);
        let ghost enumerated = function_definition_addresses@;
        let mut j: usize = 0;
        while j < extra_function_definition_addresses.len()
            invariant
                j <= extra_function_definition_addresses@.len(),
                function_definition_addresses@ == enumerated + extra_function_definition_addresses@.take(j as int),
            decreases extra_function_definition_addresses@.len() - j,
        {
            function_definition_addresses.push(extra_function_definition_addresses[j]);
            j += 1;
            assert(function_definition_addresses@ =~= enumerated + extra_function_definition_addresses@.take(j as int));
        }
        let ghost defs = function_definition_addresses@;
        assert(defs =~= enumerated + extra_function_definition_addresses@);
        let mut function_traces_by_definition_address: BTreeMap<Address, FunctionTrace> = BTreeMap::new();
        let mut call_graph = CallGraph::new();
        let mut k: usize = 0;
        proof {
            assert(defs.take(0).to_set() =~= Set::<Address>::empty());
            assert(function_traces_by_definition_address@.map_values(|t: FunctionTrace| t@) =~= Map::<Address, Seq<FunctionStepView>>::empty());
        }
        while k < function_definition_addresses.len()
            invariant
                k <= defs.len(),
                defs == function_definition_addresses@,
                mem == spec_memory(memory),
                spec_is_analysis(
                    mem,
                    defs.take(k as int).to_set(),
                    AnalysisView {
                        call_graph: call_graph@,
                        traces: function_traces_by_definition_address@.map_values(|t: FunctionTrace| t@),
                    },
                ),
            decreases defs.len() - k,
        {
            let f = function_definition_addresses[k];
            let ghost done = defs.take(k as int).to_set();
            let ghost g_before = call_graph@;
            let trace = trace_function_definition(f, memory);
            call_graph.insert_empty(f);
            let ghost g0 = call_graph@;
            let ghost t = trace@;
            let steps = trace.steps();
            let mut i: usize = 0;
            proof {
                assert(spec_trace_callees(t, 0) =~= Set::empty());
                assert(g0.by_caller[f] + Set::empty() =~= g0.by_caller[f]);
                assert(g0.by_caller.insert(f, g0.by_caller[f] + spec_trace_callees(t, 0)) =~= g0.by_caller);
                assert forall|c: Address| #[trigger] call_graph@.by_callee.contains_key(c) implies call_graph@.by_callee[c]
                    == (if g0.by_callee.contains_key(c) { g0.by_callee[c] } else { Set::empty() })
                        + (if spec_trace_callees(t, 0).contains(c) { set![f] } else { Set::empty() }) by {
                    assert(call_graph@.by_callee[c] =~= call_graph@.by_callee[c] + Set::empty());
                }
            }
            while i < steps.len()
                invariant
                    i <= steps@.len(),
                    spec_steps_view(steps@) == t,
                    call_graph@.by_caller == g0.by_caller.insert(f, g0.by_caller[f] + spec_trace_callees(t, i as int)),
                    forall|c: Address| #[trigger] call_graph@.by_callee.contains_key(c)
                        <==> g0.by_callee.contains_key(c) || spec_trace_callees(t, i as int).contains(c),
                    forall|c: Address| #[trigger] call_graph@.by_callee.contains_key(c) ==> call_graph@.by_callee[c]
                        == (if g0.by_callee.contains_key(c) { g0.by_callee[c] } else { Set::empty() })
                            + (if spec_trace_callees(t, i as int).contains(c) { set![f] } else { Set::empty() }),
                    g0.by_caller.contains_key(f),
                decreases steps@.len() - i,
            {
                let ghost cg = call_graph@;
                match &steps[i] {
                    FunctionStep::FunctionCall { callee, .. } => {
                        call_graph.insert(f, *callee);
                        proof {
                            assert(spec_call_target(t[i as int]) == Some(*callee));
                            assert(spec_trace_callees(t, i + 1) =~= spec_trace_callees(t, i as int).insert(*callee));
                            assert((g0.by_caller[f] + spec_trace_callees(t, i as int)).insert(*callee)
                                =~= g0.by_caller[f] + spec_trace_callees(t, i + 1));
                            assert(call_graph@.by_caller =~= g0.by_caller.insert(f, g0.by_caller[f] + spec_trace_callees(t, i + 1)));
                        }
                    },
                    _ => {
                        proof {
                            assert(spec_call_target(t[i as int]) is None);
                            assert(spec_trace_callees(t, i + 1) =~= spec_trace_callees(t, i as int));
                        }
                    },
                }
                proof {
                    assert forall|c: Address| #[trigger] call_graph@.by_callee.contains_key(c) implies call_graph@.by_callee[c]
                        == (if g0.by_callee.contains_key(c) { g0.by_callee[c] } else { Set::empty() })
                            + (if spec_trace_callees(t, i + 1).contains(c) { set![f] } else { Set::empty() }) by {
                        {
                            assert(call_graph@.by_callee[c] =~= (if g0.by_callee.contains_key(c) { g0.by_callee[c] } else { Set::empty() })
                                + (if spec_trace_callees(t, i + 1).contains(c) { set![f] } else { Set::empty() }));
                        }
                    }
                }
                i += 1;
            }
            proof {
                lemma_trace_callees(mem, f, t);
            }
            function_traces_by_definition_address.insert(f, trace);
            proof {
                let done2 = defs.take(k + 1).to_set();
                assert(done2 =~= done.insert(f)) by {
                    let s1 = defs.take(k + 1);
                    let s0 = defs.take(k as int);
                    assert(s1 =~= s0.push(f));
                    assert forall|x: Address| s1.contains(x) <==> s0.contains(x) || x == f by {
                        if s1.contains(x) {
                            let i = choose|i: int| 0 <= i < s1.len() && s1[i] == x;
                            if i < k {
                                assert(s0[i] == x);
                            }
                        }
                        if s0.contains(x) {
                            let i = choose|i: int| 0 <= i < s0.len() && s0[i] == x;
                            assert(s1[i] == x);
                        }
                        if x == f {
                            assert(s1[k as int] == x);
                        }
                    }
                }
                let callees_f = spec_function_callees(mem, f);
                let traces = function_traces_by_definition_address@.map_values(|tr: FunctionTrace| tr@);
                assert(traces.dom() =~= done2);
                assert forall|g: Address| #[trigger] done2.contains(g) implies spec_is_trace(mem, g, traces[g]) by {
                    if g != f {
                        assert(done.contains(g));
                    }
                }
                assert(call_graph@.by_caller.dom() =~= done2);
                assert forall|g: Address| #[trigger] done2.contains(g) implies call_graph@.by_caller[g] == spec_function_callees(mem, g) by {
                    if g == f {
                        if done.contains(f) {
                            assert(g0.by_caller[f] == callees_f);
                        } else {
                            assert(g0.by_caller[f] =~= Set::empty());
                        }
                        assert(call_graph@.by_caller[f] =~= callees_f);
                    } else {
                        assert(done.contains(g));
                    }
                }
                assert forall|c: Address| #[trigger] call_graph@.by_callee.contains_key(c) <==> done2.contains(c)
                    || exists|g: Address| done2.contains(g) && #[trigger] spec_function_callees(mem, g).contains(c) by {
                    if g_before.by_callee.contains_key(c) {
                        assert(done.contains(c) || exists|g: Address| done.contains(g) && #[trigger] spec_function_callees(mem, g).contains(c));
                    }
                    if exists|g: Address| done2.contains(g) && #[trigger] spec_function_callees(mem, g).contains(c) {
                        let g = choose|g: Address| done2.contains(g) && #[trigger] spec_function_callees(mem, g).contains(c);
                        if g != f {
                            assert(done.contains(g));
                            assert(g_before.by_callee.contains_key(c));
                        }
                    }
                }
                assert forall|c: Address| #[trigger] call_graph@.by_callee.contains_key(c) implies call_graph@.by_callee[c]
                    == Set::new(|g: Address| done2.contains(g) && spec_function_callees(mem, g).contains(c)) by {
                    let expected = Set::new(|g: Address| done2.contains(g) && spec_function_callees(mem, g).contains(c));
                    let before = Set::new(|g: Address| done.contains(g) && spec_function_callees(mem, g).contains(c));
                    if g_before.by_callee.contains_key(c) {
                        assert(g0.by_callee[c] == before);
                    } else if g0.by_callee.contains_key(c) {
                        assert(g0.by_callee[c] =~= Set::empty());
                        assert(before =~= Set::empty()) by {
                            assert forall|g: Address| !before.contains(g) by {
                                if before.contains(g) {
                                    assert(g_before.by_callee.contains_key(c));
                                }
                            }
                        }
                    } else {
                        assert(before =~= Set::empty()) by {
                            assert forall|g: Address| !before.contains(g) by {
                                if before.contains(g) {
                                    assert(g_before.by_callee.contains_key(c));
                                }
                            }
                        }
                    }
                    assert(call_graph@.by_callee[c] =~= expected);
                }
            }
            k += 1;
        }
        proof {
            assert(defs.take(defs.len() as int) =~= defs);
            let wanted = Set::new(|f: Address| spec_is_called_function(memory_map, mem, f)) + extra_function_definition_addresses@.to_set();
            assert(defs.to_set() =~= wanted) by {
                assert forall|f: Address| defs.to_set().contains(f) <==> wanted.contains(f) by {
                    if defs.contains(f) {
                        let i = choose|i: int| 0 <= i < defs.len() && defs[i] == f;
                        if i < enumerated.len() {
                            assert(enumerated[i] == f);
                            assert(enumerated.contains(f));
                        } else {
                            assert(extra_function_definition_addresses@[i - enumerated.len()] == f);
                            assert(extra_function_definition_addresses@.contains(f));
                        }
                    }
                    if enumerated.contains(f) {
                        let i = choose|i: int| 0 <= i < enumerated.len() && enumerated[i] == f;
                        assert(defs[i] == f);
                    }
                    if extra_function_definition_addresses@.contains(f) {
                        let i = choose|i: int| 0 <= i < extra_function_definition_addresses@.len() && extra_function_definition_addresses@[i] == f;
                        assert(defs[enumerated.len() + i] == f);
                    }
                }
            }
        }
        Self { call_graph, function_traces_by_definition_address }
    }

    pub fn function_trace(&self, address: Address) -> (r: Option<&FunctionTrace>)
        ensures
            match r {
                Some(t) => self@.traces.contains_key(address) && t@ == self@.traces[address],
                None => !self@.traces.contains_key(address),
            },
    {
        self.function_traces_by_definition_address.get(&address)
    }

    pub fn call_graph(&self) -> (r: &CallGraph)
        ensures
            r@ == self@.call_graph,
    {
        &self.call_graph
    }
}

/// Addresses are ordered as B-trees need their keys ordered.
proof fn lemma_addresses_are_ordered_keys()
    ensures
        vstd::std_specs::btree::key_obeys_cmp_spec::<Address>(),
{
    broadcast use vstd::laws_cmp::group_laws_cmp;
}

/// Addresses a B-tree hands out in increasing order increase as numbers.
proof fn lemma_increasing_keys(s: Seq<Address>)
    requires
        vstd::std_specs::btree::increasing_seq(s),
    ensures
        spec_strictly_increasing(s),
{
    broadcast use vstd::laws_cmp::group_laws_cmp;
    assert forall|i: int, j: int| 0 <= i < j < s.len() implies s[i] < s[j] by {
        assert(vstd::std_specs::cmp::OrdSpec::cmp_spec(&s[i], &s[j]) is Less);
    }
}

/// Borrowed addresses a B-tree hands out in increasing order increase as numbers.
proof fn lemma_increasing_borrowed_keys(s: Seq<&Address>)
    requires
        vstd::std_specs::btree::increasing_seq(s),
    ensures
        spec_strictly_increasing(s.unref()),
{
    broadcast use vstd::laws_cmp::group_laws_cmp;
    assert forall|i: int, j: int| 0 <= i < j < s.len() implies s.unref()[i] < s.unref()[j] by {
        assert(vstd::std_specs::cmp::OrdSpec::cmp_spec(&s[i], &s[j]) is Less);
    }
}

/// The addresses of a set, each once, in increasing order.
fn collect_addresses(s: &BTreeSet<Address>) -> (v: Vec<Address>)
    ensures
        v@.to_set() == s@,
        v@.no_duplicates(),
        spec_strictly_increasing(v@),
{
    let mut v: Vec<Address> = Vec::new();
    let ghost keys = vstd::std_specs::btree::spec_btree_keys_iter(s).remaining().unref();
    proof {
        lemma_increasing_borrowed_keys(vstd::std_specs::btree::spec_btree_keys_iter(s).remaining());
    }
    for x in it: s.iter()
        invariant
            it.seq().unref() == keys,
            keys.to_set() == s@,
            keys.no_duplicates(),
            spec_strictly_increasing(keys),
            v@ == keys.take(it.index() as int),
    {
        v.push(*x);
        assert(v@ =~= keys.take(it.index() as int + 1));
    }
    assert(v@ =~= keys);
    v
}

impl Analysis {
    /// The functions whose traces contain `address`, each once, in increasing order.
    pub fn functions_containing_address(&self, address: Address) -> (r: Vec<Address>)
        ensures
            r@.to_set() == Set::new(|f: Address| self@.traces.contains_key(f) && spec_addresses(self@.traces[f]).contains(address)),
            r@.no_duplicates(),
            spec_strictly_increasing(r@),
    {
        let m = &self.function_traces_by_definition_address;
        proof {
            lemma_addresses_are_ordered_keys();
        }
        let ghost pairs = vstd::std_specs::btree::spec_btree_map_iter(m).remaining();
        let ghost keys = pairs.map_values(|kv: (&Address, &FunctionTrace)| *kv.0);
        let traces = m.iter();
        proof {
            lemma_increasing_keys(keys);
        }
        let ghost wanted = Set::new(|f: Address| self@.traces.contains_key(f) && spec_addresses(self@.traces[f]).contains(address));
        let mut r: Vec<Address> = Vec::new();
        for (definition_address, trace) in it: traces
            invariant
                it.seq() == pairs,
                keys == pairs.map_values(|kv: (&Address, &FunctionTrace)| *kv.0),
                spec_strictly_increasing(keys),
                spec_strictly_increasing(r@),
                pairs.no_duplicates(),
                pairs.len() == m@.dom().len(),
                forall|j: int| 0 <= j < pairs.len() ==> #[trigger] m@.contains_key(*pairs[j].0) && m@[*pairs[j].0] == *pairs[j].1,
                forall|f: Address| #[trigger] m@.contains_key(f) ==> pairs.contains((&f, &m@[f])),
                forall|f: Address| r@.contains(f) <==> exists|j: int| 0 <= j < it.index() && *pairs[j].0 == f
                    && #[trigger] spec_addresses(pairs[j].1@).contains(address),
                r@.no_duplicates(),
        {
            let ghost j = it.index() as int;
            let ghost old_r = r@;
            assert(pairs[j] == (definition_address, trace));
            if trace.contains_address(address) {
                proof {
                    assert forall|k: int| 0 <= k < old_r.len() implies old_r[k] < *definition_address by {
                        assert(old_r.contains(old_r[k]));
                        let j2 = choose|j2: int| 0 <= j2 < j && *pairs[j2].0 == old_r[k]
                            && #[trigger] spec_addresses(pairs[j2].1@).contains(address);
                        assert(keys[j2] == old_r[k]);
                        assert(keys[j] == *definition_address);
                    }
                    if r@.contains(*definition_address) {
                        let j2 = choose|j2: int| 0 <= j2 < j && *pairs[j2].0 == *definition_address
                            && #[trigger] spec_addresses(pairs[j2].1@).contains(address);
                        assert(m@.contains_key(*pairs[j2].0));
                        assert(m@.contains_key(*pairs[j].0));
                        assert(pairs[j2] == pairs[j]);
                    }
                }
                r.push(*definition_address);
                proof {
                    assert(r@.drop_last() =~= old_r);
                    assert forall|f: Address| r@.contains(f) <==> exists|j3: int| 0 <= j3 < j + 1 && *pairs[j3].0 == f
                        && #[trigger] spec_addresses(pairs[j3].1@).contains(address) by {
                        if r@.contains(f) {
                            if f == *definition_address {
                                assert(spec_addresses(pairs[j].1@).contains(address));
                            } else {
                                let k = choose|k: int| 0 <= k < r@.len() && r@[k] == f;
                                assert(k < old_r.len());
                                assert(old_r[k] == f);
                                assert(old_r.contains(f));
                            }
                        }
                        if exists|j3: int| 0 <= j3 < j + 1 && *pairs[j3].0 == f && #[trigger] spec_addresses(pairs[j3].1@).contains(address) {
                            let j3 = choose|j3: int| 0 <= j3 < j + 1 && *pairs[j3].0 == f && #[trigger] spec_addresses(pairs[j3].1@).contains(address);
                            if j3 < j {
                                assert(old_r.contains(f));
                                let k = choose|k: int| 0 <= k < old_r.len() && old_r[k] == f;
                                assert(r@[k] == f);
                            } else {
                                assert(r@[r@.len() - 1] == f);
                            }
                        }
                    }
                }
            } else {
                proof {
                    assert forall|f: Address| r@.contains(f) <==> exists|j3: int| 0 <= j3 < j + 1 && *pairs[j3].0 == f
                        && #[trigger] spec_addresses(pairs[j3].1@).contains(address) by {
                        if exists|j3: int| 0 <= j3 < j + 1 && *pairs[j3].0 == f && #[trigger] spec_addresses(pairs[j3].1@).contains(address) {
                            let j3 = choose|j3: int| 0 <= j3 < j + 1 && *pairs[j3].0 == f && #[trigger] spec_addresses(pairs[j3].1@).contains(address);
                            assert(j3 != j);
                        }
                    }
                }
            }
        }
        proof {
            assert forall|f: Address| r@.to_set().contains(f) <==> wanted.contains(f) by {
                if wanted.contains(f) {
                    assert(m@.contains_key(f));
                    assert(pairs.contains((&f, &m@[f])));
                    let j = choose|j: int| 0 <= j < pairs.len() && pairs[j] == (&f, &m@[f]);
                    assert(*pairs[j].0 == f);
                    assert(spec_addresses(pairs[j].1@).contains(address));
                }
                if r@.contains(f) {
                    let j = choose|j: int| 0 <= j < pairs.len() && *pairs[j].0 == f
                        && #[trigger] spec_addresses(pairs[j].1@).contains(address);
                    assert(m@.contains_key(*pairs[j].0));
                }
            }
            assert(r@.to_set() =~= wanted);
        }
        r
    }

    /// The functions that call `function_definition_address`, each once and in increasing
    /// order, if it is a
    /// function of the analysis or is called from one.
    pub fn callers_of_function(&self, function_definition_address: Address) -> (r: Option<Vec<Address>>)
        ensures
            match r {
                Some(callers) => self@.call_graph.by_callee.contains_key(function_definition_address)
                    && callers@.to_set() == self@.call_graph.by_callee[function_definition_address]
                    && callers@.no_duplicates()
                    && spec_strictly_increasing(callers@),
                None => !self@.call_graph.by_callee.contains_key(function_definition_address),
            },
    {
        match self.call_graph.by_callee.get(function_definition_address) {
            Some(s) => Some(collect_addresses(s)),
            None => None,
        }
    }
}

impl Analysis {
    /// Each function of the analysis with its trace, in increasing order of address.
    pub fn function_traces(&self) -> (r: Vec<(Address, &FunctionTrace)>)
        ensures
            forall|i: int| 0 <= i < r@.len() ==> #[trigger] self@.traces.contains_key(r@[i].0) && r@[i].1@ == self@.traces[r@[i].0],
            forall|f: Address| #[trigger] self@.traces.contains_key(f) ==> exists|i: int| 0 <= i < r@.len() && r@[i].0 == f,
            forall|i: int, j: int| 0 <= i < j < r@.len() ==> r@[i].0 < r@[j].0,
    {
        let m = &self.function_traces_by_definition_address;
        proof {
            lemma_addresses_are_ordered_keys();
        }
        let ghost pairs = vstd::std_specs::btree::spec_btree_map_iter(m).remaining();
        let traces = m.iter();
        proof {
            lemma_increasing_keys(pairs.map_values(|kv: (&Address, &FunctionTrace)| *kv.0));
        }
        let mut r: Vec<(Address, &FunctionTrace)> = Vec::new();
        for (definition_address, trace) in it: traces
            invariant
                it.seq() == pairs,
                pairs.no_duplicates(),
                pairs.len() == m@.dom().len(),
                forall|j: int| 0 <= j < pairs.len() ==> #[trigger] m@.contains_key(*pairs[j].0) && m@[*pairs[j].0] == *pairs[j].1,
                forall|f: Address| #[trigger] m@.contains_key(f) ==> pairs.contains((&f, &m@[f])),
                r@.len() == it.index(),
                forall|j: int| 0 <= j < r@.len() ==> #[trigger] r@[j] == (*pairs[j].0, pairs[j].1),
        {
            assert(pairs[it.index() as int] == (definition_address, trace));
            r.push((*definition_address, trace));
        }
        proof {
            assert forall|i: int| 0 <= i < r@.len() implies #[trigger] self@.traces.contains_key(r@[i].0) && r@[i].1@ == self@.traces[r@[i].0] by {
                assert(r@[i] == (*pairs[i].0, pairs[i].1));
                assert(m@.contains_key(*pairs[i].0));
            }
            assert forall|f: Address| #[trigger] self@.traces.contains_key(f) implies exists|i: int| 0 <= i < r@.len() && r@[i].0 == f by {
                assert(m@.contains_key(f));
                assert(pairs.contains((&f, &m@[f])));
                let j = choose|j: int| 0 <= j < pairs.len() && pairs[j] == (&f, &m@[f]);
                assert(r@[j] == (*pairs[j].0, pairs[j].1));
            }
            assert forall|i: int, j: int| 0 <= i < j < r@.len() implies r@[i].0 < r@[j].0 by {
                assert(r@[i] == (*pairs[i].0, pairs[i].1));
                assert(r@[j] == (*pairs[j].0, pairs[j].1));
                assert(pairs.map_values(|kv: (&Address, &FunctionTrace)| *kv.0)[i] == *pairs[i].0);
                assert(pairs.map_values(|kv: (&Address, &FunctionTrace)| *kv.0)[j] == *pairs[j].0);
            }
        }
        r
    }
}

/// A function's trace holds its first instruction.
pub proof fn lemma_trace_contains_start(memory: spec_fn(Address) -> u8, f: Address, steps: Seq<FunctionStepView>)
    requires
        spec_is_trace(memory, f, steps),
    ensures
        spec_addresses(steps).contains(f),
{
    lemma_reachable_start(|a: Address| spec_successors(memory, a), f);
}

} // verus!
