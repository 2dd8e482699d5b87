use nes_emulator::analyser::{trace_function_definition, Analysis, CallTargetMemoryMap, FunctionStep};
use nes_emulator::debug::InstructionType;
use nes_emulator::mapper::nrom::{Horizontal, Nrom};
use nes_emulator::nes::Nes;

/// A NES whose 16KB PRG ROM, seen at 0x8000 and at 0xC000, holds:
/// 0xC000 JSR $C010; BEQ +2; LDA #1; RTS
/// 0xC010 LDA #2; RTS
/// 0xC020 JMP ($0200)
/// 0xC030 an unknown opcode
fn program() -> Nes<Nrom<Horizontal>> {
    let mut prg = vec![0xEAu8; 0x4000];
    prg[0x00..0x08].copy_from_slice(&[0x20, 0x10, 0xC0, 0xF0, 0x02, 0xA9, 0x01, 0x60]);
    prg[0x10..0x13].copy_from_slice(&[0xA9, 0x02, 0x60]);
    prg[0x20..0x23].copy_from_slice(&[0x6C, 0x00, 0x02]);
    prg[0x30] = 0x02;
    prg[0x3FFA..0x4000].copy_from_slice(&[0x00, 0xC0, 0x00, 0xC0, 0x00, 0xC0]);
    Nes::new(Nrom::new(Horizontal, &prg, &[]).unwrap())
}

#[test]
fn trace_follows_calls_and_branches() {
    let nes = program();
    let trace = trace_function_definition(0xC000, nes.devices_with_oam());
    let steps = trace.steps();
    assert_eq!(steps.len(), 4);
    assert_eq!(steps.iter().map(|s| s.address()).collect::<Vec<_>>(), vec![0xC000, 0xC003, 0xC005, 0xC007]);
    match &steps[0] {
        FunctionStep::FunctionCall { instruction_with_operand, callee } => {
            assert_eq!(*callee, 0xC010);
            assert_eq!(instruction_with_operand.operand, vec![0x10, 0xC0]);
        }
        _ => panic!("expected a function call"),
    }
    match &steps[1] {
        FunctionStep::Branch { absolute_target, relative_target, .. } => {
            assert_eq!(*absolute_target, 0xC007);
            assert_eq!(*relative_target, 2);
        }
        _ => panic!("expected a branch"),
    }
    match &steps[3] {
        FunctionStep::TracedInstruction(i) => assert_eq!(i.instruction.instruction_type(), InstructionType::Rts),
        _ => panic!("expected a traced instruction"),
    }
    assert!(trace.contains_address(0xC000));
    assert!(trace.contains_address(0xC005));
    assert!(!trace.contains_address(0xC010));
    assert!(!trace.contains_address(0xC006));
}

#[test]
fn trace_stops_at_indirect_jumps_and_unknown_opcodes() {
    let nes = program();
    let trace = trace_function_definition(0xC020, nes.devices_with_oam());
    assert_eq!(trace.steps().len(), 1);
    assert!(matches!(trace.steps()[0], FunctionStep::JumpIndirect(_)));
    let trace = trace_function_definition(0xC030, nes.devices_with_oam());
    assert_eq!(trace.steps().len(), 1);
    match &trace.steps()[0] {
        FunctionStep::InvalidOpcode { address, opcode } => {
            assert_eq!(*address, 0xC030);
            assert_eq!(*opcode, 0x02);
        }
        _ => panic!("expected an invalid opcode"),
    }
}

#[test]
fn trace_of_backward_branch_loop_visits_each_address_once() {
    // 0xC000: DEX; BNE -3; RTS
    let mut prg = vec![0xEAu8; 0x4000];
    prg[0..4].copy_from_slice(&[0xCA, 0xD0, 0xFD, 0x60]);
    let nes = Nes::new(Nrom::new(Horizontal, &prg, &[]).unwrap());
    let trace = trace_function_definition(0xC000, nes.devices_with_oam());
    assert_eq!(trace.steps().iter().map(|s| s.address()).collect::<Vec<_>>(), vec![0xC000, 0xC001, 0xC003]);
    match &trace.steps()[1] {
        FunctionStep::Branch { absolute_target, relative_target, .. } => {
            assert_eq!(*absolute_target, 0xC000);
            assert_eq!(*relative_target, -3);
        }
        _ => panic!("expected a branch"),
    }
}

#[test]
fn analysis_finds_called_functions_and_the_call_graph() {
    let nes = program();
    let analysis = Analysis::analyse(nes.devices_with_oam(), &CallTargetMemoryMap, &[0xC000, 0xC020, 0xC030]);
    let traced = analysis.function_traces().iter().map(|(a, _)| *a).collect::<Vec<_>>();
    assert_eq!(traced, vec![0xC000, 0xC010, 0xC020, 0xC030]);
    assert_eq!(analysis.function_trace(0xC010).unwrap().steps().len(), 2);
    assert!(analysis.function_trace(0xC005).is_none());
    let by_caller = analysis.call_graph().by_caller();
    assert_eq!(by_caller.get(0xC000).unwrap().iter().cloned().collect::<Vec<_>>(), vec![0xC010]);
    assert!(by_caller.get(0xC010).unwrap().is_empty());
    let by_callee = analysis.call_graph().by_callee();
    assert_eq!(by_callee.get(0xC010).unwrap().iter().cloned().collect::<Vec<_>>(), vec![0xC000]);
    assert!(by_callee.get(0xC000).unwrap().is_empty());
    assert_eq!(analysis.functions_containing_address(0xC005), vec![0xC000]);
    assert_eq!(analysis.functions_containing_address(0xC012), vec![0xC010]);
    assert!(analysis.functions_containing_address(0x1234).is_empty());
    assert_eq!(analysis.callers_of_function(0xC010), Some(vec![0xC000]));
    assert_eq!(analysis.callers_of_function(0xC020), Some(vec![]));
    assert_eq!(analysis.callers_of_function(0x1234), None);
}

#[test]
fn descendants_of_a_function() {
    let nes = program();
    let analysis = Analysis::analyse(nes.devices_with_oam(), &CallTargetMemoryMap, &[0xC000, 0xC020]);
    let descendants = analysis.call_graph().by_caller().descendants_of(0xC000);
    assert_eq!(descendants.get(0xC000).unwrap().iter().cloned().collect::<Vec<_>>(), vec![0xC010]);
    assert!(descendants.get(0xC010).unwrap().is_empty());
    assert!(descendants.get(0xC020).is_none());
    let none = analysis.call_graph().by_caller().descendants_of(0x1234);
    assert!(none.get(0x1234).is_none());
}

#[test]
fn call_graph_as_dot() {
    let nes = program();
    let analysis = Analysis::analyse(nes.devices_with_oam(), &CallTargetMemoryMap, &[0xC000, 0xC020]);
    assert_eq!(analysis.call_graph().by_caller().dot_string(), "digraph {\n  f0xC000 -> f0xC010;\n}\n");
    assert_eq!(analysis.call_graph().by_callee().dot_string(), "digraph {\n  f0xC010 -> f0xC000;\n}\n");
}

#[test]
fn dot_of_a_graph_without_edges() {
    let nes = program();
    let analysis = Analysis::analyse(nes.devices_with_oam(), &CallTargetMemoryMap, &[0xC007]);
    let by_caller = analysis.call_graph().by_caller();
    assert_eq!(by_caller.get(0xC007).unwrap().len(), 0);
    assert_eq!(by_caller.descendants_of(0xC007).dot_string(), "digraph {\n}\n");
}

#[test]
fn steps_and_traces_as_text() {
    let nes = program();
    let trace = trace_function_definition(0xC000, nes.devices_with_oam());
    let lines: Vec<String> = trace.steps().iter().map(|s| s.to_string()).collect();
    assert_eq!(
        lines,
        vec![
            "C000  Jsr(Absolute) C010".to_string(),
            "C003  Beq(Relative) 02 (relative: 2, absolute: C007)".to_string(),
            "C005  Lda(Immediate) 01".to_string(),
            "C007  Rts(Implied) ".to_string(),
        ]
    );
    assert_eq!(trace.to_string(), lines.join("\n") + "\n");
    let indirect = trace_function_definition(0xC020, nes.devices_with_oam());
    assert_eq!(indirect.to_string(), "C020  Jmp(Indirect) 0200 <--- END\n");
    let invalid = trace_function_definition(0xC030, nes.devices_with_oam());
    assert_eq!(invalid.steps()[0].to_string(), "C030  ???????? (02)");
}

#[test]
fn backward_branch_offset_as_text() {
    let mut prg = vec![0xEAu8; 0x4000];
    prg[0..4].copy_from_slice(&[0xCA, 0xD0, 0xFD, 0x60]);
    let nes = Nes::new(Nrom::new(Horizontal, &prg, &[]).unwrap());
    let trace = trace_function_definition(0xC000, nes.devices_with_oam());
    assert_eq!(trace.steps()[1].to_string(), "C001  Bne(Relative) FD (relative: FD, absolute: C000)");
    assert_eq!(trace.steps()[0].to_string(), "C000  Dex(Implied) ");
}
