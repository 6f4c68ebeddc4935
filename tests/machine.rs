use mycpu::cpu::{Cpu, Fault, MEMORY_SIZE};
use mycpu::decode::{decode, sign_extend, Op};

/// Lays out instruction words as a little-endian memory image.
fn image(words: &[u32]) -> Vec<u8> {
    let mut bytes = Vec::new();
    for w in words {
        bytes.extend_from_slice(&w.to_le_bytes());
    }
    bytes
}

// addi x5, x0, 10
const ADDI_X5_X0_10: u32 = 0x00a0_0293;
// add x6, x5, x5
const ADD_X6_X5_X5: u32 = 0x0052_8333;
// addi x1, x0, -1
const ADDI_X1_X0_MINUS_1: u32 = 0xfff0_0093;
// addi x2, x1, 1
const ADDI_X2_X1_1: u32 = 0x0010_8113;

#[test]
fn new_sets_stack_pointer_and_clears_the_rest() {
    let cpu = Cpu::new(vec![1, 2, 3, 4]);
    assert_eq!(cpu.pc, 0);
    assert_eq!(cpu.memory, vec![1, 2, 3, 4]);
    for i in 0..32 {
        let expected = if i == 2 { MEMORY_SIZE } else { 0 };
        assert_eq!(cpu.regs[i], expected);
    }
    assert_eq!(MEMORY_SIZE, 0x800_0000);
}

#[test]
fn with_stack_top_uses_the_given_top() {
    let cpu = Cpu::with_stack_top(Vec::new(), 0x1000);
    assert_eq!(cpu.regs[2], 0x1000);
    assert!(cpu.halted());
}

#[test]
fn fetch_reads_a_little_endian_word() {
    let cpu = Cpu::new(vec![0x93, 0x02, 0xa0, 0x00]);
    assert_eq!(cpu.fetch(), Some(0x00a0_0293));
}

#[test]
fn fetch_refuses_a_word_cut_short() {
    let cpu = Cpu::new(vec![0x93, 0x02, 0xa0]);
    assert_eq!(cpu.fetch(), None);
    let mut past = Cpu::new(vec![0; 8]);
    past.pc = 12;
    assert_eq!(past.fetch(), None);
}

#[test]
fn decode_splits_the_fields() {
    assert_eq!(decode(ADDI_X5_X0_10), Op::AddImmediate { rd: 5, rs1: 0, imm: 10 });
    assert_eq!(decode(ADD_X6_X5_X5), Op::AddRegister { rd: 6, rs1: 5, rs2: 5 });
    assert_eq!(decode(0x0000_0000), Op::Undefined { opcode: 0 });
    assert_eq!(decode(0x1234_56ff), Op::Undefined { opcode: 0x7f });
}

#[test]
fn sign_extend_widens_negative_fields() {
    assert_eq!(sign_extend(0x7ff), 0x7ff);
    assert_eq!(sign_extend(0x800), 0xffff_ffff_ffff_f800);
    assert_eq!(sign_extend(0xfff), 0xffff_ffff_ffff_ffff);
    assert_eq!(sign_extend(0), 0);
}

#[test]
fn register_zero_reads_zero_after_a_write_to_it() {
    // addi x0, x0, 5
    let mut cpu = Cpu::new(Vec::new());
    cpu.regs[0] = 7;
    cpu.execute(0x0050_0013);
    assert_eq!(cpu.regs[0], 0);
    // add x0, x2, x2
    cpu.execute(0x0021_0033);
    assert_eq!(cpu.regs[0], 0);
}

#[test]
fn add_immediate_from_zero_loads_the_sign_extended_immediate() {
    let mut cpu = Cpu::new(Vec::new());
    cpu.execute(ADDI_X1_X0_MINUS_1);
    assert_eq!(cpu.regs[1], 0xffff_ffff_ffff_ffff);
    cpu.execute(ADDI_X5_X0_10);
    assert_eq!(cpu.regs[5], 10);
    // addi x7, x0, 0x7ff
    cpu.execute(0x7ff0_0393);
    assert_eq!(cpu.regs[7], 0x7ff);
}

#[test]
fn add_register_with_all_three_equal_doubles() {
    let mut cpu = Cpu::new(Vec::new());
    cpu.regs[3] = 21;
    // add x3, x3, x3
    cpu.execute(0x0031_81b3);
    assert_eq!(cpu.regs[3], 42);
    cpu.regs[3] = 0x8000_0000_0000_0001;
    cpu.execute(0x0031_81b3);
    assert_eq!(cpu.regs[3], 2);
}

#[test]
fn add_register_sums_two_sources() {
    let mut cpu = Cpu::new(Vec::new());
    cpu.regs[5] = 40;
    cpu.regs[6] = 2;
    // add x7, x5, x6
    cpu.execute(0x0062_83b3);
    assert_eq!(cpu.regs[7], 42);
    assert_eq!(cpu.regs[5], 40);
    assert_eq!(cpu.regs[6], 2);
}

#[test]
fn add_immediate_wraps_around() {
    let mut cpu = Cpu::new(image(&[ADDI_X1_X0_MINUS_1, ADDI_X2_X1_1]));
    assert_eq!(cpu.run(), Ok(()));
    assert_eq!(cpu.regs[1], 0xffff_ffff_ffff_ffff);
    assert_eq!(cpu.regs[2], 0);
}

#[test]
fn undefined_opcode_changes_only_the_program_counter() {
    let memory = image(&[0x1234_5680]);
    let mut cpu = Cpu::new(memory.clone());
    cpu.regs[9] = 99;
    let before = cpu.regs;
    assert_eq!(cpu.step(), Ok(Op::Undefined { opcode: 0 }));
    assert_eq!(cpu.regs, before);
    assert_eq!(cpu.memory, memory);
    assert_eq!(cpu.pc, 4);
}

#[test]
fn two_instruction_program_end_to_end() {
    let mut cpu = Cpu::new(image(&[ADDI_X5_X0_10, ADD_X6_X5_X5]));
    assert_eq!(cpu.run(), Ok(()));
    assert_eq!(cpu.regs[5], 10);
    assert_eq!(cpu.regs[6], 20);
    assert_eq!(cpu.pc, 8);
    assert_eq!(cpu.pc, cpu.memory.len() as u64);
}

#[test]
fn run_stops_exactly_at_the_end_of_memory() {
    let mut cpu = Cpu::new(image(&[0, 0, 0, ADDI_X5_X0_10, 0]));
    assert_eq!(cpu.run(), Ok(()));
    assert_eq!(cpu.pc, 20);
    assert_eq!(cpu.regs[5], 10);
    let mut empty = Cpu::new(Vec::new());
    assert_eq!(empty.run(), Ok(()));
    assert_eq!(empty.pc, 0);
}

#[test]
fn run_faults_on_a_trailing_partial_word() {
    let mut bytes = image(&[ADDI_X5_X0_10]);
    bytes.extend_from_slice(&[0x33, 0x83]);
    let mut cpu = Cpu::new(bytes);
    assert_eq!(cpu.run(), Err(Fault::FetchOutOfBounds { pc: 4 }));
    assert_eq!(cpu.pc, 4);
    assert_eq!(cpu.regs[5], 10);
}

#[test]
fn step_faults_without_changing_the_machine() {
    let mut cpu = Cpu::new(vec![0x13, 0x00]);
    let before = cpu.regs;
    assert_eq!(cpu.step(), Err(Fault::FetchOutOfBounds { pc: 0 }));
    assert_eq!(cpu.pc, 0);
    assert_eq!(cpu.regs, before);
}

#[test]
fn dump_lists_registers_four_per_line() {
    let mut cpu = Cpu::new(Vec::new());
    cpu.regs[31] = 0xdead_beef;
    let text = cpu.dump_registers();
    let lines: Vec<&str> = text.split('\n').collect();
    assert_eq!(lines.len(), 9);
    assert_eq!(lines[0], "");
    assert_eq!(
        lines[1],
        "x00(zero)= 0x0                x01( ra )= 0x0                x02( sp )= 0x8000000          x03( gp )= 0x0               "
    );
    assert_eq!(
        lines[8],
        "x28( t3 )= 0x0                x29( t4 )= 0x0                x30( t5 )= 0x0                x31( t6 )= 0xdeadbeef        "
    );
}
