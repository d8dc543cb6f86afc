use mos6502::cpu::InstructionSet;
use mos6502::instruction::{
    lda_immediate, lda_zero_page, lda_zero_page_x, zero_page_address, Absolute, Accumulator,
    Immediate, Instruction, InstructionInput, InstructionOutput, Operation, ZeroPage, ZeroPageX,
    ZeroPageY,
};
use mos6502::memory::MemoryError::IndexOutOfBounds;
use mos6502::memory::{Memory, RAM};
use mos6502::mos6502::{Mos6502, Unhandled, INS_LDA_IM, INS_LDA_ZP, INS_LDA_ZPX};

type Ram64 = RAM<65536>;

fn cpu_with(bytes: &[(u16, u8)]) -> Mos6502<Ram64> {
    let mut mem: Ram64 = RAM::default();
    for &(addr, value) in bytes {
        assert_eq!(mem.set(addr, value), Ok(()));
    }
    Mos6502::new(mem)
}

fn assert_power_up(cpu: &Mos6502<Ram64>) {
    assert_eq!(cpu.pc, 0xFF00);
    assert_eq!(cpu.sp, 0x0100);
    assert_eq!((cpu.a, cpu.x, cpu.y), (0, 0, 0));
    assert!(!cpu.c && !cpu.z && !cpu.i && !cpu.d && !cpu.b && !cpu.v && !cpu.n);
    assert_eq!(cpu.cycles, 0);
}

#[test]
fn new_processor_is_in_power_up_state() {
    let cpu = cpu_with(&[]);
    assert_power_up(&cpu);
}

#[test]
fn lda_immediate_loads_negative_value() {
    let mut cpu = cpu_with(&[(0xFF00, INS_LDA_IM), (0xFF01, 0x84)]);
    assert_eq!(cpu.execute(2), Ok(vec![]));
    assert_eq!(cpu.a, 0x84);
    assert!(!cpu.z);
    assert!(cpu.n);
    assert_eq!(cpu.cycles, 2);
    assert_eq!(cpu.pc, 0xFF02);
}

#[test]
fn lda_zero_page_loads_zero() {
    let mut cpu = cpu_with(&[(0xFF00, INS_LDA_ZP), (0xFF01, 0x42), (0x42, 0x00)]);
    cpu.a = 0x33;
    assert_eq!(cpu.execute(3), Ok(vec![]));
    assert_eq!(cpu.a, 0x00);
    assert!(cpu.z);
    assert!(!cpu.n);
    assert_eq!(cpu.cycles, 3);
}

#[test]
fn lda_zero_page_x_wraps_within_zero_page() {
    let mut cpu = cpu_with(&[(0xFF00, INS_LDA_ZPX), (0xFF01, 0x80), (0x7F, 0x11), (0x17F, 0x99)]);
    cpu.x = 0xFF;
    assert_eq!(cpu.execute(4), Ok(vec![]));
    assert_eq!(cpu.a, 0x11);
    assert_eq!(cpu.cycles, 4);
    assert_eq!(cpu.pc, 0xFF02);
}

#[test]
fn unhandled_opcode_is_reported_and_skipped() {
    let mut cpu = cpu_with(&[(0xFF00, 0x02), (0xFF01, INS_LDA_IM), (0xFF02, 0x05)]);
    let met = cpu.execute(3);
    assert_eq!(met, Ok(vec![Unhandled { pc: 0xFF00, op_code: 0x02 }]));
    assert_eq!(cpu.a, 0x05);
    assert_eq!(cpu.pc, 0xFF03);
    assert_eq!(cpu.cycles, 3);
}

#[test]
fn unhandled_opcode_advances_pc_by_one() {
    let mut cpu = cpu_with(&[(0xFF00, 0xFF)]);
    let met = cpu.execute(1);
    assert_eq!(met, Ok(vec![Unhandled { pc: 0xFF00, op_code: 0xFF }]));
    assert_eq!(cpu.pc, 0xFF01);
    assert_eq!(cpu.cycles, 1);
}

#[test]
fn reset_then_execute_zero_is_power_up() {
    let mut cpu = cpu_with(&[(0xFF00, INS_LDA_IM), (0xFF01, 0x84), (0x10, 0x77)]);
    cpu.x = 3;
    cpu.c = true;
    assert_eq!(cpu.execute(2), Ok(vec![]));
    cpu.reset();
    assert_eq!(cpu.execute(0), Ok(vec![]));
    assert_power_up(&cpu);
    assert_eq!(cpu.memory.get(0xFF00), Ok(0));
    assert_eq!(cpu.memory.get(0xFF01), Ok(0));
    assert_eq!(cpu.memory.get(0x10), Ok(0));
    assert_eq!(cpu.is.get_ins(INS_LDA_IM), Some(Operation::LdaImmediate));
}

#[test]
fn execute_zero_does_nothing() {
    let mut cpu = cpu_with(&[(0xFF00, INS_LDA_IM), (0xFF01, 0x84)]);
    assert_eq!(cpu.execute(0), Ok(vec![]));
    assert_power_up(&cpu);
}

#[test]
fn execute_overshoots_by_instruction_in_flight() {
    let mut cpu = cpu_with(&[(0xFF00, INS_LDA_ZPX), (0xFF01, 0x10), (0x10, 0x01), (0xFF02, INS_LDA_IM), (0xFF03, 0x02)]);
    assert_eq!(cpu.execute(2), Ok(vec![]));
    assert_eq!(cpu.cycles, 4);
    assert_eq!(cpu.a, 0x01);
    assert_eq!(cpu.execute(0), Ok(vec![]));
    assert_eq!(cpu.cycles, 4);
    assert_eq!(cpu.pc, 0xFF02);
    assert_eq!(cpu.execute(1), Ok(vec![]));
    assert_eq!(cpu.cycles, 6);
    assert_eq!(cpu.a, 0x02);
}

#[test]
fn execute_stops_once_budget_is_reached() {
    let mut cpu = cpu_with(&[(0xFF00, INS_LDA_IM), (0xFF01, 0x01), (0xFF02, INS_LDA_IM), (0xFF03, 0x02)]);
    assert_eq!(cpu.execute(2), Ok(vec![]));
    assert_eq!(cpu.a, 0x01);
    assert_eq!(cpu.pc, 0xFF02);
    assert_eq!(cpu.cycles, 2);
}

#[test]
fn immediate_load_flags_for_every_value() {
    for v in 0..=255u8 {
        let mut cpu = cpu_with(&[(0xFF00, INS_LDA_IM), (0xFF01, v)]);
        cpu.c = true;
        cpu.v = true;
        assert_eq!(cpu.execute(2), Ok(vec![]));
        assert_eq!(cpu.a, v);
        assert_eq!(cpu.z, v == 0);
        assert_eq!(cpu.n, v & 0x80 != 0);
        assert!(cpu.c && cpu.v);
    }
}

#[test]
fn zero_page_address_wraps() {
    assert_eq!(zero_page_address(0x80, 0xFF), 0x7F);
    assert_eq!(zero_page_address(0x10, 0x05), 0x15);
    assert_eq!(zero_page_address(0xFF, 0x01), 0x00);
    assert_eq!(zero_page_address(0x00, 0x00), 0x00);
}

#[test]
fn opcode_fetch_out_of_bounds_aborts() {
    let mem: RAM<256> = RAM::default();
    let mut cpu = Mos6502::new(mem);
    assert_eq!(cpu.execute(1), Err(IndexOutOfBounds { index: 0xFF00, size: 256 }));
    assert_eq!(cpu.pc, 0xFF00);
    assert_eq!(cpu.cycles, 0);
}

#[test]
fn operand_fetch_out_of_bounds_aborts() {
    let mut mem: RAM<0xFF01> = RAM::default();
    assert_eq!(mem.set(0xFF00, INS_LDA_IM), Ok(()));
    let mut cpu = Mos6502::new(mem);
    assert_eq!(cpu.execute(2), Err(IndexOutOfBounds { index: 0xFF01, size: 0xFF01 }));
    assert_eq!(cpu.pc, 0xFF01);
    assert_eq!(cpu.cycles, 1);
}

#[test]
fn pc_wraps_after_last_address() {
    let mut cpu = cpu_with(&[(0xFFFF, INS_LDA_IM), (0x0000, 0x42)]);
    cpu.pc = 0xFFFF;
    assert_eq!(cpu.execute(2), Ok(vec![]));
    assert_eq!(cpu.a, 0x42);
    assert_eq!(cpu.pc, 0x0001);
}

#[test]
fn absolute_reads_little_endian_address() {
    let mut cpu = cpu_with(&[(0xFF00, 0x34), (0xFF01, 0x12), (0x1234, 0x5A)]);
    assert_eq!(Absolute::new(&mut cpu), Ok(Absolute(0x5A)));
    assert_eq!(cpu.pc, 0xFF02);
    assert_eq!(cpu.cycles, 3);
}

#[test]
fn zero_page_y_uses_y_register() {
    let mut cpu = cpu_with(&[(0xFF00, 0xF0), (0x20, 0x66), (0xF0, 0x01)]);
    cpu.y = 0x30;
    cpu.x = 0x01;
    assert_eq!(ZeroPageY::new(&mut cpu), Ok(ZeroPageY(0x66)));
    assert_eq!(cpu.pc, 0xFF01);
    assert_eq!(cpu.cycles, 3);
}

#[test]
fn zero_page_reads_byte_at_address() {
    let mut cpu = cpu_with(&[(0xFF00, 0x05), (0x05, 0xAB)]);
    assert_eq!(ZeroPage::new(&mut cpu), Ok(ZeroPage(0xAB)));
    assert_eq!(cpu.cycles, 2);
}

#[test]
fn zero_page_x_costs_extra_cycle() {
    let mut cpu = cpu_with(&[(0xFF00, 0x05), (0x06, 0xCD)]);
    cpu.x = 1;
    assert_eq!(ZeroPageX::new(&mut cpu), Ok(ZeroPageX(0xCD)));
    assert_eq!(cpu.cycles, 3);
}

#[test]
fn accumulator_input_reads_register_without_cost() {
    let mut cpu = cpu_with(&[]);
    cpu.a = 0x3C;
    assert_eq!(Accumulator::new(&mut cpu), Ok(Accumulator(0x3C)));
    assert_eq!(cpu.pc, 0xFF00);
    assert_eq!(cpu.cycles, 0);
}

#[test]
fn immediate_input_fetches_next_byte() {
    let mut cpu = cpu_with(&[(0xFF00, 0x9D)]);
    assert_eq!(Immediate::new(&mut cpu), Ok(Immediate(0x9D)));
    assert_eq!(cpu.pc, 0xFF01);
    assert_eq!(cpu.cycles, 1);
}

#[test]
fn pair_input_resolves_in_order() {
    let mut cpu = cpu_with(&[(0xFF00, 0x01), (0xFF01, 0x02)]);
    let pair = <(Immediate, Immediate)>::new(&mut cpu);
    assert_eq!(pair, Ok((Immediate(0x01), Immediate(0x02))));
    assert_eq!(cpu.cycles, 2);
}

#[test]
fn pair_output_applies_in_order() {
    let mut cpu = cpu_with(&[]);
    (Accumulator(0x80), Accumulator(0x00)).apply(&mut cpu);
    assert_eq!(cpu.a, 0x00);
    assert!(cpu.z);
    assert!(!cpu.n);
}

#[test]
fn accumulator_output_sets_flags() {
    let mut cpu = cpu_with(&[]);
    cpu.d = true;
    Accumulator(0xFF).apply(&mut cpu);
    assert_eq!(cpu.a, 0xFF);
    assert!(!cpu.z);
    assert!(cpu.n);
    assert!(cpu.d);
}

#[test]
fn load_transformations_copy_operand() {
    assert_eq!(lda_immediate(Immediate(7)), Accumulator(7));
    assert_eq!(lda_zero_page(ZeroPage(8)), Accumulator(8));
    assert_eq!(lda_zero_page_x(ZeroPageX(9)), Accumulator(9));
}

#[test]
fn operation_execute_runs_resolver_and_effect() {
    let mut cpu = cpu_with(&[(0xFF00, 0x00)]);
    cpu.a = 5;
    assert_eq!(Operation::LdaImmediate.execute(&mut cpu), Ok(()));
    assert_eq!(cpu.a, 0);
    assert!(cpu.z);
}

#[test]
fn instruction_set_last_registration_wins() {
    let mut is = InstructionSet::default();
    assert_eq!(is.get_ins(0xEA), None);
    is.add_ins(0xEA, Operation::LdaImmediate);
    is.add_ins(0xEA, Operation::LdaZeroPage);
    assert_eq!(is.get_ins(0xEA), Some(Operation::LdaZeroPage));
    assert_eq!(is.get_ins(0xEB), None);
}

#[test]
fn standard_table_names_three_loads() {
    let cpu = cpu_with(&[]);
    assert_eq!(cpu.is.get_ins(INS_LDA_IM), Some(Operation::LdaImmediate));
    assert_eq!(cpu.is.get_ins(INS_LDA_ZP), Some(Operation::LdaZeroPage));
    assert_eq!(cpu.is.get_ins(INS_LDA_ZPX), Some(Operation::LdaZeroPageX));
    assert_eq!(cpu.is.get_ins(0xAD), None);
}

#[test]
fn operand_read_out_of_bounds_aborts() {
    let mut mem: RAM<0x10> = RAM::default();
    assert_eq!(mem.set(0x00, INS_LDA_ZP), Ok(()));
    assert_eq!(mem.set(0x01, 0x42), Ok(()));
    let mut cpu = Mos6502::new(mem);
    cpu.pc = 0x00;
    assert_eq!(cpu.execute(3), Err(IndexOutOfBounds { index: 0x42, size: 0x10 }));
    assert_eq!(cpu.pc, 0x02);
    assert_eq!(cpu.cycles, 2);
}
