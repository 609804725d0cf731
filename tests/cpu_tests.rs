use rust_nes::cpu::{CpuError, Flow, CPU};
use rust_nes::opcode::{standard_opcode_of, AddressingMode, Mnemonic, OpCode, OpcodeTable};

#[test]
fn test_0xa9_lda_immidiate_load_data() {
    let mut cpu = CPU::new();
    cpu.load_and_run(vec![0xa9, 0x05, 0x00]).unwrap();
    assert_eq!(cpu.register_a, 5);
    assert!(cpu.status & 0b0000_0010 == 0);
    assert!(cpu.status & 0b1000_0000 == 0);
}

#[test]
fn test_0xa9_lda_zero_flag() {
    let mut cpu = CPU::new();
    cpu.load_and_run(vec![0xa9, 0x00, 0x00]).unwrap();
    assert!(cpu.status & 0b0000_0010 == 0b10);
}

#[test]
fn test_0xaa_tax_move_a_to_x() {
    let mut cpu = CPU::new();
    cpu.load_and_run(vec![0xa9, 0x0A, 0xaa, 0x00]).unwrap();

    assert_eq!(cpu.register_x, 10)
}

#[test]
fn test_5_ops_working_together() {
    let mut cpu = CPU::new();
    cpu.load_and_run(vec![0xa9, 0xc0, 0xaa, 0xe8, 0x00]).unwrap();

    assert_eq!(cpu.register_x, 0xc1)
}

#[test]
fn test_inx_overflow() {
    let mut cpu = CPU::new();
    cpu.load_and_run(vec![0xa9, 0xff, 0xaa, 0xe8, 0xe8, 0x00]).unwrap();

    assert_eq!(cpu.register_x, 1)
}

#[test]
fn test_lda_from_memory() {
    let mut cpu = CPU::new();
    cpu.memory_write(0x10, 0x55);

    cpu.load_and_run(vec![0xa5, 0x10, 0x00]).unwrap();

    assert_eq!(cpu.register_a, 0x55);
}

#[test]
fn lda_negative_flag_follows_bit_seven() {
    let mut cpu = CPU::new();
    cpu.load_and_run(vec![0xa9, 0x80, 0x00]).unwrap();
    assert_eq!(cpu.register_a, 0x80);
    assert!(cpu.status & 0b1000_0000 != 0);
    assert!(cpu.status & 0b0000_0010 == 0);
}

#[test]
fn tax_of_zero_sets_zero_flag() {
    let mut cpu = CPU::new();
    cpu.load_and_run(vec![0xa9, 0x00, 0xaa, 0x00]).unwrap();
    assert_eq!(cpu.register_x, 0);
    assert!(cpu.status & 0b0000_0010 != 0);
    assert!(cpu.status & 0b1000_0000 == 0);
}

#[test]
fn inx_from_ff_wraps_to_zero_with_zero_flag() {
    let mut cpu = CPU::new();
    cpu.load_and_run(vec![0xa9, 0xff, 0xaa, 0xe8, 0x00]).unwrap();
    assert_eq!(cpu.register_x, 0);
    assert!(cpu.status & 0b0000_0010 != 0);
    assert!(cpu.status & 0b1000_0000 == 0);
}

#[test]
fn store_then_load_round_trip() {
    let mut cpu = CPU::new();
    // LDA #$42; STA $20; LDA #$00; LDA $20; BRK
    cpu.load_and_run(vec![0xa9, 0x42, 0x85, 0x20, 0xa9, 0x00, 0xa5, 0x20, 0x00]).unwrap();
    assert_eq!(cpu.memory[0x20], 0x42);
    assert_eq!(cpu.register_a, 0x42);
}

#[test]
fn break_sets_break_flag_and_halts_after_it() {
    let mut cpu = CPU::new();
    cpu.load_and_run(vec![0x00]).unwrap();
    assert_eq!(cpu.status, 0b0001_0000);
    assert_eq!(cpu.program_counter, 0x8001);
}

#[test]
fn unrecognized_opcode_is_reported_without_change() {
    let mut cpu = CPU::new();
    cpu.load(vec![0xa9, 0x07, 0x02, 0x00]).unwrap();
    cpu.reset();
    assert_eq!(cpu.step(), Ok(Flow::Continue));
    let a = cpu.register_a;
    let status = cpu.status;
    let pc = cpu.program_counter;
    assert_eq!(cpu.step(), Err(CpuError::UnrecognizedOpcode { opcode: 0x02, address: 0x8002 }));
    assert_eq!(cpu.register_a, a);
    assert_eq!(cpu.status, status);
    assert_eq!(cpu.program_counter, pc);
}

#[test]
fn run_stops_on_unrecognized_opcode() {
    let mut cpu = CPU::new();
    let r = cpu.load_and_run(vec![0xa9, 0x07, 0xff, 0x00]);
    assert_eq!(r, Err(CpuError::UnrecognizedOpcode { opcode: 0xff, address: 0x8002 }));
    assert_eq!(cpu.register_a, 7);
    assert_eq!(cpu.program_counter, 0x8002);
}

#[test]
fn oversized_program_is_refused() {
    let mut cpu = CPU::new();
    let r = cpu.load_and_run(vec![0xea; 0x8001]);
    assert_eq!(r, Err(CpuError::ProgramTooLarge { len: 0x8001 }));
    assert_eq!(cpu.program_counter, 0);
    assert_eq!(cpu.memory[0x8000], 0);
}

#[test]
fn full_size_program_keeps_its_own_reset_vector() {
    let mut program = vec![0x00u8; 0x8000];
    program[0x1000] = 0xa9;
    program[0x1001] = 0x33;
    program[0x1002] = 0x00;
    program[0x7ffc] = 0x00;
    program[0x7ffd] = 0x90;
    let mut cpu = CPU::new();
    cpu.load_and_run(program).unwrap();
    assert_eq!(cpu.register_a, 0x33);
    assert_eq!(cpu.program_counter, 0x9003);
}

#[test]
fn load_sets_reset_vector_for_short_program() {
    let mut cpu = CPU::new();
    cpu.load(vec![0xe8, 0x00]).unwrap();
    assert_eq!(cpu.program_counter, 0x8000);
    assert_eq!(cpu.memory_read_u16(0xfffc), 0x8000);
    assert_eq!(cpu.memory_read(0x8000), 0xe8);
}

#[test]
fn reset_clears_registers_and_reads_vector() {
    let mut cpu = CPU::new();
    cpu.register_a = 1;
    cpu.register_x = 2;
    cpu.register_y = 3;
    cpu.status = 0xff;
    cpu.memory_write_u16(0xfffc, 0x1234);
    cpu.reset();
    assert_eq!((cpu.register_a, cpu.register_x, cpu.register_y, cpu.status), (0, 0, 0, 0));
    assert_eq!(cpu.program_counter, 0x1234);
}

#[test]
fn memory_u16_is_little_endian_and_wraps() {
    let mut cpu = CPU::new();
    cpu.memory_write_u16(0x0200, 0xabcd);
    assert_eq!(cpu.memory_read(0x0200), 0xcd);
    assert_eq!(cpu.memory_read(0x0201), 0xab);
    assert_eq!(cpu.memory_read_u16(0x0200), 0xabcd);
    cpu.memory_write(0xffff, 0x34);
    cpu.memory_write(0x0000, 0x12);
    assert_eq!(cpu.memory_read_u16(0xffff), 0x1234);
}

#[test]
fn adc_sets_overflow_and_negative() {
    let mut cpu = CPU::new();
    cpu.load_and_run(vec![0xa9, 0x50, 0x69, 0x50, 0x00]).unwrap();
    assert_eq!(cpu.register_a, 0xa0);
    assert!(cpu.status & 0b0100_0000 != 0);
    assert!(cpu.status & 0b0000_0001 == 0);
    assert!(cpu.status & 0b1000_0000 != 0);
    assert!(cpu.status & 0b0000_0010 == 0);
}

#[test]
fn adc_carry_out_and_in() {
    let mut cpu = CPU::new();
    cpu.load_and_run(vec![0xa9, 0xff, 0x69, 0x01, 0x00]).unwrap();
    assert_eq!(cpu.register_a, 0);
    assert!(cpu.status & 0b0000_0001 != 0);
    assert!(cpu.status & 0b0000_0010 != 0);
    assert!(cpu.status & 0b0100_0000 == 0);

    let mut cpu = CPU::new();
    cpu.load_and_run(vec![0xa9, 0xff, 0x69, 0x01, 0x69, 0x05, 0x00]).unwrap();
    assert_eq!(cpu.register_a, 6);
    assert!(cpu.status & 0b0000_0001 == 0);
}

#[test]
fn adc_negative_plus_negative_overflows() {
    let mut cpu = CPU::new();
    cpu.load_and_run(vec![0xa9, 0x80, 0x69, 0x80, 0x00]).unwrap();
    assert_eq!(cpu.register_a, 0);
    assert!(cpu.status & 0b0100_0000 != 0);
    assert!(cpu.status & 0b0000_0001 != 0);
}

#[test]
fn zero_page_x_wraps_within_zero_page() {
    let mut cpu = CPU::new();
    cpu.memory_write(0x0f, 0x77);
    // LDA #$20; TAX; LDA $EF,X; BRK
    cpu.load_and_run(vec![0xa9, 0x20, 0xaa, 0xb5, 0xef, 0x00]).unwrap();
    assert_eq!(cpu.register_a, 0x77);
}

#[test]
fn absolute_and_absolute_x_addressing() {
    let mut cpu = CPU::new();
    cpu.memory_write(0x1234, 0x11);
    cpu.memory_write(0x1235, 0x22);
    // LDA $1234; STA $0300; LDA #$01; TAX; LDA $1234,X; BRK
    cpu.load_and_run(vec![0xad, 0x34, 0x12, 0x8d, 0x00, 0x03, 0xa9, 0x01, 0xaa, 0xbd, 0x34, 0x12, 0x00])
        .unwrap();
    assert_eq!(cpu.memory_read(0x0300), 0x11);
    assert_eq!(cpu.register_a, 0x22);
}

#[test]
fn indirect_x_pointer_wraps_at_zero_page_end() {
    let mut cpu = CPU::new();
    cpu.memory_write(0xff, 0x00);
    cpu.memory_write(0x00, 0x04);
    cpu.memory_write(0x0400, 0x99);
    // LDA ($FF,X) with X = 0
    cpu.load_and_run(vec![0xa1, 0xff, 0x00]).unwrap();
    assert_eq!(cpu.register_a, 0x99);
}

#[test]
fn indirect_y_adds_y_to_pointer() {
    let mut cpu = CPU::new();
    cpu.memory_write(0xff, 0xf0);
    cpu.memory_write(0x00, 0x04);
    cpu.memory_write(0x04f3, 0x5a);
    cpu.load(vec![0xb1, 0xff, 0x00]).unwrap();
    cpu.reset();
    cpu.register_y = 3;
    cpu.run().unwrap();
    assert_eq!(cpu.register_a, 0x5a);
}

#[test]
fn operand_address_of_immediate_is_program_counter() {
    let mut cpu = CPU::new();
    cpu.program_counter = 0x4000;
    assert_eq!(cpu.get_operand_address(AddressingMode::Immediate), 0x4000);
    cpu.memory_write(0x4000, 0xfe);
    cpu.register_y = 5;
    assert_eq!(cpu.get_operand_address(AddressingMode::ZeroPageY), 0x03);
}

#[test]
fn unsupported_mode_is_reported() {
    let mut table = OpcodeTable::empty();
    assert!(table.register(OpCode::new(0x02, Mnemonic::Lda, 1, 2, AddressingMode::NoneAddressing)));
    let mut cpu = CPU::with_opcodes(table);
    let r = cpu.load_and_run(vec![0x02]);
    assert_eq!(r, Err(CpuError::UnsupportedMode { opcode: 0x02, address: 0x8000 }));
}

#[test]
fn instruction_past_end_of_memory_is_reported() {
    let mut cpu = CPU::new();
    cpu.memory_write(0xfffe, 0xa9);
    cpu.program_counter = 0xfffe;
    assert_eq!(cpu.step(), Err(CpuError::EndOfMemory { opcode: 0xa9, address: 0xfffe }));
    assert_eq!(cpu.program_counter, 0xfffe);
}

#[test]
fn table_register_and_lookup() {
    let mut table = OpcodeTable::empty();
    assert_eq!(table.lookup(0xa9), None);
    let op = OpCode::new(0xa9, Mnemonic::Lda, 2, 2, AddressingMode::Immediate);
    assert!(table.register(op));
    assert_eq!(table.lookup(0xa9), Some(op));
    assert!(!table.register(OpCode::new(0x03, Mnemonic::Tax, 0, 2, AddressingMode::NoneAddressing)));
    assert_eq!(table.lookup(0x03), None);
}

#[test]
fn standard_table_entries() {
    let table = OpcodeTable::standard();
    assert_eq!(table.lookup(0xb1), Some(OpCode::new(0xb1, Mnemonic::Lda, 2, 5, AddressingMode::IndirectY)));
    assert_eq!(table.lookup(0x9d), Some(OpCode::new(0x9d, Mnemonic::Sta, 3, 5, AddressingMode::AbsoluteX)));
    assert_eq!(table.lookup(0x00), Some(OpCode::new(0x00, Mnemonic::Brk, 1, 7, AddressingMode::NoneAddressing)));
    assert_eq!(table.lookup(0x02), None);
    assert_eq!(standard_opcode_of(0xe8), Some(OpCode::new(0xe8, Mnemonic::Inx, 1, 2, AddressingMode::NoneAddressing)));
}

#[test]
fn instructions_called_directly() {
    let mut cpu = CPU::new();
    cpu.register_a = 0x81;
    cpu.tax();
    assert_eq!(cpu.register_x, 0x81);
    assert!(cpu.status & 0x80 != 0);
    cpu.inx();
    assert_eq!(cpu.register_x, 0x82);
    cpu.memory_write(0x0000, 0x10);
    cpu.sta(AddressingMode::ZeroPage);
    assert_eq!(cpu.memory_read(0x10), 0x81);
    cpu.memory_write(0x0000, 0x7f);
    cpu.lda(AddressingMode::Immediate);
    assert_eq!(cpu.register_a, 0x7f);
    cpu.adc(AddressingMode::Immediate);
    assert_eq!(cpu.register_a, 0xfe);
    cpu.set_zero_negative(0);
    assert!(cpu.status & 0x02 != 0);
    cpu.brk();
    assert!(cpu.status & 0x10 != 0);
}
