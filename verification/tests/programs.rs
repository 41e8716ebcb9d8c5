use cpu6502::cpu::CPU;
use cpu6502::error::CpuError;
use cpu6502::flags::Flag;
use cpu6502::machine::StepOutcome;

#[test]
fn test_0xa9_lda_immidate_load_data() {
    let mut cpu = CPU::new();
    cpu.load_and_run(vec![0xa9, 0x05, 0x00]).unwrap();
    assert_eq!(cpu.register_a, 0x05);
    assert!(cpu.status.bits() & 0b0000_0010 == 0b0000_0000);
    assert!(cpu.status.bits() & 0b1000_0000 == 0b0000_0000);
}

#[test]
fn test_0xa9_lda_zero_flag() {
    let mut cpu = CPU::new();
    cpu.load_and_run(vec![0xa9, 0x00, 0x00]).unwrap();
    assert!(cpu.status.bits() & 0b0000_0010 == 0b0000_0010);
}

#[test]
fn test_0xa9_lda_negative_flag() {
    let mut cpu = CPU::new();
    cpu.load_and_run(vec![0xa9, 0b1100_0000, 0x00]).unwrap();
    assert!(cpu.status.bits() & 0b1000_0000 == 0b1000_0000);
}

#[test]
fn test_0xaa_tax_move_a_to_x() {
    let mut cpu = CPU::new();
    cpu.load_and_run(vec![0xa9, 0x0a, 0xaa, 0x00]).unwrap();
    assert_eq!(cpu.register_x, 10);
}

#[test]
fn test_inx_overflow() {
    let mut cpu = CPU::new();
    cpu.load_and_run(vec![0xa9, 0xff, 0xe8, 0x00]).unwrap();

    assert_eq!(cpu.register_x, 1)
}

#[test]
fn test_5_ops_working_together() {
    let mut cpu = CPU::new();
    cpu.load_and_run(vec![0xa9, 0xc0, 0xaa, 0xe8, 0x00]).unwrap();

    assert_eq!(cpu.register_x, 0xc1)
}

#[test]
fn test_lda_from_memory() {
    let mut cpu = CPU::new();
    cpu.mem_write(0x10, 0x55);
    cpu.load_and_run(vec![0xa5, 0x10, 0x00]).unwrap();
    assert_eq!(cpu.register_a, 0x55);
}

#[test]
fn immediate_load_halts_at_the_second_step() {
    let mut cpu = CPU::new();
    cpu.load(vec![0xa9, 0x05, 0x00]);
    cpu.reset();
    assert_eq!(cpu.program_counter, 0x8000);
    assert_eq!(cpu.step(), Ok(StepOutcome::Continue));
    assert_eq!(cpu.register_a, 0x05);
    assert_eq!(cpu.program_counter, 0x8002);
    assert!(!cpu.status.contains(Flag::Zero));
    assert!(!cpu.status.contains(Flag::Negative));
    assert_eq!(cpu.step(), Ok(StepOutcome::Halt));
    assert_eq!(cpu.program_counter, 0x8003);
}

#[test]
fn run_reports_success_on_break() {
    let mut cpu = CPU::new();
    assert_eq!(cpu.load_and_run(vec![0xa9, 0x05, 0x00]), Ok(()));
    assert_eq!(cpu.program_counter, 0x8003);
}

#[test]
fn run_of_the_empty_program_halts_at_once() {
    let mut cpu = CPU::new();
    assert_eq!(cpu.load_and_run(vec![]), Ok(()));
    assert_eq!(cpu.program_counter, 0x8001);
    assert_eq!(cpu.register_a, 0);
    assert_eq!(cpu.status.bits(), 0b0010_0100);
}

#[test]
fn composite_program_sets_negative_from_x() {
    let mut cpu = CPU::new();
    cpu.load_and_run(vec![0xa9, 0xc0, 0xaa, 0xe8, 0x00]).unwrap();
    assert_eq!(cpu.register_a, 0xc0);
    assert_eq!(cpu.register_x, 0xc1);
    assert!(cpu.status.contains(Flag::Negative));
    assert!(!cpu.status.contains(Flag::Zero));
    assert_eq!(cpu.program_counter, 0x8005);
}

#[test]
fn increment_wraps_from_ff_to_zero() {
    let mut cpu = CPU::new();
    cpu.load_and_run(vec![0xa2, 0xff, 0xe8, 0x00]).unwrap();
    assert_eq!(cpu.register_x, 0x00);
    assert!(cpu.status.contains(Flag::Zero));
    assert!(!cpu.status.contains(Flag::Negative));
}

#[test]
fn increment_twice_after_transfer_of_ff() {
    let mut cpu = CPU::new();
    cpu.load_and_run(vec![0xa9, 0xff, 0xaa, 0xe8, 0xe8, 0x00]).unwrap();
    assert_eq!(cpu.register_x, 1);
    assert!(!cpu.status.contains(Flag::Zero));
}

#[test]
fn unknown_opcode_aborts_the_run() {
    let mut cpu = CPU::new();
    let r = cpu.load_and_run(vec![0xa9, 0x01, 0xff, 0xe8, 0x00]);
    assert_eq!(r, Err(CpuError::UnknownOpcode { opcode: 0xff, program_counter: 0x8002 }));
    assert_eq!(cpu.register_a, 0x01);
    assert_eq!(cpu.register_x, 0x00);
    assert_eq!(cpu.program_counter, 0x8003);
}

#[test]
fn unknown_opcode_as_first_byte() {
    let mut cpu = CPU::new();
    let r = cpu.load_and_run(vec![0x02]);
    assert_eq!(r, Err(CpuError::UnknownOpcode { opcode: 0x02, program_counter: 0x8000 }));
    assert_eq!(cpu.program_counter, 0x8001);
}

#[test]
fn store_program_writes_memory_and_no_flag() {
    let mut cpu = CPU::new();
    cpu.load_and_run(vec![0xa9, 0x00, 0xa2, 0x42, 0x86, 0x10, 0x00]).unwrap();
    assert_eq!(cpu.mem_read(0x10), 0x42);
    assert!(!cpu.status.contains(Flag::Zero));
    let mut cpu = CPU::new();
    cpu.load_and_run(vec![0xa2, 0x42, 0xa9, 0x00, 0x86, 0x10, 0x00]).unwrap();
    assert_eq!(cpu.mem_read(0x10), 0x42);
    assert!(cpu.status.contains(Flag::Zero));
}

#[test]
fn store_accumulator_absolute() {
    let mut cpu = CPU::new();
    cpu.load_and_run(vec![0xa9, 0x77, 0x8d, 0x34, 0x12, 0x00]).unwrap();
    assert_eq!(cpu.mem_read(0x1234), 0x77);
    assert_eq!(cpu.program_counter, 0x8006);
}

#[test]
fn store_y_zero_page_x() {
    let mut cpu = CPU::new();
    cpu.load_and_run(vec![0xa0, 0x99, 0xa2, 0x05, 0x94, 0xfe, 0x00]).unwrap();
    assert_eq!(cpu.register_y, 0x99);
    assert_eq!(cpu.mem_read(0x0003), 0x99);
    assert_eq!(cpu.mem_read(0x0103), 0x00);
}

#[test]
fn load_absolute_skips_two_operand_bytes() {
    let mut cpu = CPU::new();
    cpu.mem_write(0x1234, 0x9a);
    cpu.load_and_run(vec![0xad, 0x34, 0x12, 0xaa, 0x00]).unwrap();
    assert_eq!(cpu.register_a, 0x9a);
    assert_eq!(cpu.register_x, 0x9a);
    assert_eq!(cpu.program_counter, 0x8005);
}

#[test]
fn add_wraps_and_leaves_carry_alone() {
    let mut cpu = CPU::new();
    cpu.load_and_run(vec![0xa9, 0xf0, 0x69, 0x20, 0x00]).unwrap();
    assert_eq!(cpu.register_a, 0x10);
    assert_eq!(cpu.status.bits(), 0b0010_0100);
    let mut cpu = CPU::new();
    cpu.load_and_run(vec![0xa9, 0xf0, 0x69, 0x10, 0x00]).unwrap();
    assert_eq!(cpu.register_a, 0x00);
    assert_eq!(cpu.status.bits(), 0b0010_0110);
    let mut cpu = CPU::new();
    cpu.load_and_run(vec![0xa9, 0x70, 0x69, 0x10, 0x00]).unwrap();
    assert_eq!(cpu.register_a, 0x80);
    assert_eq!(cpu.status.bits(), 0b1010_0100);
}

#[test]
fn reset_leaves_y_and_memory() {
    let mut cpu = CPU::new();
    cpu.register_a = 1;
    cpu.register_x = 2;
    cpu.register_y = 3;
    cpu.stack_pointer = 0x10;
    cpu.status.insert(Flag::Carry);
    cpu.mem_write(0x0200, 0x5a);
    cpu.mem_write_u16(0xfffc, 0x1234);
    cpu.reset();
    assert_eq!(cpu.register_a, 0);
    assert_eq!(cpu.register_x, 0);
    assert_eq!(cpu.register_y, 3);
    assert_eq!(cpu.stack_pointer, 0xfd);
    assert_eq!(cpu.status.bits(), 0b0010_0100);
    assert_eq!(cpu.program_counter, 0x1234);
    assert_eq!(cpu.mem_read(0x0200), 0x5a);
}

#[test]
fn power_on_state() {
    let cpu = CPU::new();
    assert_eq!(cpu.register_a, 0);
    assert_eq!(cpu.register_x, 0);
    assert_eq!(cpu.register_y, 0);
    assert_eq!(cpu.program_counter, 0);
    assert_eq!(cpu.stack_pointer, 0xfd);
    assert_eq!(cpu.status.bits(), 0b0010_0100);
    assert_eq!(cpu.mem_read(0x0000), 0);
    assert_eq!(cpu.mem_read(0x8000), 0);
    assert_eq!(cpu.mem_read(0xffff), 0);
}

#[test]
fn load_places_the_image_and_the_reset_vector() {
    let mut cpu = CPU::new();
    cpu.register_a = 9;
    cpu.load(vec![0x11, 0x22, 0x33]);
    assert_eq!(cpu.mem_read(0x7fff), 0x00);
    assert_eq!(cpu.mem_read(0x8000), 0x11);
    assert_eq!(cpu.mem_read(0x8001), 0x22);
    assert_eq!(cpu.mem_read(0x8002), 0x33);
    assert_eq!(cpu.mem_read(0x8003), 0x00);
    assert_eq!(cpu.mem_read(0xfffc), 0x00);
    assert_eq!(cpu.mem_read(0xfffd), 0x80);
    assert_eq!(cpu.mem_read_u16(0xfffc), 0x8000);
    assert_eq!(cpu.register_a, 9);
    assert_eq!(cpu.program_counter, 0);
}

#[test]
fn load_of_the_largest_image_reaches_the_last_address() {
    let mut cpu = CPU::new();
    let mut image: Vec<u8> = Vec::new();
    for i in 0..0x8000usize {
        image.push((i % 251) as u8 + 1);
    }
    cpu.load(image);
    assert_eq!(cpu.mem_read(0x8000), 1);
    assert_eq!(cpu.mem_read(0xffff), (0x7fffusize % 251) as u8 + 1);
    assert_eq!(cpu.mem_read(0xfffb), (0x7ffbusize % 251) as u8 + 1);
    assert_eq!(cpu.mem_read(0xfffc), 0x00);
    assert_eq!(cpu.mem_read(0xfffd), 0x80);
    assert_eq!(cpu.mem_read(0xfffe), (0x7ffeusize % 251) as u8 + 1);
}

#[test]
fn run_continues_from_the_current_program_counter() {
    let mut cpu = CPU::new();
    cpu.mem_write(0x0600, 0xe8);
    cpu.mem_write(0x0601, 0xe8);
    cpu.mem_write(0x0602, 0x00);
    cpu.program_counter = 0x0600;
    assert_eq!(cpu.run(), Ok(()));
    assert_eq!(cpu.register_x, 2);
    assert_eq!(cpu.program_counter, 0x0603);
}
