use cpu6502::cpu::CPU;
use cpu6502::memory::{word, Memory, MEMORY_SIZE};

#[test]
fn the_address_space_has_64k_bytes() {
    assert_eq!(MEMORY_SIZE, 65536);
}

#[test]
fn new_memory_is_zero_at_both_ends() {
    let m = Memory::new();
    assert_eq!(m.read(0x0000), 0);
    assert_eq!(m.read(0x00ff), 0);
    assert_eq!(m.read(0x8000), 0);
    assert_eq!(m.read(0xffff), 0);
}

#[test]
fn write_changes_one_byte() {
    let mut m = Memory::new();
    m.write(0x1234, 0xab);
    assert_eq!(m.read(0x1234), 0xab);
    assert_eq!(m.read(0x1233), 0x00);
    assert_eq!(m.read(0x1235), 0x00);
    m.write(0x1234, 0xcd);
    assert_eq!(m.read(0x1234), 0xcd);
}

#[test]
fn the_last_address_is_valid() {
    let mut cpu = CPU::new();
    cpu.mem_write(0xffff, 0xab);
    assert_eq!(cpu.mem_read(0xffff), 0xab);
    assert_eq!(cpu.mem_read(0xfffe), 0x00);
    assert_eq!(cpu.mem_read(0x0000), 0x00);
}

#[test]
fn write_bytes_copies_a_block() {
    let mut m = Memory::new();
    m.write(0x0fff, 0x77);
    m.write(0x1003, 0x88);
    m.write(0x1001, 0x99);
    m.write_bytes(0x1000, &vec![1, 2, 3]);
    assert_eq!(m.read(0x0fff), 0x77);
    assert_eq!(m.read(0x1000), 1);
    assert_eq!(m.read(0x1001), 2);
    assert_eq!(m.read(0x1002), 3);
    assert_eq!(m.read(0x1003), 0x88);
    m.write_bytes(0x2000, &vec![]);
    assert_eq!(m.read(0x2000), 0);
    m.write_bytes(0xfffe, &vec![0xaa, 0xbb]);
    assert_eq!(m.read(0xfffe), 0xaa);
    assert_eq!(m.read(0xffff), 0xbb);
    assert_eq!(m.read(0x0000), 0);
}

#[test]
fn word_puts_the_high_byte_on_top() {
    assert_eq!(word(0x34, 0x12), 0x1234);
    assert_eq!(word(0x00, 0x80), 0x8000);
    assert_eq!(word(0xff, 0x00), 0x00ff);
    assert_eq!(word(0xff, 0xff), 0xffff);
    assert_eq!(word(0x00, 0x00), 0x0000);
}

#[test]
fn sixteen_bit_write_is_little_endian() {
    let mut cpu = CPU::new();
    cpu.mem_write_u16(0x1234, 0xbeef);
    assert_eq!(cpu.mem_read(0x1234), 0xef);
    assert_eq!(cpu.mem_read(0x1235), 0xbe);
    assert_eq!(cpu.mem_read(0x1233), 0x00);
    assert_eq!(cpu.mem_read(0x1236), 0x00);
}

#[test]
fn sixteen_bit_read_is_little_endian() {
    let mut cpu = CPU::new();
    cpu.mem_write(0x0010, 0x34);
    cpu.mem_write(0x0011, 0x12);
    assert_eq!(cpu.mem_read_u16(0x0010), 0x1234);
    assert_eq!(cpu.mem_read_u16(0x0011), 0x0012);
    assert_eq!(cpu.mem_read_u16(0x000f), 0x3400);
}

#[test]
fn sixteen_bit_round_trip() {
    let mut cpu = CPU::new();
    for pos in [0x0000u16, 0x00ff, 0x0100, 0x7fff, 0x8000, 0xfffc, 0xfffe] {
        for value in [0x0000u16, 0x0001, 0x00ff, 0x0100, 0x1234, 0x8000, 0xff00, 0xffff] {
            cpu.mem_write_u16(pos, value);
            assert_eq!(cpu.mem_read_u16(pos), value);
            assert_eq!(cpu.mem_read(pos), (value & 0xff) as u8);
            assert_eq!(cpu.mem_read(pos + 1), (value >> 8) as u8);
        }
    }
}

#[test]
fn sixteen_bit_access_at_the_last_address_wraps_to_zero() {
    let mut cpu = CPU::new();
    cpu.mem_write_u16(0xffff, 0xbeef);
    assert_eq!(cpu.mem_read(0xffff), 0xef);
    assert_eq!(cpu.mem_read(0x0000), 0xbe);
    assert_eq!(cpu.mem_read_u16(0xffff), 0xbeef);
}

#[test]
fn memory_writes_leave_the_registers() {
    let mut cpu = CPU::new();
    cpu.register_a = 1;
    cpu.register_x = 2;
    cpu.register_y = 3;
    cpu.program_counter = 0x4000;
    let status = cpu.status.bits();
    cpu.mem_write(0x4000, 0xff);
    cpu.mem_write_u16(0x4002, 0xffff);
    assert_eq!(cpu.register_a, 1);
    assert_eq!(cpu.register_x, 2);
    assert_eq!(cpu.register_y, 3);
    assert_eq!(cpu.program_counter, 0x4000);
    assert_eq!(cpu.stack_pointer, 0xfd);
    assert_eq!(cpu.status.bits(), status);
}
