use cpu6502::cpu::CPU;
use cpu6502::flags::{Flag, FlagRegister, POWER_ON_STATUS};

fn all_flags() -> Vec<Flag> {
    vec![
        Flag::Carry,
        Flag::Zero,
        Flag::InterruptDisable,
        Flag::Decimal,
        Flag::Break,
        Flag::Break2,
        Flag::Overflow,
        Flag::Negative,
    ]
}

#[test]
fn flag_masks_are_the_eight_bits() {
    assert_eq!(Flag::Carry.mask(), 0x01);
    assert_eq!(Flag::Zero.mask(), 0x02);
    assert_eq!(Flag::InterruptDisable.mask(), 0x04);
    assert_eq!(Flag::Decimal.mask(), 0x08);
    assert_eq!(Flag::Break.mask(), 0x10);
    assert_eq!(Flag::Break2.mask(), 0x20);
    assert_eq!(Flag::Overflow.mask(), 0x40);
    assert_eq!(Flag::Negative.mask(), 0x80);
}

#[test]
fn power_on_register_has_interrupt_disable_and_break2() {
    let r = FlagRegister::new();
    assert_eq!(r.bits(), 0b0010_0100);
    assert_eq!(POWER_ON_STATUS, 0b0010_0100);
    for flag in all_flags() {
        assert_eq!(r.contains(flag), flag == Flag::InterruptDisable || flag == Flag::Break2);
    }
}

#[test]
fn from_bits_and_bits_round_trip() {
    for b in 0..=255u8 {
        assert_eq!(FlagRegister::from_bits(b).bits(), b);
    }
}

#[test]
fn contains_reads_the_flags_bit() {
    let r = FlagRegister::from_bits(0b1000_0001);
    assert!(r.contains(Flag::Carry));
    assert!(r.contains(Flag::Negative));
    assert!(!r.contains(Flag::Zero));
    assert!(!r.contains(Flag::Overflow));
}

#[test]
fn insert_and_remove_touch_one_flag_only() {
    for b in [0x00u8, 0xff, 0x24, 0xa5] {
        for flag in all_flags() {
            let mut set = FlagRegister::from_bits(b);
            set.insert(flag);
            assert_eq!(set.bits(), b | flag.mask());
            let mut cleared = FlagRegister::from_bits(b);
            cleared.remove(flag);
            assert_eq!(cleared.bits(), b & !flag.mask());
            for other in all_flags() {
                if other != flag {
                    assert_eq!(set.contains(other), FlagRegister::from_bits(b).contains(other));
                    assert_eq!(cleared.contains(other), FlagRegister::from_bits(b).contains(other));
                }
            }
            assert!(set.contains(flag));
            assert!(!cleared.contains(flag));
        }
    }
}

#[test]
fn set_follows_its_argument() {
    let mut r = FlagRegister::from_bits(0);
    r.set(Flag::Overflow, true);
    assert_eq!(r.bits(), 0x40);
    r.set(Flag::Decimal, true);
    assert_eq!(r.bits(), 0x48);
    r.set(Flag::Overflow, false);
    assert_eq!(r.bits(), 0x08);
    r.set(Flag::Overflow, false);
    assert_eq!(r.bits(), 0x08);
}

#[test]
fn zero_negative_rule_on_every_value() {
    for before in [0x00u8, 0xff, 0x24, 0x7d, 0x82] {
        for v in 0..=255u8 {
            let mut r = FlagRegister::from_bits(before);
            r.update_zero_and_negative(v);
            assert_eq!(r.contains(Flag::Zero), v == 0);
            assert_eq!(r.contains(Flag::Negative), v & 0x80 != 0);
            assert_eq!(r.bits() & 0b0111_1101, before & 0b0111_1101);
        }
    }
}

#[test]
fn zero_negative_rule_exact_bytes() {
    let mut r = FlagRegister::from_bits(0b0010_0100);
    r.update_zero_and_negative(0x00);
    assert_eq!(r.bits(), 0b0010_0110);
    r.update_zero_and_negative(0x80);
    assert_eq!(r.bits(), 0b1010_0100);
    r.update_zero_and_negative(0x7f);
    assert_eq!(r.bits(), 0b0010_0100);
    let mut r = FlagRegister::from_bits(0b0100_0001);
    r.update_zero_and_negative(0xc0);
    assert_eq!(r.bits(), 0b1100_0001);
}

#[test]
fn cpu_flag_update_changes_zero_and_negative_only() {
    let mut cpu = CPU::new();
    cpu.status = FlagRegister::from_bits(0b0110_1101);
    cpu.register_a = 0x33;
    cpu.update_zero_and_negative_flags(0);
    assert_eq!(cpu.status.bits(), 0b0110_1111);
    cpu.update_zero_and_negative_flags(0xff);
    assert_eq!(cpu.status.bits(), 0b1110_1101);
    cpu.update_zero_and_negative_flags(0x01);
    assert_eq!(cpu.status.bits(), 0b0110_1101);
    assert_eq!(cpu.register_a, 0x33);
    assert_eq!(cpu.program_counter, 0);
}

#[test]
fn loads_transfer_and_increment_keep_the_other_flags() {
    let mut cpu = CPU::new();
    cpu.status = FlagRegister::from_bits(0b0111_1101);
    cpu.register_a = 0x80;
    cpu.tax();
    assert_eq!(cpu.register_x, 0x80);
    assert_eq!(cpu.status.bits(), 0b1111_1101);
    cpu.register_x = 0xff;
    cpu.inx();
    assert_eq!(cpu.register_x, 0x00);
    assert_eq!(cpu.status.bits(), 0b0111_1111);
    cpu.inx();
    assert_eq!(cpu.register_x, 0x01);
    assert_eq!(cpu.status.bits(), 0b0111_1101);
}
