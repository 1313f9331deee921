use emu_attack::cpu::{LoadError, CPU};
use emu_attack::model::StepResult;
use emu_attack::status_register::StatusBit;
use emu_attack::STARTING_MEMORY_BLOCK;

fn fresh() -> CPU {
    CPU::new()
}

// ---------------------------------------------------------------------------
// Construction, reset, loading
// ---------------------------------------------------------------------------

#[test]
fn lib_new() {
    let cpu = fresh();
    assert_eq!(cpu.program_counter.get(), STARTING_MEMORY_BLOCK as usize);
    assert_eq!(cpu.accumulator.get(), 0);
    assert_eq!(cpu.x_register.get(), 0);
    assert_eq!(cpu.y_register.get(), 0);
    assert_eq!(cpu.status_register.get_register(), 0);
    assert_eq!(cpu.memory.get_u16(0x1234), 0);
    assert_eq!(cpu.reset_pin, false);
    assert_eq!(cpu.irq_pin, false);
    assert_eq!(cpu.nmi_pin, false);
    assert_eq!(cpu.memory.get_stack_pointer().get(), 0xFF);
    assert_eq!(cpu.cycles, 0);
}

#[test]
fn lib_reset() {
    let mut cpu = fresh();
    cpu.program_counter.jump(0x4321);
    cpu.accumulator.set(0x11);
    cpu.x_register.set(0x22);
    cpu.y_register.set(0x33);
    cpu.status_register.set(0x44);
    cpu.memory.set(0x5678, 0x55);
    cpu.reset_pin = true;
    cpu.irq_pin = true;
    cpu.nmi_pin = true;
    cpu.reset();
    assert_eq!(cpu.program_counter.get(), STARTING_MEMORY_BLOCK as usize);
    assert_eq!(cpu.accumulator.get(), 0);
    assert_eq!(cpu.x_register.get(), 0);
    assert_eq!(cpu.y_register.get(), 0);
    assert_eq!(cpu.status_register.get_register(), 0);
    assert_eq!(cpu.memory.get_u16(0x5678), 0);
    assert_eq!(cpu.reset_pin, false);
    assert_eq!(cpu.irq_pin, false);
    assert_eq!(cpu.nmi_pin, false);
}

#[test]
fn load_program_into_memory() {
    let mut cpu = fresh();
    let mut vector = vec![];
    for i in 0..0xFFu32 {
        vector.push(0x80 + (i % 0x7F) as u8);
    }
    cpu.load_program_into_memory(&vector, 0).unwrap();
    assert_eq!(cpu.memory.get_zero_page(0x92) > 0, true);
}

#[test]
#[should_panic]
fn load_program_into_memory_panic() {
    let mut cpu = fresh();
    let mut vector = vec![];
    for i in 0..0xFFu32 {
        vector.push(i as u8);
    }
    cpu.load_program_into_memory(&vector, 0xFFFF).unwrap();
}

#[test]
fn load_program_places_bytes_at_block() {
    let mut cpu = fresh();
    let program = vec![0xA9, 0x10, 0x69, 0x10];
    assert_eq!(cpu.load_program_into_memory(&program, 0x8000), Ok(()));
    assert_eq!(cpu.memory.get_u16(0x7FFF), 0);
    assert_eq!(cpu.memory.get_u16(0x8000), 0xA9);
    assert_eq!(cpu.memory.get_u16(0x8003), 0x10);
    assert_eq!(cpu.memory.get_u16(0x8004), 0);
}

#[test]
fn load_program_limits() {
    let mut cpu = fresh();
    // Exactly up to 0xFFFF fits; one byte more does not.
    let program = vec![7u8; 0xFF];
    assert_eq!(cpu.load_program_into_memory(&program, 0xFF00), Ok(()));
    assert_eq!(cpu.memory.get_u16(0xFFFE), 7);
    let program = vec![9u8; 0x100];
    assert_eq!(
        cpu.load_program_into_memory(&program, 0xFF00),
        Err(LoadError::ProgramTooLarge)
    );
    // A refused program leaves memory untouched.
    assert_eq!(cpu.memory.get_u16(0xFFFE), 7);
}

// ---------------------------------------------------------------------------
// Cycles
// ---------------------------------------------------------------------------

#[test]
fn sync_proceeds_when_clock_signal_received() {
    let mut cpu = fresh();
    cpu.sync();
    assert_eq!(cpu.cycles, 1);
    assert_eq!(cpu.take_cycles(), 1);
    assert_eq!(cpu.cycles, 0);
}

#[test]
fn push_and_pop_through_cpu() {
    let mut cpu = fresh();
    cpu.push_to_stack(0x5A);
    assert_eq!(cpu.memory.get_u16(0x1FF), 0x5A);
    assert_eq!(cpu.cycles, 1);
    let mut cpu = fresh();
    cpu.memory.set(0x100, 0x77);
    assert_eq!(cpu.pop_from_stack(), 0x77);
    assert_eq!(cpu.cycles, 2);
}

#[test]
fn set_and_get_through_cpu() {
    let mut cpu = fresh();
    cpu.set_u16(0x3456, 0x12);
    assert_eq!(cpu.memory.get_u16(0x3456), 0x12);
    cpu.set_zero_page(0x44, 0x21);
    assert_eq!(cpu.memory.get_zero_page(0x44), 0x21);
    assert_eq!(cpu.get_u16(0x3456), 0x12);
    assert_eq!(cpu.get_zero_page(0x44), 0x21);
    assert_eq!(cpu.cycles, 4);
}

#[test]
fn operands_are_read_after_the_counter() {
    let mut cpu = fresh();
    cpu.memory.set(0x8001, 0xAB);
    cpu.memory.set(0x8002, 0xCD);
    assert_eq!(cpu.get_single_operand(), 0xAB);
    assert_eq!(cpu.program_counter.get(), 0x8001);
    let mut cpu = fresh();
    cpu.memory.set(0x8001, 0xAB);
    cpu.memory.set(0x8002, 0xCD);
    assert_eq!(cpu.get_two_operands(), [0xAB, 0xCD]);
    assert_eq!(cpu.cycles, 2);
}

#[test]
fn test_for_overflow_costs_a_cycle_on_carry() {
    let mut cpu = fresh();
    cpu.test_for_overflow(0x10, 0x20);
    assert_eq!(cpu.cycles, 0);
    cpu.test_for_overflow(0xF0, 0x20);
    assert_eq!(cpu.cycles, 1);
}

// ---------------------------------------------------------------------------
// Addressing modes, with the cycles each spends
// ---------------------------------------------------------------------------

#[test]
fn immediate_mode() {
    let mut cpu = fresh();
    cpu.memory.set(0x8001, 0x42);
    assert_eq!(cpu.immediate("Test"), 0x42);
    assert_eq!(cpu.cycles, 1);
}

#[test]
fn zero_page_mode() {
    let mut cpu = fresh();
    cpu.memory.set(0x8001, 0x33);
    cpu.memory.set_zero_page(0x33, 0x99);
    assert_eq!(cpu.zero_page("Test"), (0x33, 0x99));
    assert_eq!(cpu.cycles, 2);
}

#[test]
fn zero_page_reg_mode() {
    let mut cpu = fresh();
    cpu.memory.set(0x8001, 0x10);
    cpu.memory.set_zero_page(0x30, 0x99);
    assert_eq!(cpu.zp_reg("Test", 0x20), (0x30, 0x99));
    assert_eq!(cpu.cycles, 3);
    // The index wraps inside the zero page.
    let mut cpu = fresh();
    cpu.memory.set(0x8001, 0xF0);
    cpu.memory.set_zero_page(0x10, 0x66);
    assert_eq!(cpu.zp_reg("Test", 0x20), (0x10, 0x66));
}

#[test]
fn absolute_mode() {
    let mut cpu = fresh();
    cpu.memory.set(0x8001, 0x34);
    cpu.memory.set(0x8002, 0x12);
    cpu.memory.set(0x1234, 0x5E);
    assert_eq!(cpu.absolute("Test"), (0x1234, 0x5E));
    assert_eq!(cpu.cycles, 3);
}

#[test]
fn absolute_reg_mode() {
    let mut cpu = fresh();
    cpu.memory.set(0x8001, 0x34);
    cpu.memory.set(0x8002, 0x12);
    cpu.memory.set(0x1244, 0x5E);
    assert_eq!(cpu.absolute_reg("Test", 0x10), (0x1244, 0x5E));
    assert_eq!(cpu.cycles, 3);
    // A low byte that crosses a page with the register costs one more.
    let mut cpu = fresh();
    cpu.memory.set(0x8001, 0xFF);
    cpu.memory.set(0x8002, 0x12);
    cpu.memory.set(0x1300, 0x5F);
    assert_eq!(cpu.absolute_reg("Test", 0x01), (0x1300, 0x5F));
    assert_eq!(cpu.cycles, 4);
    // A high byte alone costs nothing extra.
    let mut cpu = fresh();
    cpu.memory.set(0x8001, 0x00);
    cpu.memory.set(0x8002, 0xF0);
    cpu.memory.set(0xF020, 0x60);
    assert_eq!(cpu.absolute_reg("Test", 0x20), (0xF020, 0x60));
    assert_eq!(cpu.cycles, 3);
}

#[test]
fn indexed_x_mode() {
    let mut cpu = fresh();
    cpu.x_register.set(0x05);
    cpu.memory.set(0x8001, 0x20);
    cpu.memory.set_zero_page(0x25, 0x78);
    cpu.memory.set_zero_page(0x26, 0x56);
    cpu.memory.set(0x5678, 0xAA);
    assert_eq!(cpu.indexed_x("test"), (0x5678, 0xAA));
    assert_eq!(cpu.cycles, 5);
}

#[test]
fn indexed_y_mode() {
    let mut cpu = fresh();
    cpu.y_register.set(0x05);
    cpu.memory.set(0x8001, 0x20);
    cpu.memory.set_zero_page(0x20, 0x78);
    cpu.memory.set_zero_page(0x21, 0x56);
    cpu.memory.set(0x567D, 0xAB);
    assert_eq!(cpu.indexed_y("test"), (0x567D, 0xAB));
    assert_eq!(cpu.cycles, 4);
    // The pointer's low byte plus Y crosses a page: one cycle more.
    let mut cpu = fresh();
    cpu.y_register.set(0x90);
    cpu.memory.set(0x8001, 0x20);
    cpu.memory.set_zero_page(0x20, 0x80);
    cpu.memory.set_zero_page(0x21, 0x80);
    cpu.memory.set(0x8110, 0xAC);
    assert_eq!(cpu.indexed_y("test"), (0x8110, 0xAC));
    assert_eq!(cpu.cycles, 5);
}

// ---------------------------------------------------------------------------
// Branches, comparisons, register updates, shifts
// ---------------------------------------------------------------------------

#[test]
fn branch_forward_and_back() {
    let mut cpu = fresh();
    cpu.branch(true, 0x10);
    assert_eq!(cpu.program_counter.get(), 0x8010);
    assert_eq!(cpu.cycles, 1);
    // Offsets above 0x7F are two's complement: 0xF0 is -16, crossing a page.
    let mut cpu = fresh();
    cpu.branch(true, 0xF0);
    assert_eq!(cpu.program_counter.get(), 0x7FF0);
    assert_eq!(cpu.cycles, 2);
    let mut cpu = fresh();
    cpu.program_counter.jump(0x8010);
    cpu.branch(true, 0xFE);
    assert_eq!(cpu.program_counter.get(), 0x800E);
    assert_eq!(cpu.cycles, 1);
    cpu.branch(true, 0xFF);
    assert_eq!(cpu.program_counter.get(), 0x800D);
    cpu.branch(true, 0x80);
    assert_eq!(cpu.program_counter.get(), 0x800D - 128);
}

#[test]
fn branch_not_taken() {
    let mut cpu = fresh();
    cpu.branch(false, 0x15);
    assert_eq!(cpu.program_counter.get(), STARTING_MEMORY_BLOCK as usize);
    assert_eq!(cpu.cycles, 0);
}

#[test]
fn generic_compare_cases() {
    for (reg_value, test_value) in [(0x10u8, 0x20u8), (0x20, 0x10), (0x20, 0x20), (0x01, 0xFF)] {
        let mut cpu = fresh();
        cpu.generic_compare(test_value, reg_value);
        assert_eq!(cpu.status_register.is_flag_set(StatusBit::Carry), reg_value >= test_value);
        assert_eq!(cpu.status_register.is_flag_set(StatusBit::Zero), test_value == reg_value);
        assert_eq!(
            cpu.status_register.is_flag_set(StatusBit::Negative),
            reg_value.wrapping_sub(test_value) >= 0x80
        );
    }
}

#[test]
fn generic_compare_clears_flags() {
    let mut cpu = fresh();
    cpu.status_register.set(0xFF);
    cpu.generic_compare(0x20, 0x10);
    // 0x10 - 0x20: not equal, borrow, bit 7 of 0xF0 set.
    assert_eq!(cpu.status_register.is_flag_set(StatusBit::Zero), false);
    assert_eq!(cpu.status_register.is_flag_set(StatusBit::Carry), false);
    assert_eq!(cpu.status_register.is_flag_set(StatusBit::Negative), true);
    cpu.generic_compare(0x10, 0x20);
    assert_eq!(cpu.status_register.get_register(), 0x7D);
    let mut cpu = fresh();
    cpu.accumulator.set(0x10);
    cpu.status_register.set_flag(StatusBit::Zero);
    cpu.cmp(0x20);
    assert_eq!(cpu.status_register.is_flag_set(StatusBit::Zero), false);
}

#[test]
fn register_operation_cases() {
    for value in [0u8, 0xAA, 0x12] {
        let mut cpu = fresh();
        cpu.register_operation(value, "test");
        assert_eq!(cpu.status_register.is_flag_set(StatusBit::Negative), value >= 0x80);
        assert_eq!(cpu.status_register.is_flag_set(StatusBit::Zero), value == 0x00);
        assert_eq!(cpu.cycles, 1);
    }
}

#[test]
fn rotate_right_cases() {
    for (value, set_carry, expected, expected_carry) in [
        (0x10u8, false, 0x8u8, false),
        (0x10, true, 0x88, false),
        (0x51, false, 0x28, true),
        (0x51, true, 0xA8, true),
    ] {
        let mut cpu = fresh();
        if set_carry {
            cpu.status_register.set_flag(StatusBit::Carry);
        }
        let result = cpu.rotate_right(value);
        assert_eq!(cpu.status_register.is_flag_set(StatusBit::Carry), expected_carry);
        assert_eq!(result, expected);
    }
}

#[test]
fn shift_right_cases() {
    for (value, expected, expected_carry) in [(0x10u8, 0x8u8, false), (0x51, 0x28, true)] {
        let mut cpu = fresh();
        let result = cpu.shift_right(value);
        assert_eq!(cpu.status_register.is_flag_set(StatusBit::Carry), expected_carry);
        assert_eq!(result, expected);
    }
}

#[test]
fn rotate_left_cases() {
    for (value, set_carry, expected, expected_carry) in [
        (0x10u8, false, 0x20u8, false),
        (0x10, true, 0x21, false),
        (0x91, false, 0x22, true),
        (0x91, true, 0x23, true),
    ] {
        let mut cpu = fresh();
        if set_carry {
            cpu.status_register.set_flag(StatusBit::Carry);
        }
        let result = cpu.rotate_left(value);
        assert_eq!(cpu.status_register.is_flag_set(StatusBit::Carry), expected_carry);
        assert_eq!(result, expected);
    }
}

#[test]
fn shift_left_cases() {
    for (value, expected, expected_carry) in [(0x10u8, 0x20u8, false), (0x91, 0x22, true)] {
        let mut cpu = fresh();
        let result = cpu.shift_left(value);
        assert_eq!(cpu.status_register.is_flag_set(StatusBit::Carry), expected_carry);
        assert_eq!(result, expected);
    }
}

#[test]
fn set_and_clear_flag_cases() {
    for flag in [
        StatusBit::Carry,
        StatusBit::Zero,
        StatusBit::Negative,
        StatusBit::Decimal,
        StatusBit::Overflow,
        StatusBit::Interrupt,
        StatusBit::Break,
    ] {
        let mut cpu = fresh();
        cpu.set_flag(flag);
        assert_eq!(cpu.status_register.is_flag_set(flag), true);
        cpu.clear_flag(flag);
        assert_eq!(cpu.status_register.is_flag_set(flag), false);
        assert_eq!(cpu.cycles, 2);
    }
}

// ---------------------------------------------------------------------------
// Decimal arithmetic
// ---------------------------------------------------------------------------

#[test]
fn convert_num_to_decimal_cases() {
    assert_eq!(CPU::convert_num_to_decimal(0x19), Some(19));
    assert_eq!(CPU::convert_num_to_decimal(0x26), Some(26));
    assert_eq!(CPU::convert_num_to_decimal(0x71), Some(71));
    assert_eq!(CPU::convert_num_to_decimal(0x00), Some(0));
    // The nibbles' decimal numerals are written one after the other.
    assert_eq!(CPU::convert_num_to_decimal(0xA2), Some(102));
    assert_eq!(CPU::convert_num_to_decimal(0x2A), Some(210));
    assert_eq!(CPU::convert_num_to_decimal(0x3A), None);
    assert_eq!(CPU::convert_num_to_decimal(0xFF), None);
}

#[test]
fn decimal_addition_cases() {
    for (v1, v2, carry, expected, carry_set) in [
        (0x58u8, 0x46u8, 1u8, 0x05u8, true),
        (0x12, 0x34, 0, 0x46, false),
        (0x15, 0x26, 0, 0x41, false),
        (0x81, 0x92, 0, 0x73, true),
    ] {
        let mut cpu = fresh();
        let result = cpu.decimal_addition(v1, v2, carry);
        assert_eq!(result, expected);
        assert_eq!(cpu.status_register.is_flag_set(StatusBit::Carry), carry_set);
    }
}

#[test]
fn decimal_subtraction_cases() {
    for (v1, v2, carry, expected, carry_set) in [
        (0x46u8, 0x12u8, 1u8, 0x34u8, true),
        (0x40, 0x13, 1, 0x27, true),
        (0x32, 0x02, 0, 0x29, true),
        (0x12, 0x21, 1, 0x91, false),
        (0x21, 0x34, 1, 0x87, false),
    ] {
        let mut cpu = fresh();
        // Carries are flipped for subtraction.
        let borrow = if carry == 1 { 0 } else { 1 };
        let result = cpu.decimal_subtraction(v1, v2, borrow);
        assert_eq!(result, expected);
        assert_eq!(cpu.status_register.is_flag_set(StatusBit::Carry), carry_set);
    }
}

#[test]
fn decimal_subtraction_borrows() {
    // 00 - 01 is -1: 99 with a borrow.
    let mut cpu = fresh();
    assert_eq!(cpu.decimal_subtraction(0x00, 0x01, 0), 0x99);
    assert_eq!(cpu.status_register.is_flag_set(StatusBit::Carry), false);
    // 10 - 60 is -50: 50 with a borrow.
    let mut cpu = fresh();
    assert_eq!(cpu.decimal_subtraction(0x10, 0x60, 0), 0x50);
    assert_eq!(cpu.status_register.is_flag_set(StatusBit::Carry), false);
    // 10 - 10 - 1 is -1 too.
    let mut cpu = fresh();
    assert_eq!(cpu.decimal_subtraction(0x10, 0x10, 1), 0x99);
    assert_eq!(cpu.status_register.is_flag_set(StatusBit::Carry), false);
    // 10 - 10 is zero, with no borrow.
    let mut cpu = fresh();
    assert_eq!(cpu.decimal_subtraction(0x10, 0x10, 0), 0x00);
    assert_eq!(cpu.status_register.is_flag_set(StatusBit::Carry), true);
    assert_eq!(cpu.status_register.is_flag_set(StatusBit::Zero), true);
}

// ---------------------------------------------------------------------------
// Instructions
// ---------------------------------------------------------------------------

#[test]
fn aac() {
    for (value, acc) in [(0xF0u8, 0x8Fu8), (0x0F, 0x3C), (0x00, 0xFF)] {
        let mut cpu = fresh();
        cpu.accumulator.set(acc);
        cpu.aac(value);
        let result = value & acc;
        assert_eq!(cpu.accumulator.get(), result);
        assert_eq!(cpu.status_register.is_flag_set(StatusBit::Carry), result >= 0x80);
    }
}

#[test]
fn aax() {
    let mut cpu = fresh();
    cpu.x_register.set(0xF3);
    cpu.accumulator.set(0x3C);
    cpu.aax(0x2345);
    assert_eq!(cpu.memory.get_u16(0x2345), 0xF3 & 0x3C);
}

#[test]
fn adc() {
    for (acc, value, c, d, expected) in [
        (0x58u8, 0x46u8, true, false, 0x9Fu8),
        (0x58, 0x46, true, true, 0x05),
    ] {
        let mut cpu = fresh();
        cpu.accumulator.set(acc);
        if c {
            cpu.status_register.set_flag(StatusBit::Carry);
        }
        if d {
            cpu.status_register.set_flag(StatusBit::Decimal);
        }
        cpu.adc(value);
        assert_eq!(cpu.accumulator.get(), expected);
    }
}

#[test]
fn adc_binary_sets_carry_and_overflow() {
    let mut cpu = fresh();
    cpu.accumulator.set(0xFF);
    cpu.adc(0x01);
    assert_eq!(cpu.accumulator.get(), 0x00);
    assert_eq!(cpu.status_register.is_flag_set(StatusBit::Carry), true);
    assert_eq!(cpu.status_register.is_flag_set(StatusBit::Zero), true);
    assert_eq!(cpu.status_register.is_flag_set(StatusBit::Overflow), false);
    // Overflow is signed overflow: 1 + -128 does not overflow.
    let mut cpu = fresh();
    cpu.accumulator.set(0x01);
    cpu.adc(0x80);
    assert_eq!(cpu.accumulator.get(), 0x81);
    assert_eq!(cpu.status_register.is_flag_set(StatusBit::Overflow), false);
    // 80 + 80 gives -96.
    let mut cpu = fresh();
    cpu.accumulator.set(0x50);
    cpu.adc(0x50);
    assert_eq!(cpu.accumulator.get(), 0xA0);
    assert_eq!(cpu.status_register.is_flag_set(StatusBit::Overflow), true);
    assert_eq!(cpu.status_register.is_flag_set(StatusBit::Carry), false);
}

#[test]
fn sbc_binary() {
    let mut cpu = fresh();
    cpu.accumulator.set(0x50);
    cpu.status_register.set_flag(StatusBit::Carry);
    cpu.sbc(0x20);
    assert_eq!(cpu.accumulator.get(), 0x30);
    // Carry set means no borrow.
    assert_eq!(cpu.status_register.is_flag_set(StatusBit::Carry), true);
    let mut cpu = fresh();
    cpu.accumulator.set(0x05);
    cpu.status_register.set_flag(StatusBit::Carry);
    cpu.sbc(0x03);
    assert_eq!(cpu.accumulator.get(), 0x02);
    assert_eq!(cpu.status_register.is_flag_set(StatusBit::Carry), true);
    // A clear carry borrows one; 3 - 5 borrows.
    let mut cpu = fresh();
    cpu.accumulator.set(0x03);
    cpu.sbc(0x05);
    assert_eq!(cpu.accumulator.get(), 0xFD);
    assert_eq!(cpu.status_register.is_flag_set(StatusBit::Carry), false);
    // -128 - 1 overflows.
    let mut cpu = fresh();
    cpu.accumulator.set(0x80);
    cpu.status_register.set_flag(StatusBit::Carry);
    cpu.sbc(0x01);
    assert_eq!(cpu.accumulator.get(), 0x7F);
    assert_eq!(cpu.status_register.is_flag_set(StatusBit::Overflow), true);
}

#[test]
fn shifts_move_the_outer_bit_into_carry() {
    let mut cpu = fresh();
    cpu.accumulator.set(0x81);
    cpu.asl_accumulator();
    assert_eq!(cpu.accumulator.get(), 0x02);
    assert_eq!(cpu.status_register.is_flag_set(StatusBit::Carry), true);
    cpu.asl_accumulator();
    assert_eq!(cpu.status_register.is_flag_set(StatusBit::Carry), false);
    let mut cpu = fresh();
    cpu.accumulator.set(0x03);
    cpu.lsr_accumulator();
    assert_eq!(cpu.accumulator.get(), 0x01);
    assert_eq!(cpu.status_register.is_flag_set(StatusBit::Carry), true);
    cpu.accumulator.set(0x02);
    cpu.lsr_accumulator();
    assert_eq!(cpu.status_register.is_flag_set(StatusBit::Carry), false);
}

#[test]
fn store_x_and_high_byte_plus_one() {
    let mut cpu = fresh();
    cpu.x_register.set(0x00);
    cpu.memory.set(0x8001, 0x00);
    cpu.memory.set(0x8002, 0x10);
    cpu.memory.set(0x1000, 0xAA);
    cpu.sxa();
    assert_eq!(cpu.memory.get_u16(0x1000), 0x00);
    let mut cpu = fresh();
    cpu.y_register.set(0xFF);
    cpu.memory.set(0x8001, 0x00);
    cpu.memory.set(0x8002, 0x10);
    cpu.sya();
    assert_eq!(cpu.memory.get_u16(0x1000), 0x11);
}

#[test]
fn load_and_logic_instructions() {
    let mut cpu = fresh();
    cpu.lda(0x80);
    assert_eq!(cpu.accumulator.get(), 0x80);
    assert_eq!(cpu.status_register.is_flag_set(StatusBit::Negative), true);
    cpu.and(0x0F);
    assert_eq!(cpu.accumulator.get(), 0x00);
    assert_eq!(cpu.status_register.is_flag_set(StatusBit::Zero), true);
    cpu.ora(0x21);
    assert_eq!(cpu.accumulator.get(), 0x21);
    cpu.eor(0xFF);
    assert_eq!(cpu.accumulator.get(), 0xDE);
    cpu.ldx(0x07);
    assert_eq!(cpu.x_register.get(), 0x07);
    cpu.ldy(0x09);
    assert_eq!(cpu.y_register.get(), 0x09);
    cpu.lax(0x31);
    assert_eq!(cpu.accumulator.get(), 0x31);
    assert_eq!(cpu.x_register.get(), 0x31);
}

#[test]
fn interrupt() {
    let mut cpu = fresh();
    cpu.memory.set(0xFFFA, 0x34);
    cpu.memory.set(0xFFFB, 0x12);
    cpu.status_register.set(0x81);
    cpu.program_counter.jump(0xABCD);
    let address = cpu.interrupt(0xFFFA, 0xFFFB);
    assert_eq!(address, 0x1234);
    assert_eq!(cpu.memory.get_u16(0x1FF), 0xCD);
    assert_eq!(cpu.memory.get_u16(0x1FE), 0xAB);
    assert_eq!(cpu.memory.get_u16(0x1FD), cpu.status_register.get_register());
    assert_eq!(cpu.status_register.is_flag_set(StatusBit::Interrupt), true);
    assert_eq!(cpu.cycles, 7);
}

#[test]
fn return_from_interrupt() {
    let mut cpu = fresh();
    cpu.program_counter.jump(0x2468);
    cpu.memory.set(0x1FF, 0x68);
    cpu.memory.set(0x1FE, 0x24);
    cpu.memory.set(0x1FD, 0xCF);
    cpu.memory.set_stack_pointer(0xFC);
    cpu.return_from_interrupt();
    assert_eq!(cpu.program_counter.get(), 0x2468);
    assert_eq!(cpu.status_register.get_register(), 0xCB);
    assert_eq!(cpu.status_register.is_flag_set(StatusBit::Interrupt), false);
    assert_eq!(cpu.cycles, 6);
}

#[test]
fn interrupt_then_return_restores_counter() {
    let mut cpu = fresh();
    cpu.program_counter.jump(0x9876);
    cpu.status_register.set(0x41);
    cpu.interrupt(0xFFFE, 0xFFFF);
    cpu.return_from_interrupt();
    assert_eq!(cpu.program_counter.get(), 0x9876);
    assert_eq!(cpu.memory.get_stack_pointer().get(), 0xFF);
    assert_eq!(cpu.status_register.get_register(), 0x41);
}

#[test]
fn pins_are_serviced() {
    let mut cpu = fresh();
    cpu.memory.set(0xFFFA, 0x00);
    cpu.memory.set(0xFFFB, 0x90);
    cpu.set_nmi();
    cpu.check_pins();
    // The next fetch reads the handler's first byte.
    assert_eq!(cpu.program_counter.get(), 0x8FFF);
    // A maskable interrupt waits while the interrupt flag is set.
    let mut cpu = fresh();
    cpu.memory.set(0xFFFE, 0x00);
    cpu.memory.set(0xFFFF, 0xA0);
    cpu.status_register.set_flag(StatusBit::Interrupt);
    cpu.set_irq();
    cpu.check_pins();
    assert_eq!(cpu.program_counter.get(), 0x8000);
    cpu.status_register.clear_flag(StatusBit::Interrupt);
    cpu.check_pins();
    assert_eq!(cpu.program_counter.get(), 0x9FFF);
}

#[test]
fn reset_pin_resets() {
    let mut cpu = fresh();
    cpu.accumulator.set(0x12);
    cpu.set_reset();
    cpu.check_pins();
    assert_eq!(cpu.accumulator.get(), 0);
    assert_eq!(cpu.reset_pin, false);
    assert_eq!(cpu.program_counter.get(), STARTING_MEMORY_BLOCK as usize);
}

#[test]
fn stack_instructions_round_trip() {
    let mut cpu = fresh();
    cpu.accumulator.set(0x3C);
    cpu.pha();
    cpu.accumulator.set(0);
    cpu.pla();
    assert_eq!(cpu.accumulator.get(), 0x3C);
    cpu.status_register.set(0xC3);
    cpu.php();
    cpu.status_register.set(0);
    cpu.plp();
    assert_eq!(cpu.status_register.get_register(), 0xC3);
}

#[test]
fn transfers_and_counters() {
    let mut cpu = fresh();
    cpu.accumulator.set(0x44);
    cpu.tay();
    assert_eq!(cpu.y_register.get(), 0x44);
    cpu.iny();
    assert_eq!(cpu.y_register.get(), 0x45);
    cpu.tya();
    assert_eq!(cpu.accumulator.get(), 0x45);
    cpu.tax();
    assert_eq!(cpu.x_register.get(), 0x45);
    cpu.x_register.set(0);
    cpu.dex();
    assert_eq!(cpu.x_register.get(), 0xFF);
    assert_eq!(cpu.status_register.is_flag_set(StatusBit::Negative), true);
    cpu.inx();
    assert_eq!(cpu.x_register.get(), 0x00);
    assert_eq!(cpu.status_register.is_flag_set(StatusBit::Zero), true);
    let mut cpu = fresh();
    cpu.accumulator.set(0x80);
    cpu.tax();
    assert_eq!(cpu.x_register.get(), 0x80);
    assert_eq!(cpu.status_register.is_flag_set(StatusBit::Negative), true);
}

// ---------------------------------------------------------------------------
// Fetch and execute
// ---------------------------------------------------------------------------

#[test]
fn step_runs_a_small_program() {
    let mut cpu = fresh();
    // The first opcode is read from the byte after the counter.
    let program = vec![0xEA, 0xA9, 0x10, 0x69, 0x10];
    cpu.load_program_into_memory(&program, STARTING_MEMORY_BLOCK).unwrap();
    assert_eq!(cpu.step(), StepResult::Running);
    assert_eq!(cpu.accumulator.get(), 0x10);
    assert_eq!(cpu.step(), StepResult::Running);
    assert_eq!(cpu.accumulator.get(), 0x20);
    assert_eq!(cpu.program_counter.get(), 0x8004);
}

#[test]
fn step_kil_locks() {
    let mut cpu = fresh();
    cpu.memory.set(0x8001, 0x02);
    assert_eq!(cpu.step(), StepResult::Locked);
}

#[test]
fn step_xaa_is_undefined() {
    let mut cpu = fresh();
    cpu.memory.set(0x8001, 0x8B);
    assert_eq!(cpu.step(), StepResult::Undefined);
}

#[test]
fn step_branch_offset_ff_goes_back_one() {
    let mut cpu = fresh();
    cpu.memory.set(0x8001, 0x10);
    cpu.memory.set(0x8002, 0xFF);
    assert_eq!(cpu.step(), StepResult::Running);
    // The counter stood on the offset byte, and moves back one from there.
    assert_eq!(cpu.program_counter.get(), 0x8001);
}

#[test]
fn step_opcode_table_entries() {
    // 0xA4 is LDY zero page.
    let mut cpu = fresh();
    cpu.memory.set(0x8001, 0xA4);
    cpu.memory.set(0x8002, 0x10);
    cpu.memory.set_zero_page(0x10, 0x42);
    assert_eq!(cpu.step(), StepResult::Running);
    assert_eq!(cpu.y_register.get(), 0x42);
    assert_eq!(cpu.x_register.get(), 0x00);
    // 0x79 is ADC absolute,Y and 0x7D ADC absolute,X.
    let mut cpu = fresh();
    cpu.y_register.set(0x01);
    cpu.x_register.set(0x02);
    cpu.memory.set(0x2001, 0x11);
    cpu.memory.set(0x2002, 0x22);
    let program = vec![0xEA, 0x79, 0x00, 0x20, 0x7D, 0x00, 0x20];
    cpu.load_program_into_memory(&program, STARTING_MEMORY_BLOCK).unwrap();
    assert_eq!(cpu.step(), StepResult::Running);
    assert_eq!(cpu.accumulator.get(), 0x11);
    assert_eq!(cpu.step(), StepResult::Running);
    assert_eq!(cpu.accumulator.get(), 0x33);
}

#[test]
fn step_store_and_jump() {
    let mut cpu = fresh();
    // STA $0200, then JMP $9000, then the instruction at $9000.
    let program = vec![0xEA, 0x8D, 0x00, 0x02, 0x4C, 0x00, 0x90];
    cpu.load_program_into_memory(&program, STARTING_MEMORY_BLOCK).unwrap();
    cpu.memory.set(0x9000, 0xE8);
    cpu.accumulator.set(0x77);
    assert_eq!(cpu.step(), StepResult::Running);
    assert_eq!(cpu.memory.get_u16(0x0200), 0x77);
    assert_eq!(cpu.step(), StepResult::Running);
    assert_eq!(cpu.program_counter.get(), 0x8FFF);
    assert_eq!(cpu.step(), StepResult::Running);
    assert_eq!(cpu.x_register.get(), 0x01);
}

#[test]
fn run_loads_and_steps() {
    let mut cpu = fresh();
    let program = vec![0xA9, 0x10, 0x69, 0x10];
    assert_eq!(cpu.run(&program, None, 2), Ok(StepResult::Running));
    assert_eq!(cpu.accumulator.get(), 0x20);
    assert_eq!(cpu.memory.get_u16(0x8000), 0xA9);
}

#[test]
fn run_stops_at_kil() {
    let mut cpu = fresh();
    // LDA #$05, then KIL, then LDA #$07 that is never reached.
    let program = vec![0xA9, 0x05, 0x02, 0xA9, 0x07];
    assert_eq!(cpu.run(&program, None, 0x100), Ok(StepResult::Locked));
    assert_eq!(cpu.accumulator.get(), 0x05);
    assert_eq!(cpu.program_counter.get(), 0x8002);
    // A KIL as the first byte is the first thing executed.
    let mut cpu = fresh();
    assert_eq!(cpu.run(&vec![0x02], Some(0x4000), 5), Ok(StepResult::Locked));
    assert_eq!(cpu.program_counter.get(), 0x4000);
}

#[test]
fn run_refuses_a_program_too_large() {
    let mut cpu = fresh();
    let program = vec![0xEAu8; 0x10];
    assert_eq!(cpu.run(&program, Some(0xFFF8), 3), Err(LoadError::ProgramTooLarge));
    assert_eq!(cpu.memory.get_u16(0xFFF8), 0);
    assert_eq!(cpu.cycles, 0);
}

#[test]
fn run_starts_at_the_block() {
    let mut cpu = fresh();
    let program = vec![0x11, 0x22];
    assert_eq!(cpu.run(&program, Some(0x4000), 0), Ok(StepResult::Running));
    assert_eq!(cpu.memory.get_u16(0x4001), 0x22);
    assert_eq!(cpu.program_counter.get(), 0x3FFF);
    let mut cpu = fresh();
    assert_eq!(cpu.run(&vec![0xE8], Some(0x0000), 1), Ok(StepResult::Running));
    assert_eq!(cpu.x_register.get(), 0x01);
}

#[test]
fn running_in_pieces_equals_running_at_once() {
    let program = vec![0xA9, 0x10, 0x69, 0x10, 0xAA, 0xE8, 0x02];
    let mut whole = fresh();
    let r_whole = whole.run(&program, None, 4);
    let mut pieces = fresh();
    assert_eq!(pieces.run(&program, None, 1), Ok(StepResult::Running));
    assert_eq!(pieces.run_steps(3), StepResult::Running);
    assert_eq!(r_whole, Ok(StepResult::Running));
    assert_eq!(whole.accumulator.get(), pieces.accumulator.get());
    assert_eq!(whole.x_register.get(), 0x21);
    assert_eq!(whole.x_register.get(), pieces.x_register.get());
    assert_eq!(whole.program_counter.get(), pieces.program_counter.get());
    assert_eq!(whole.status_register.get_register(), pieces.status_register.get_register());
    assert_eq!(whole.cycles, pieces.cycles);
    assert_eq!(whole.run_steps(5), StepResult::Locked);
}

#[test]
fn status_register_text() {
    let mut cpu = fresh();
    cpu.status_register.set(0x81);
    assert_eq!(
        cpu.status_register.to_string(),
        "\n\tCarryBit: true\n\tZeroBit: false\n\tInterruptBit: false\n\tDecimalBit: false\n\tBreakBit: false\n\tOverflowBit: false\n\tNegativeBit: true"
    );
}

#[test]
fn cpu_text() {
    let mut cpu = fresh();
    cpu.program_counter.jump(0xC0DE);
    cpu.accumulator.set(0x0A);
    cpu.x_register.set(0xFF);
    cpu.memory.set_stack_pointer(0xFD);
    let text = cpu.to_string();
    assert!(text.starts_with("program_counter: 0xC0DE\nstack_pointer: 0xFD\naccumulator: 0xA\nstatus_register: \n\tCarryBit: false"));
    assert!(text.ends_with("\nx_register: 0xFF\ny_register: 0x0\n"));
}

#[test]
fn decimal_subtraction_gives_decimal_difference() {
    // 50 - 25 = 25, 12 - 21 = -9 which is 91 modulo 100 with a borrow.
    let mut cpu = fresh();
    assert_eq!(cpu.decimal_subtraction(0x50, 0x25, 0), 0x25);
    let mut cpu = fresh();
    assert_eq!(cpu.decimal_subtraction(0x12, 0x21, 0), 0x91);
    let mut cpu = fresh();
    assert_eq!(cpu.decimal_subtraction(0x03, 0x97, 1), 0x05);
    let mut cpu = fresh();
    assert_eq!(cpu.decimal_subtraction(0x10, 0x11, 0), 0x99);
    // SBC in decimal mode.
    let mut cpu = fresh();
    cpu.status_register.set_flag(StatusBit::Decimal);
    cpu.status_register.set_flag(StatusBit::Carry);
    cpu.accumulator.set(0x00);
    cpu.sbc(0x01);
    assert_eq!(cpu.accumulator.get(), 0x99);
    assert_eq!(cpu.status_register.is_flag_set(StatusBit::Carry), false);
}

#[test]
fn instructions_cost_at_least_two_cycles() {
    // NOP, LDA #, CLC, TXS, INX, JMP abs: each from a fresh processor.
    for (program, expected) in [
        (vec![0xEAu8, 0xEA], 2u64),
        (vec![0xEA, 0xA9, 0x01], 2),
        (vec![0xEA, 0x18], 2),
        (vec![0xEA, 0x9A], 2),
        (vec![0xEA, 0xE8], 2),
        (vec![0xEA, 0x4C, 0x00, 0x90], 3),
    ] {
        let mut cpu = fresh();
        cpu.load_program_into_memory(&program, STARTING_MEMORY_BLOCK).unwrap();
        assert_eq!(cpu.step(), StepResult::Running);
        assert_eq!(cpu.cycles, expected);
    }
}

#[test]
fn jsr_then_rts_returns_after_the_call() {
    let mut cpu = fresh();
    // JSR $9000 with its opcode at $8001; RTS is the subroutine's first byte.
    let program = vec![0xEA, 0x20, 0x00, 0x90, 0xE8];
    cpu.load_program_into_memory(&program, STARTING_MEMORY_BLOCK).unwrap();
    cpu.memory.set(0x9000, 0x60);
    assert_eq!(cpu.step(), StepResult::Running);
    assert_eq!(cpu.program_counter.get(), 0x8FFF);
    assert_eq!(cpu.memory.get_stack_pointer().get(), 0xFD);
    // The high byte is pushed first.
    assert_eq!(cpu.memory.get_u16(0x1FF), 0x80);
    assert_eq!(cpu.memory.get_u16(0x1FE), 0x02);
    assert_eq!(cpu.step(), StepResult::Running);
    assert_eq!(cpu.program_counter.get(), 0x8003);
    assert_eq!(cpu.memory.get_stack_pointer().get(), 0xFF);
    // Execution goes on with the INX after the JSR.
    assert_eq!(cpu.step(), StepResult::Running);
    assert_eq!(cpu.x_register.get(), 0x01);
}
