use emu_attack::general_register::GeneralRegister;
use emu_attack::memory::Memory;
use emu_attack::named_flags::StatusRegister as NamedFlags;
use emu_attack::program_counter::ProgramCounter;
use emu_attack::stack_pointer::StackPointer;
use emu_attack::status_register::{StatusBit, StatusRegister};
use emu_attack::STARTING_MEMORY_BLOCK;

// ---------------------------------------------------------------------------
// Status register with one method per flag
// ---------------------------------------------------------------------------

#[test]
fn set_carry_bit() {
    let mut reg = NamedFlags::new();
    reg.set_carry_bit();
    assert_eq!(reg.register, 1);
}

#[test]
fn is_carry_set() {
    let mut reg = NamedFlags::new();
    reg.set_carry_bit();
    assert_eq!(reg.is_carry_bit_set(), true);
}

#[test]
fn unset_carry_bit() {
    let mut reg = NamedFlags::new();
    reg.register = 1;
    reg.clear_carry_bit();
    assert_eq!(reg.register, 0);
}

#[test]
fn set_zero_bit() {
    let mut reg = NamedFlags::new();
    reg.set_zero_bit();
    assert_eq!(reg.register, 2);
}

#[test]
fn is_zero_set() {
    let mut reg = NamedFlags::new();
    reg.set_zero_bit();
    assert_eq!(reg.is_zero_bit_set(), true);
}

#[test]
fn unset_zero_bit() {
    let mut reg = NamedFlags::new();
    reg.register = 2;
    reg.clear_zero_bit();
    assert_eq!(reg.register, 0);
}

#[test]
fn set_interrupt_bit() {
    let mut reg = NamedFlags::new();
    reg.set_interrupt_bit();
    assert_eq!(reg.register, 4);
}

#[test]
fn is_interrupt_set() {
    let mut reg = NamedFlags::new();
    reg.set_interrupt_bit();
    assert_eq!(reg.is_interrupt_bit_set(), true);
}

#[test]
fn unset_interrupt_bit() {
    let mut reg = NamedFlags::new();
    reg.register = 4;
    reg.clear_interrupt_bit();
    assert_eq!(reg.register, 0);
}

#[test]
fn set_decimal_bit() {
    let mut reg = NamedFlags::new();
    reg.set_decimal_bit();
    assert_eq!(reg.register, 8);
}

#[test]
fn is_decimal_bit_set() {
    let mut reg = NamedFlags::new();
    reg.set_decimal_bit();
    assert_eq!(reg.is_decimal_bit_set(), true);
}

#[test]
fn unset_decimal_but() {
    let mut reg = NamedFlags::new();
    reg.register = 8;
    reg.clear_decimal_bit();
    assert_eq!(reg.register, 0);
}

#[test]
fn set_break_bit() {
    let mut reg = NamedFlags::new();
    reg.set_break_bit();
    assert_eq!(reg.register, 16);
}

#[test]
fn is_break_bit_set() {
    let mut reg = NamedFlags::new();
    reg.set_break_bit();
    assert_eq!(reg.is_break_bit_set(), true);
}

#[test]
fn unset_break_but() {
    let mut reg = NamedFlags::new();
    reg.register = 16;
    reg.clear_break_bit();
    assert_eq!(reg.register, 0);
}

#[test]
fn set_overflow_bit() {
    let mut reg = NamedFlags::new();
    reg.set_overflow_bit();
    assert_eq!(reg.register, 32);
}

#[test]
fn is_overflow_bit_set() {
    let mut reg = NamedFlags::new();
    reg.set_overflow_bit();
    assert_eq!(reg.is_overflow_bit_set(), true);
}

#[test]
fn unset_overflow_but() {
    let mut reg = NamedFlags::new();
    reg.register = 32;
    reg.clear_overflow_bit();
    assert_eq!(reg.register, 0);
}

#[test]
fn set_negative_bit() {
    let mut reg = NamedFlags::new();
    reg.set_negative_bit();
    assert_eq!(reg.register, 64);
}

#[test]
fn is_negative_bit_set() {
    let mut reg = NamedFlags::new();
    reg.set_negative_bit();
    assert_eq!(reg.is_negative_bit_set(), true);
}

#[test]
fn unset_negative_but() {
    let mut reg = NamedFlags::new();
    reg.register = 64;
    reg.clear_negative_bit();
    assert_eq!(reg.register, 0);
}

#[allow(non_snake_case)]
#[test]
fn StatusRegister_set_all_bits() {
    let mut reg = NamedFlags::new();
    reg.set_carry_bit();
    reg.set_break_bit();
    reg.set_decimal_bit();
    reg.set_interrupt_bit();
    reg.set_overflow_bit();
    reg.set_negative_bit();
    reg.set_zero_bit();
    assert_eq!(reg.register, 127);
}

#[allow(non_snake_case)]
#[test]
fn StatusRegister_reset_bits() {
    let mut reg = NamedFlags::new();
    reg.set_carry_bit();
    reg.set_break_bit();
    reg.set_decimal_bit();
    reg.set_interrupt_bit();
    reg.set_overflow_bit();
    reg.set_negative_bit();
    reg.set_zero_bit();
    reg.reset();
    assert_eq!(reg.register, 0);
}

#[test]
fn named_flags_clear_leaves_other_bits() {
    let mut reg = NamedFlags::new();
    reg.register = 0x7F;
    reg.clear_decimal_bit();
    assert_eq!(reg.register, 0x77);
    // A flag reads as set only when it is the highest bit that is set.
    assert_eq!(reg.is_negative_bit_set(), true);
    assert_eq!(reg.is_carry_bit_set(), false);
    assert_eq!(reg.is_zero_bit_set(), false);
    assert_eq!(reg.is_decimal_bit_set(), false);
    assert_eq!(reg.get_register(), 0x77);
}

// ---------------------------------------------------------------------------
// General register
// ---------------------------------------------------------------------------

#[test]
fn general_register_new() {
    let gr = GeneralRegister::new();
    assert_eq!(gr.0, 0);
}

#[test]
fn general_register_reset() {
    let mut gr = GeneralRegister::new();
    gr.0 = 25;
    gr.reset();
    assert_eq!(gr.0, 0);
}

#[test]
fn get() {
    let mut gr = GeneralRegister::new();
    gr.0 = 39;
    assert_eq!(gr.get(), 39);
}

#[test]
fn set() {
    let mut gr = GeneralRegister::new();
    gr.set(2);
    assert_eq!(gr.0, 2);
}

#[test]
fn general_register_increment_wraps() {
    let mut gr = GeneralRegister::new();
    gr.set(0);
    gr.increment();
    assert_eq!(gr.0, 1);
    gr.set(0xFF);
    gr.increment();
    assert_eq!(gr.0, 0);
}

#[test]
fn general_register_decrement_wraps() {
    let mut gr = GeneralRegister::new();
    gr.set(1);
    gr.decrement();
    assert_eq!(gr.0, 0);
    gr.decrement();
    assert_eq!(gr.0, 0xFF);
}

#[test]
fn general_register_increment_then_decrement() {
    for v in [0u8, 1, 0x7F, 0x80, 0xFF] {
        let mut gr = GeneralRegister::new();
        gr.set(v);
        gr.increment();
        gr.decrement();
        assert_eq!(gr.get(), v);
    }
}

// ---------------------------------------------------------------------------
// Program counter
// ---------------------------------------------------------------------------

#[test]
fn program_counter_new() {
    let pc = ProgramCounter::new();
    assert_eq!(pc.value, STARTING_MEMORY_BLOCK);
    assert_eq!(pc.start, STARTING_MEMORY_BLOCK);
}

#[test]
fn program_counter_reset() {
    let mut pc = ProgramCounter::new();
    pc.value = 0x1234;
    pc.reset();
    assert_eq!(pc.value, pc.start);
}

#[test]
fn program_counter_new_at() {
    let pc = ProgramCounter::new_at(0x4321);
    assert_eq!(pc.value, 0x4321);
    assert_eq!(pc.start, 0x4321);
    assert_eq!(pc.get(), 0x4321usize);
}

#[test]
fn program_counter_increase() {
    let mut pc = ProgramCounter::new_at(0x1234);
    pc.increase(0x56);
    assert_eq!(pc.value, 0x128A);
    let mut pc = ProgramCounter::new_at(0xFFFE);
    pc.increase(0xFF);
    assert_eq!(pc.value, 0xFFFEu16.wrapping_add(0xFF));
}

#[test]
fn program_counter_decrease() {
    let mut pc = ProgramCounter::new_at(0x1234);
    pc.decrease(0x56);
    assert_eq!(pc.value, 0x11DE);
    let mut pc = ProgramCounter::new_at(0x0002);
    pc.decrease(0xFF);
    assert_eq!(pc.value, 0x0002u16.wrapping_sub(0xFF));
}

#[test]
fn program_counter_increase_then_decrease() {
    let mut pc = ProgramCounter::new_at(0xFFF0);
    pc.increase(0x40);
    pc.decrease(0x40);
    assert_eq!(pc.value, 0xFFF0);
}

#[test]
fn program_counter_page_boundaries() {
    let mut pc = ProgramCounter::new_at(0x1212);
    assert_eq!(pc.test_page_boundary_add(0x34), false);
    let mut pc = ProgramCounter::new_at(0x12FF);
    assert_eq!(pc.test_page_boundary_add(0xFF), true);
    let mut pc = ProgramCounter::new_at(0x12FF);
    assert_eq!(pc.test_page_boundary_sub(0x34), false);
    let mut pc = ProgramCounter::new_at(0x1212);
    assert_eq!(pc.test_page_boundary_sub(0xFF), true);
}

#[test]
fn program_counter_jump() {
    let mut pc = ProgramCounter::new();
    pc.jump(0xBEEF);
    assert_eq!(pc.value, 0xBEEF);
    assert_eq!(pc.start, STARTING_MEMORY_BLOCK);
}

#[test]
fn get_and_increase() {
    let mut pc = ProgramCounter::new();
    let op = pc.get_and_increase();
    assert_eq!(op, STARTING_MEMORY_BLOCK + 1);
}

// ---------------------------------------------------------------------------
// Stack pointer
// ---------------------------------------------------------------------------

#[test]
fn stack_pointer_new() {
    let sp = StackPointer::new();
    assert_eq!(sp.0, 0xFF);
}

#[test]
fn stack_pointer_reset_get_set() {
    let mut sp = StackPointer::new();
    sp.set(0x12);
    assert_eq!(sp.get(), 0x12);
    sp.reset();
    assert_eq!(sp.0, 0xFF);
}

#[test]
fn stack_pointer_push_and_pop() {
    let mut sp = StackPointer::new();
    assert_eq!(sp.push(), 0xFF);
    assert_eq!(sp.get(), 0xFE);
    assert_eq!(sp.pop(), 0xFF);
    assert_eq!(sp.get(), 0xFF);
    // Popping from the top wraps round to the bottom of page one.
    assert_eq!(sp.pop(), 0x00);
    assert_eq!(sp.get(), 0x00);
    assert_eq!(sp.push(), 0x00);
    assert_eq!(sp.get(), 0xFF);
}

// ---------------------------------------------------------------------------
// Status register
// ---------------------------------------------------------------------------

#[test]
fn status_register_set_all_bits() {
    let mut reg = StatusRegister::new();
    reg.set_flag(StatusBit::Carry);
    reg.set_flag(StatusBit::Zero);
    reg.set_flag(StatusBit::Interrupt);
    reg.set_flag(StatusBit::Break);
    reg.set_flag(StatusBit::Decimal);
    reg.set_flag(StatusBit::Overflow);
    reg.set_flag(StatusBit::Negative);
    assert_eq!(reg.is_flag_set(StatusBit::Carry), true);
    assert_eq!(reg.is_flag_set(StatusBit::Zero), true);
    assert_eq!(reg.is_flag_set(StatusBit::Interrupt), true);
    assert_eq!(reg.is_flag_set(StatusBit::Break), true);
    assert_eq!(reg.is_flag_set(StatusBit::Decimal), true);
    assert_eq!(reg.is_flag_set(StatusBit::Overflow), true);
    assert_eq!(reg.is_flag_set(StatusBit::Negative), true);
}

#[test]
fn status_register_reset_bits() {
    let mut reg = StatusRegister::new();
    reg.set_flag(StatusBit::Carry);
    reg.set_flag(StatusBit::Zero);
    reg.set_flag(StatusBit::Interrupt);
    reg.set_flag(StatusBit::Break);
    reg.set_flag(StatusBit::Decimal);
    reg.set_flag(StatusBit::Overflow);
    reg.set_flag(StatusBit::Negative);
    reg.reset();
    assert_eq!(reg.0, 0);
}

#[test]
fn status_register_single_flags() {
    let bits = [
        (StatusBit::Carry, 0x01u8),
        (StatusBit::Zero, 0x02),
        (StatusBit::Interrupt, 0x04),
        (StatusBit::Decimal, 0x08),
        (StatusBit::Break, 0x10),
        (StatusBit::Unused, 0x20),
        (StatusBit::Overflow, 0x40),
        (StatusBit::Negative, 0x80),
    ];
    for (bit, mask) in bits {
        let mut reg = StatusRegister::new();
        assert_eq!(bit.mask(), mask);
        reg.set_flag(bit);
        assert_eq!(reg.0, mask);
        assert_eq!(reg.is_flag_set(bit), true);
        reg.clear_flag(bit);
        assert_eq!(reg.0, 0);
        assert_eq!(reg.is_flag_set(bit), false);
    }
}

#[test]
fn status_register_get_and_set() {
    let mut reg = StatusRegister::new();
    reg.set(0xCF);
    assert_eq!(reg.get_register(), 0xCF);
    assert_eq!(reg.is_flag_set(StatusBit::Break), false);
    assert_eq!(reg.is_flag_set(StatusBit::Negative), true);
}

#[test]
fn handle_carry_set() {
    let mut reg = StatusRegister::new();
    reg.handle_c_flag("test", true);
    assert_eq!(reg.is_flag_set(StatusBit::Carry), true);
}

#[test]
fn handle_carry_clear() {
    let mut reg = StatusRegister::new();
    reg.set_flag(StatusBit::Carry);
    reg.handle_c_flag("test", false);
    assert_eq!(reg.is_flag_set(StatusBit::Carry), false);
}

#[test]
fn handle_overflow_set() {
    let mut reg = StatusRegister::new();
    reg.handle_v_flag(0x80, "test", false);
    assert_eq!(reg.is_flag_set(StatusBit::Overflow), true);
}

#[test]
fn handle_overflow_set_carry() {
    let mut reg = StatusRegister::new();
    reg.handle_v_flag(0x81, "test", true);
    assert_eq!(reg.is_flag_set(StatusBit::Overflow), true);
}

#[test]
fn handle_overflow_clear() {
    let mut reg = StatusRegister::new();
    reg.set_flag(StatusBit::Overflow);
    reg.handle_v_flag(0x80, "test", true);
    assert_eq!(reg.is_flag_set(StatusBit::Overflow), false);
    reg.handle_v_flag(0x10, "test", false);
    assert_eq!(reg.is_flag_set(StatusBit::Overflow), false);
}

#[test]
fn handle_zero_set() {
    let mut reg = StatusRegister::new();
    reg.handle_z_flag(0x0, "test");
    assert_eq!(reg.is_flag_set(StatusBit::Zero), true);
}

#[test]
fn handle_zero_clear() {
    let mut reg = StatusRegister::new();
    reg.set_flag(StatusBit::Zero);
    reg.handle_z_flag(0x1, "test");
    assert_eq!(reg.is_flag_set(StatusBit::Zero), false);
}

#[test]
fn handle_negative_set() {
    let mut reg = StatusRegister::new();
    reg.handle_n_flag(0x80, "test");
    assert_eq!(reg.is_flag_set(StatusBit::Negative), true);
}

#[test]
fn handle_negative_clear() {
    let mut reg = StatusRegister::new();
    reg.set_flag(StatusBit::Negative);
    reg.handle_n_flag(0x1, "test");
    assert_eq!(reg.is_flag_set(StatusBit::Negative), false);
}

// ---------------------------------------------------------------------------
// Memory
// ---------------------------------------------------------------------------

#[test]
fn memory_new() {
    let memory = Memory::new();
    for block in memory.mem.iter() {
        assert_eq!(block, &0u8);
    }
}

#[test]
fn memory_reset_and_access() {
    let mut memory = Memory::new();
    memory.set(0x1234, 7);
    memory.set(0xFFFF, 9);
    memory.set_zero_page(0x12, 5);
    assert_eq!(memory.get_u16(0x1234), 7);
    assert_eq!(memory.get_u16(0xFFFF), 9);
    assert_eq!(memory.get_zero_page(0x12), 5);
    assert_eq!(memory.get_u16(0x0012), 5);
    memory.set_stack_pointer(0x80);
    memory.reset();
    for block in memory.mem.iter() {
        assert_eq!(block, &0u8);
    }
    assert_eq!(memory.get_stack_pointer().get(), 0xFF);
}

#[test]
fn memory_push_then_pop() {
    let mut memory = Memory::new();
    memory.push_to_stack(0xAB);
    assert_eq!(memory.get_u16(0x1FF), 0xAB);
    assert_eq!(memory.get_stack_pointer().get(), 0xFE);
    assert_eq!(memory.pop_from_stack(), 0xAB);
    assert_eq!(memory.get_stack_pointer().get(), 0xFF);
}
