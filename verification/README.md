# emu_attack

A 6502 emulator core and a lexer for ca65-style assembly, written in Verus.

- `src/` is the verified library. `model.rs` describes the processor as a
  mathematical value (`CpuView`), `semantics.rs` says what every instruction
  does to it, and `decode.rs` holds the opcode table and the fetch-execute
  step. The executable registers, memory, addressing modes and instructions
  (`cpu.rs`, `ops.rs`, `read_ops.rs`, `write_ops.rs`) are proved to follow
  that description. `laws.rs` states properties that span several operations,
  such as an interrupt followed by a return restoring the program counter.
  `lexer.rs`, `token.rs` and `char_utils.rs` are the assembly lexer, and
  `repl.rs` parses operands for the interactive prompt.
- `app/` is the command line driver: a clock thread that paces the processor,
  the interactive prompt, and a token dump of an assembly file.
- `tests/` exercises the library on concrete values.

Every instruction counts the machine cycles it spends; a driver waits for one
clock tick per counted cycle and services the interrupt pins while it waits.
Instructions that the hardware leaves undefined, or that lock the processor,
report so through `StepResult` instead of panicking.

Each fetch moves the program counter up one before reading, so the counter
names the last byte read: jumps, subroutine calls, interrupt handlers and
`CPU::run` leave it one before the first byte to execute.
