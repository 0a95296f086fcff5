//! The execution engine: fetch, decode and execute one instruction per call,
//! over the memory, the register file, an index register, a program counter,
//! a bounded call stack and the 64x32 framebuffer.
//!
//! The whole machine is modelled by [`ProcState`], and one step by the
//! spec-level interpreter [`spec_step`]: `execute` promises to take exactly
//! that step (for some value of the byte the random-register instruction
//! draws). A blocking key read is reframed as the explicit
//! [`Status::WaitingForKey`] state: the driver supplies the key with
//! [`Processor::provide_key`] or reports failure with
//! [`Processor::report_key_failure`].

use crate::inst::Instruction;
use crate::inst::spec_parse;
use crate::mem::Memory;
use crate::reg::Registers;
use vstd::prelude::*;

verus! {

/// Start address of loaded programs, and of the program counter after reset.
pub const RESET_VECTOR: usize = 512;

/// Fixed call-stack capacity (return addresses).
pub const STACK_SIZE: usize = 128;

/// Number of framebuffer cells: 64 columns by 32 rows.
pub const DISPLAY_SIZE: usize = 2048;

/// What stopped, or would stop, a run.
///
/// `InstructionNotImplemented` is kept for completeness: the dispatch
/// handles every decoded instruction, so no step produces it.
#[derive(Debug, Clone, Copy)]
pub enum ErrorKind {
    InvalidRegister(u8),
    InstructionNotImplemented(Instruction),
    InstructionInvalid([u8; 2]),
    InvalidMemoryAccess(usize),
    KeyboardError,
    StackOverflow,
    StackUnderflow,
}

/// The error surfaced by one execution step.
#[derive(Debug, Clone, Copy)]
pub struct ProcError {
    pub kind: ErrorKind,
}

/// The processor's run state: executing, suspended on a key read, or stopped
/// by an error.
#[derive(Debug, Clone, Copy)]
pub enum Status {
    Running,
    WaitingForKey { register: u8 },
    Halted { kind: ErrorKind },
}

/// The mathematical model of the whole machine.
#[verifier::ext_equal]
pub ghost struct ProcState {
    pub mem: Seq<u8>,
    pub regs: Seq<u8>,
    pub pc: int,
    pub sp: int,
    pub i: int,
    pub stack: Seq<u16>,
    pub fb: Seq<u8>,
    pub status: Status,
}

/// The machine, as executed.
pub struct Processor {
    pub memory: Memory,
    pub registers: Registers,
    pub pc: usize,
    pub sp: usize,
    pub i: u16,
    pub stack: Vec<u16>,
    pub framebuffer: Vec<u8>,
    pub status: Status,
}

impl View for Processor {
    type V = ProcState;

    open spec fn view(&self) -> ProcState {
        ProcState {
            mem: self.memory@,
            regs: self.registers@,
            pc: self.pc as int,
            sp: self.sp as int,
            i: self.i as int,
            stack: self.stack@,
            fb: self.framebuffer@,
            status: self.status,
        }
    }
}

/// The same machine, stopped with the given error.
pub open spec fn spec_halt(s: ProcState, kind: ErrorKind) -> ProcState {
    ProcState { status: Status::Halted { kind }, ..s }
}

/// An 8-bit wrap of an arbitrary integer.
pub open spec fn wrap8(x: int) -> u8 {
    (x % 256) as u8
}

/// One sprite row drawn pixel by pixel, columns `xo..8` of row `yy`,
/// starting at column `x`. Bit `k` of `row` drives column `x + k`; a set bit
/// writes 1, a clear bit writes 0. A cell index beyond the framebuffer stops
/// the row with an error, the cells already written staying in place.
pub open spec fn spec_draw_row(fb: Seq<u8>, row: u8, x: int, yy: int, xo: int) -> (Seq<u8>, Option<
    ErrorKind,
>)
    decreases 8 - xo,
{
    if xo < 0 || xo >= 8 {
        (fb, None::<ErrorKind>)
    } else {
        let addr = x + xo + yy * 64;
        if !(0 <= addr < DISPLAY_SIZE) {
            (fb, Some(ErrorKind::InvalidMemoryAccess(addr as usize)))
        } else {
            let bit: u8 = if row & (1u8 << (xo as u8)) > 0 {
                1u8
            } else {
                0u8
            };
            spec_draw_row(fb.update(addr, bit), row, x, yy, xo + 1)
        }
    }
}

/// A sprite drawn row by row: rows `yo..height`, each read from memory at
/// `base + yo` and drawn at screen row `y + yo`. A memory or framebuffer
/// bound failure stops the draw with an error, rows and cells already
/// written staying in place.
pub open spec fn spec_draw(
    fb: Seq<u8>,
    mem: Seq<u8>,
    base: int,
    x: int,
    y: int,
    yo: int,
    height: int,
) -> (Seq<u8>, Option<ErrorKind>)
    decreases height - yo,
{
    if yo < 0 || yo >= height {
        (fb, None::<ErrorKind>)
    } else if !(0 <= base + yo < crate::mem::MAX_SIZE) {
        (fb, Some(ErrorKind::InvalidMemoryAccess((base + yo) as usize)))
    } else {
        let row = mem[base + yo];
        let step = spec_draw_row(fb, row, x, y + yo, 0);
        if step.1 is Some {
            step
        } else {
            spec_draw(step.0, mem, base, x, y, yo + 1, height)
        }
    }
}

/// Registers `idx..=end` written to memory at consecutive addresses from
/// `i`, the index register advancing by one per byte written. A bound
/// failure stops the dump with an error, the bytes already written and the
/// advanced index staying in place.
pub open spec fn spec_dump(mem: Seq<u8>, regs: Seq<u8>, i: int, idx: int, end: int) -> (
    Seq<u8>,
    int,
    Option<ErrorKind>,
)
    decreases end - idx + 1,
{
    if idx < 0 || idx > end {
        (mem, i, None::<ErrorKind>)
    } else if !(0 <= i < crate::mem::MAX_SIZE) {
        (mem, i, Some(ErrorKind::InvalidMemoryAccess(i as usize)))
    } else {
        spec_dump(mem.update(i, regs[idx]), regs, i + 1, idx + 1, end)
    }
}

/// The effect of one decoded instruction on the machine `s`, whose program
/// counter has already advanced past the instruction. `rb` is the byte the
/// random-register instruction draws; every other instruction ignores it.
pub open spec fn spec_exec_inst(s: ProcState, inst: Instruction, rb: u8) -> ProcState {
    match inst {
        Instruction::Call { .. } => s,
        Instruction::ClearDisplay => ProcState {
            fb: Seq::new(DISPLAY_SIZE as nat, |p: int| 0u8),
            ..s
        },
        Instruction::Return => {
            if s.sp <= 0 {
                spec_halt(s, ErrorKind::StackUnderflow)
            } else {
                ProcState { pc: s.stack[s.sp - 1] as int, sp: s.sp - 1, ..s }
            }
        },
        Instruction::Goto { addr } => ProcState { pc: addr as int, ..s },
        Instruction::GotoPlusV0 { addr } => ProcState { pc: addr + s.regs[0], ..s },
        Instruction::CallSubroutine { addr } => {
            if s.sp >= STACK_SIZE {
                spec_halt(s, ErrorKind::StackOverflow)
            } else {
                ProcState {
                    stack: s.stack.update(s.sp, s.pc as u16),
                    sp: s.sp + 1,
                    pc: addr as int,
                    ..s
                }
            }
        },
        Instruction::SkipIfRegisterEquals { register, value } => {
            if register >= 16 {
                spec_halt(s, ErrorKind::InvalidRegister(register))
            } else if s.regs[register as int] == value {
                ProcState { pc: s.pc + 2, ..s }
            } else {
                s
            }
        },
        Instruction::SkipIfRegisterNotEquals { register, value } => {
            if register >= 16 {
                spec_halt(s, ErrorKind::InvalidRegister(register))
            } else if s.regs[register as int] != value {
                ProcState { pc: s.pc + 2, ..s }
            } else {
                s
            }
        },
        Instruction::SkipIfRegistersEqual { register_1, register_2 } => {
            if register_1 >= 16 {
                spec_halt(s, ErrorKind::InvalidRegister(register_1))
            } else if register_2 >= 16 {
                spec_halt(s, ErrorKind::InvalidRegister(register_2))
            } else if s.regs[register_1 as int] == s.regs[register_2 as int] {
                ProcState { pc: s.pc + 2, ..s }
            } else {
                s
            }
        },
        Instruction::SetRegister { register, value } => {
            if register >= 16 {
                spec_halt(s, ErrorKind::InvalidRegister(register))
            } else {
                ProcState { regs: s.regs.update(register as int, value), ..s }
            }
        },
        Instruction::SetRegisterRandomBitwiseAnd { register, and_operand } => {
            if register >= 16 {
                spec_halt(s, ErrorKind::InvalidRegister(register))
            } else {
                ProcState { regs: s.regs.update(register as int, rb & and_operand), ..s }
            }
        },
        Instruction::AddToRegister { register, value } => {
            if register >= 16 {
                spec_halt(s, ErrorKind::InvalidRegister(register))
            } else {
                ProcState {
                    regs: s.regs.update(register as int, wrap8(s.regs[register as int] + value)),
                    ..s
                }
            }
        },
        Instruction::CopyRegister { src_register, dst_register } => {
            if src_register >= 16 {
                spec_halt(s, ErrorKind::InvalidRegister(src_register))
            } else if dst_register >= 16 {
                spec_halt(s, ErrorKind::InvalidRegister(dst_register))
            } else {
                ProcState {
                    regs: s.regs.update(dst_register as int, s.regs[src_register as int]),
                    ..s
                }
            }
        },
        Instruction::ApplyBitwiseOr { value_register, operand_register } => {
            if value_register >= 16 {
                spec_halt(s, ErrorKind::InvalidRegister(value_register))
            } else if operand_register >= 16 {
                spec_halt(s, ErrorKind::InvalidRegister(operand_register))
            } else {
                ProcState {
                    regs: s.regs.update(
                        value_register as int,
                        s.regs[value_register as int] | s.regs[operand_register as int],
                    ),
                    ..s
                }
            }
        },
        Instruction::ApplyBitwiseAnd { value_register, operand_register } => {
            if value_register >= 16 {
                spec_halt(s, ErrorKind::InvalidRegister(value_register))
            } else if operand_register >= 16 {
                spec_halt(s, ErrorKind::InvalidRegister(operand_register))
            } else {
                ProcState {
                    regs: s.regs.update(
                        value_register as int,
                        s.regs[value_register as int] & s.regs[operand_register as int],
                    ),
                    ..s
                }
            }
        },
        Instruction::ApplyBitwiseXor { value_register, operand_register } => {
            if value_register >= 16 {
                spec_halt(s, ErrorKind::InvalidRegister(value_register))
            } else if operand_register >= 16 {
                spec_halt(s, ErrorKind::InvalidRegister(operand_register))
            } else {
                ProcState {
                    regs: s.regs.update(
                        value_register as int,
                        s.regs[value_register as int] ^ s.regs[operand_register as int],
                    ),
                    ..s
                }
            }
        },
        Instruction::AddRegisters { value_register, operand_register } => {
            if value_register >= 16 {
                spec_halt(s, ErrorKind::InvalidRegister(value_register))
            } else if operand_register >= 16 {
                spec_halt(s, ErrorKind::InvalidRegister(operand_register))
            } else {
                let a = s.regs[value_register as int];
                let b = s.regs[operand_register as int];
                let flag: u8 = if a + b > 255 {
                    1u8
                } else {
                    0u8
                };
                ProcState {
                    regs: s.regs.update(15, flag).update(value_register as int, wrap8(a + b)),
                    ..s
                }
            }
        },
        Instruction::SubtractRegisters { value_register, operand_register } => {
            if value_register >= 16 {
                spec_halt(s, ErrorKind::InvalidRegister(value_register))
            } else if operand_register >= 16 {
                spec_halt(s, ErrorKind::InvalidRegister(operand_register))
            } else {
                let a = s.regs[value_register as int];
                let b = s.regs[operand_register as int];
                let flag: u8 = if a - b < 0 {
                    1u8
                } else {
                    0u8
                };
                ProcState {
                    regs: s.regs.update(15, flag).update(
                        value_register as int,
                        wrap8(a - b + 256),
                    ),
                    ..s
                }
            }
        },
        Instruction::GetKey { register } => {
            if register >= 16 {
                spec_halt(s, ErrorKind::InvalidRegister(register))
            } else {
                ProcState { status: Status::WaitingForKey { register }, ..s }
            }
        },
        Instruction::SetI { addr } => ProcState { i: addr as int, ..s },
        Instruction::DumpRegisters { end_register } => {
            if end_register >= 16 {
                spec_halt(s, ErrorKind::InvalidRegister(end_register))
            } else {
                let outcome = spec_dump(s.mem, s.regs, s.i, 0, end_register as int);
                match outcome.2 {
                    None => ProcState { mem: outcome.0, i: outcome.1, ..s },
                    Some(kind) => ProcState {
                        mem: outcome.0,
                        i: outcome.1,
                        status: Status::Halted { kind },
                        ..s
                    },
                }
            }
        },
        Instruction::Draw { reg_x, reg_y, sprite_height } => {
            if reg_x >= 16 {
                spec_halt(s, ErrorKind::InvalidRegister(reg_x))
            } else if reg_y >= 16 {
                spec_halt(s, ErrorKind::InvalidRegister(reg_y))
            } else {
                let outcome = spec_draw(
                    s.fb,
                    s.mem,
                    s.i,
                    s.regs[reg_x as int] as int,
                    s.regs[reg_y as int] as int,
                    0,
                    sprite_height as int,
                );
                match outcome.1 {
                    None => ProcState { fb: outcome.0, ..s },
                    Some(kind) => ProcState {
                        fb: outcome.0,
                        status: Status::Halted { kind },
                        ..s
                    },
                }
            }
        },
    }
}

/// One full fetch-decode-execute step on the model. A machine that is not
/// running does not move; a fetch past the end of memory halts it in place;
/// a word that decodes to no instruction halts it with the program counter
/// already advanced; otherwise the decoded instruction acts per
/// [`spec_exec_inst`].
pub open spec fn spec_step(s: ProcState, rb: u8) -> ProcState {
    if !(s.status is Running) {
        s
    } else if !(0 <= s.pc && s.pc + 1 < crate::mem::MAX_SIZE) {
        spec_halt(s, ErrorKind::InvalidMemoryAccess(s.pc as usize))
    } else {
        let b0 = s.mem[s.pc];
        let b1 = s.mem[s.pc + 1];
        let advanced = ProcState { pc: s.pc + 2, ..s };
        match spec_parse(b0, b1) {
            None => spec_halt(advanced, ErrorKind::InstructionInvalid([b0, b1])),
            Some(inst) => spec_exec_inst(advanced, inst, rb),
        }
    }
}

/// Relies on rand::random: draws one byte from the thread-local generator.
/// Nothing is assumed of its value.
#[verifier::external_body]
fn random_byte() -> u8 {
    rand::random()
}

/// The hex-keypad value a physical key denotes, if any: the sixteen keys
/// 1234 / qwer / asdf / zxcv map to 0..=15 in that order.
pub open spec fn spec_key_value(c: char) -> Option<u8> {
    if c == '1' {
        Some(0u8)
    } else if c == '2' {
        Some(1u8)
    } else if c == '3' {
        Some(2u8)
    } else if c == '4' {
        Some(3u8)
    } else if c == 'q' {
        Some(4u8)
    } else if c == 'w' {
        Some(5u8)
    } else if c == 'e' {
        Some(6u8)
    } else if c == 'r' {
        Some(7u8)
    } else if c == 'a' {
        Some(8u8)
    } else if c == 's' {
        Some(9u8)
    } else if c == 'd' {
        Some(10u8)
    } else if c == 'f' {
        Some(11u8)
    } else if c == 'z' {
        Some(12u8)
    } else if c == 'x' {
        Some(13u8)
    } else if c == 'c' {
        Some(14u8)
    } else if c == 'v' {
        Some(15u8)
    } else {
        None
    }
}

/// Map a pressed character to its hex-keypad value: the pure half of the
/// keyboard collaborator. A character outside the sixteen keys maps to
/// nothing, and the caller keeps waiting.
pub fn map_key_char(c: char) -> (r: Option<u8>)
    ensures
        r == spec_key_value(c),
        r matches Some(k) ==> k < 16,
{
    match c {
        '1' => Some(0),
        '2' => Some(1),
        '3' => Some(2),
        '4' => Some(3),
        'q' => Some(4),
        'w' => Some(5),
        'e' => Some(6),
        'r' => Some(7),
        'a' => Some(8),
        's' => Some(9),
        'd' => Some(10),
        'f' => Some(11),
        'z' => Some(12),
        'x' => Some(13),
        'c' => Some(14),
        'v' => Some(15),
        _ => None,
    }
}

impl Processor {
    /// Structural soundness of the machine: full-size memory, stack and
    /// framebuffer, a stack pointer within capacity, binary framebuffer
    /// cells, and a valid register index in a pending key wait.
    pub open spec fn wf(&self) -> bool {
        &&& self.memory.wf()
        &&& self.registers@.len() == 16
        &&& self.stack@.len() == STACK_SIZE
        &&& self.sp <= STACK_SIZE
        &&& self.framebuffer@.len() == DISPLAY_SIZE
        &&& forall|p: int|
            0 <= p < DISPLAY_SIZE ==> self.framebuffer@[p] == 0 || self.framebuffer@[p] == 1
        &&& (self.status matches Status::WaitingForKey { register } ==> register < 16)
    }

    /// A fresh machine around the given memory: registers, index register,
    /// stack and framebuffer zeroed, the program counter at the reset
    /// vector, running.
    pub fn new(memory: Memory) -> (p: Processor)
        requires
            memory.wf(),
        ensures
            p.wf(),
            p@ == (ProcState {
                mem: memory@,
                regs: Seq::new(16, |k: int| 0u8),
                pc: RESET_VECTOR as int,
                sp: 0,
                i: 0,
                stack: Seq::new(STACK_SIZE as nat, |k: int| 0u16),
                fb: Seq::new(DISPLAY_SIZE as nat, |k: int| 0u8),
                status: Status::Running,
            }),
    {
        let mut stack: Vec<u16> = Vec::new();
        let mut k: usize = 0;
        while k < STACK_SIZE
            invariant
                k <= STACK_SIZE,
                stack@.len() == k,
                forall|j: int| 0 <= j < k ==> stack@[j] == 0u16,
            decreases STACK_SIZE - k,
        {
            stack.push(0);
            k = k + 1;
        }
        let mut framebuffer: Vec<u8> = Vec::new();
        let mut j: usize = 0;
        while j < DISPLAY_SIZE
            invariant
                j <= DISPLAY_SIZE,
                framebuffer@.len() == j,
                forall|q: int| 0 <= q < j ==> framebuffer@[q] == 0u8,
            decreases DISPLAY_SIZE - j,
        {
            framebuffer.push(0);
            j = j + 1;
        }
        let p = Processor {
            memory,
            registers: Registers::new(),
            pc: RESET_VECTOR,
            sp: 0,
            i: 0,
            stack,
            framebuffer,
            status: Status::Running,
        };
        proof {
            assert(p@.regs =~= Seq::new(16, |k: int| 0u8));
            assert(p@.stack =~= Seq::new(STACK_SIZE as nat, |k: int| 0u16));
            assert(p@.fb =~= Seq::new(DISPLAY_SIZE as nat, |k: int| 0u8));
            assert(p@ =~= (ProcState {
                mem: p.memory@,
                regs: Seq::new(16, |k: int| 0u8),
                pc: RESET_VECTOR as int,
                sp: 0,
                i: 0,
                stack: Seq::new(STACK_SIZE as nat, |k: int| 0u16),
                fb: Seq::new(DISPLAY_SIZE as nat, |k: int| 0u8),
                status: Status::Running,
            }));
        }
        p
    }

    /// Stop the machine with the given error and hand that error back.
    fn halt_with(&mut self, kind: ErrorKind) -> (r: ProcError)
        ensures
            final(self)@ == spec_halt(old(self)@, kind),
            r == (ProcError { kind }),
            old(self).wf() ==> final(self).wf(),
    {
        self.status = Status::Halted { kind };
        proof {
            assert(final(self)@ =~= spec_halt(old(self)@, kind));
        }
        ProcError { kind }
    }

    /// Restore the program counter to the reset vector and empty the stack,
    /// leaving memory and registers untouched; the machine runs again.
    pub fn reset(&mut self)
        ensures
            final(self)@ == (ProcState {
                pc: RESET_VECTOR as int,
                sp: 0,
                status: Status::Running,
                ..old(self)@
            }),
            old(self).wf() ==> final(self).wf(),
    {
        self.pc = RESET_VECTOR;
        self.sp = 0;
        self.status = Status::Running;
        proof {
            assert(final(self)@ =~= (ProcState {
                pc: RESET_VECTOR as int,
                sp: 0,
                status: Status::Running,
                ..old(self)@
            }));
        }
    }

    /// Push a return address; a full stack is refused.
    fn push_stack(&mut self, val: u16) -> (r: Result<(), ProcError>)
        requires
            old(self).wf(),
        ensures
            final(self).wf(),
            old(self)@.sp < STACK_SIZE ==> r == Ok::<(), ProcError>(()) && final(self)@
                == (ProcState {
                stack: old(self)@.stack.update(old(self)@.sp, val),
                sp: old(self)@.sp + 1,
                ..old(self)@
            }),
            old(self)@.sp >= STACK_SIZE ==> r == Err::<(), ProcError>(
                ProcError { kind: ErrorKind::StackOverflow },
            ) && final(self)@ == old(self)@,
    {
        if self.sp >= STACK_SIZE {
            return Err(ProcError { kind: ErrorKind::StackOverflow });
        }
        self.stack.set(self.sp, val);
        self.sp = self.sp + 1;
        proof {
            assert(final(self)@ =~= (ProcState {
                stack: old(self)@.stack.update(old(self)@.sp, val),
                sp: old(self)@.sp + 1,
                ..old(self)@
            }));
        }
        Ok(())
    }

    /// Pop the most recent return address; an empty stack is refused.
    fn pop_stack(&mut self) -> (r: Result<u16, ProcError>)
        requires
            old(self).wf(),
        ensures
            final(self).wf(),
            old(self)@.sp > 0 ==> r == Ok::<u16, ProcError>(
                old(self)@.stack[old(self)@.sp - 1],
            ) && final(self)@ == (ProcState { sp: old(self)@.sp - 1, ..old(self)@ }),
            old(self)@.sp == 0 ==> r == Err::<u16, ProcError>(
                ProcError { kind: ErrorKind::StackUnderflow },
            ) && final(self)@ == old(self)@,
    {
        if self.sp == 0 {
            return Err(ProcError { kind: ErrorKind::StackUnderflow });
        }
        self.sp = self.sp - 1;
        let v = self.stack[self.sp];
        proof {
            assert(final(self)@ =~= (ProcState { sp: old(self)@.sp - 1, ..old(self)@ }));
        }
        Ok(v)
    }

    /// Read a register, mapping an invalid index to the processor error.
    fn get_register(&self, index: u8) -> (r: Result<u8, ProcError>)
        requires
            self.wf(),
        ensures
            index < 16 ==> r == Ok::<u8, ProcError>(self@.regs[index as int]),
            index >= 16 ==> r == Err::<u8, ProcError>(
                ProcError { kind: ErrorKind::InvalidRegister(index) },
            ),
    {
        match self.registers.get(index) {
            Ok(v) => Ok(v),
            Err(_) => Err(ProcError { kind: ErrorKind::InvalidRegister(index) }),
        }
    }

    /// Write a register, mapping an invalid index to the processor error.
    fn set_register(&mut self, index: u8, value: u8) -> (r: Result<(), ProcError>)
        requires
            old(self).wf(),
        ensures
            final(self).wf(),
            index < 16 ==> r == Ok::<(), ProcError>(()) && final(self)@ == (ProcState {
                regs: old(self)@.regs.update(index as int, value),
                ..old(self)@
            }),
            index >= 16 ==> r == Err::<(), ProcError>(
                ProcError { kind: ErrorKind::InvalidRegister(index) },
            ) && final(self)@ == old(self)@,
    {
        match self.registers.set(index, value) {
            Ok(()) => {
                proof {
                    assert(final(self)@ =~= (ProcState {
                        regs: old(self)@.regs.update(index as int, value),
                        ..old(self)@
                    }));
                }
                Ok(())
            },
            Err(_) => Err(ProcError { kind: ErrorKind::InvalidRegister(index) }),
        }
    }

    /// Deliver the key the machine is waiting for: the register recorded in
    /// the wait takes the key value and the machine runs again.
    pub fn provide_key(&mut self, key: u8)
        requires
            old(self).wf(),
            old(self)@.status is WaitingForKey,
            key < 16,
        ensures
            final(self).wf(),
            final(self)@ == (ProcState {
                regs: old(self)@.regs.update(old(self)@.status->register as int, key),
                status: Status::Running,
                ..old(self)@
            }),
    {
        let register = match self.status {
            Status::WaitingForKey { register } => register,
            _ => {
                proof {
                    assert(false);
                }
                0
            },
        };
        let _ = self.registers.set(register, key);
        self.status = Status::Running;
        proof {
            assert(final(self)@ =~= (ProcState {
                regs: old(self)@.regs.update(old(self)@.status->register as int, key),
                status: Status::Running,
                ..old(self)@
            }));
        }
    }

    /// Set every framebuffer cell to 0.
    fn clear_display(&mut self)
        requires
            old(self).wf(),
        ensures
            final(self).wf(),
            final(self)@ == (ProcState {
                fb: Seq::new(DISPLAY_SIZE as nat, |p: int| 0u8),
                ..old(self)@
            }),
    {
        let mut k: usize = 0;
        while k < DISPLAY_SIZE
            invariant
                old(self).wf(),
                k <= DISPLAY_SIZE,
                self.framebuffer@.len() == DISPLAY_SIZE,
                forall|p: int| 0 <= p < k ==> self.framebuffer@[p] == 0u8,
                forall|p: int|
                    k <= p < DISPLAY_SIZE ==> self.framebuffer@[p] == old(self).framebuffer@[p],
                self.memory == old(self).memory,
                self.registers == old(self).registers,
                self.pc == old(self).pc,
                self.sp == old(self).sp,
                self.i == old(self).i,
                self.stack == old(self).stack,
                self.status == old(self).status,
            decreases DISPLAY_SIZE - k,
        {
            self.framebuffer.set(k, 0);
            k = k + 1;
        }
        proof {
            assert(self.framebuffer@ =~= Seq::new(DISPLAY_SIZE as nat, |p: int| 0u8));
            assert(final(self)@ =~= (ProcState {
                fb: Seq::new(DISPLAY_SIZE as nat, |p: int| 0u8),
                ..old(self)@
            }));
        }
    }

    /// Draw a `height`-row sprite read from memory at the index register,
    /// at screen position (`x`, `y`), per [`spec_draw`]: cells are
    /// overwritten, coordinates do not wrap, and a bound failure stops the
    /// draw mid-way.
    fn draw_sprite(&mut self, x: u8, y: u8, height: u8) -> (e: Option<ErrorKind>)
        requires
            old(self).wf(),
        ensures
            final(self).wf(),
            ({
                let outcome = spec_draw(
                    old(self)@.fb,
                    old(self)@.mem,
                    old(self)@.i,
                    x as int,
                    y as int,
                    0,
                    height as int,
                );
                final(self)@ == (ProcState { fb: outcome.0, ..old(self)@ }) && e == outcome.1
            }),
    {
        let mut yo: u8 = 0;
        while yo < height
            invariant
                self.wf(),
                yo <= height,
                self.memory == old(self).memory,
                self.registers == old(self).registers,
                self.pc == old(self).pc,
                self.sp == old(self).sp,
                self.i == old(self).i,
                self.stack == old(self).stack,
                self.status == old(self).status,
                spec_draw(
                    old(self)@.fb,
                    old(self)@.mem,
                    old(self)@.i,
                    x as int,
                    y as int,
                    0,
                    height as int,
                ) == spec_draw(
                    self@.fb,
                    self@.mem,
                    self@.i,
                    x as int,
                    y as int,
                    yo as int,
                    height as int,
                ),
            decreases height - yo,
        {
            let ghost fb0 = self@.fb;
            let row_addr = self.i as usize + yo as usize;
            let row = match self.memory.get_byte(row_addr) {
                Ok(b) => b,
                Err(_) => {
                    return Some(ErrorKind::InvalidMemoryAccess(row_addr));
                },
            };
            let mut xo: u8 = 0;
            while xo < 8
                invariant
                    self.wf(),
                    xo <= 8,
                    yo < height,
                    self.memory == old(self).memory,
                    self.registers == old(self).registers,
                    self.pc == old(self).pc,
                    self.sp == old(self).sp,
                    self.i == old(self).i,
                    self.stack == old(self).stack,
                    self.status == old(self).status,
                    0 <= self@.i + yo < crate::mem::MAX_SIZE,
                    row == self@.mem[self@.i + yo],
                    spec_draw(
                        old(self)@.fb,
                        old(self)@.mem,
                        old(self)@.i,
                        x as int,
                        y as int,
                        0,
                        height as int,
                    ) == spec_draw(
                        fb0,
                        self@.mem,
                        self@.i,
                        x as int,
                        y as int,
                        yo as int,
                        height as int,
                    ),
                    spec_draw_row(fb0, row, x as int, y as int + yo as int, 0) == spec_draw_row(
                        self@.fb,
                        row,
                        x as int,
                        y as int + yo as int,
                        xo as int,
                    ),
                decreases 8 - xo,
            {
                let px = x as usize + xo as usize;
                let py = y as usize + yo as usize;
                let addr = px + py * 64;
                if addr >= DISPLAY_SIZE {
                    return Some(ErrorKind::InvalidMemoryAccess(addr));
                }
                let mask: u8 = 1u8 << xo;
                let bit: u8 = if row & mask > 0 {
                    1
                } else {
                    0
                };
                self.framebuffer.set(addr, bit);
                xo = xo + 1;
            }
            yo = yo + 1;
        }
        None
    }

    /// Write registers 0..=`end` to memory at the index register, advancing
    /// it by one per byte written, per [`spec_dump`]: a bound failure stops
    /// the dump mid-way, the bytes already written staying in place.
    fn dump_registers(&mut self, end: u8) -> (e: Option<ErrorKind>)
        requires
            old(self).wf(),
            end < 16,
        ensures
            final(self).wf(),
            ({
                let outcome = spec_dump(
                    old(self)@.mem,
                    old(self)@.regs,
                    old(self)@.i,
                    0,
                    end as int,
                );
                final(self)@ == (ProcState { mem: outcome.0, i: outcome.1, ..old(self)@ }) && e
                    == outcome.2
            }),
    {
        let values = self.registers.as_array();
        let mut idx: u8 = 0;
        while idx <= end
            invariant
                self.wf(),
                end < 16,
                idx <= end + 1,
                values@ == self@.regs,
                self.registers == old(self).registers,
                self.pc == old(self).pc,
                self.sp == old(self).sp,
                self.stack == old(self).stack,
                self.framebuffer == old(self).framebuffer,
                self.status == old(self).status,
                spec_dump(old(self)@.mem, old(self)@.regs, old(self)@.i, 0, end as int)
                    == spec_dump(self@.mem, self@.regs, self@.i, idx as int, end as int),
            decreases end + 1 - idx,
        {
            let addr = self.i as usize;
            match self.memory.set_byte(addr, values[idx as usize]) {
                Ok(()) => {
                    self.i = self.i + 1;
                    idx = idx + 1;
                },
                Err(_) => {
                    return Some(ErrorKind::InvalidMemoryAccess(addr));
                },
            }
        }
        None
    }

    /// Report that the key source failed: the machine halts with the
    /// keyboard error, which is handed back.
    pub fn report_key_failure(&mut self) -> (r: ProcError)
        requires
            old(self).wf(),
            old(self)@.status is WaitingForKey,
        ensures
            final(self).wf(),
            final(self)@ == spec_halt(old(self)@, ErrorKind::KeyboardError),
            r == (ProcError { kind: ErrorKind::KeyboardError }),
    {
        self.status = Status::Halted { kind: ErrorKind::KeyboardError };
        proof {
            assert(final(self)@ =~= spec_halt(old(self)@, ErrorKind::KeyboardError));
        }
        ProcError { kind: ErrorKind::KeyboardError }
    }
    /// Apply one decoded instruction, the program counter already advanced
    /// past it: exactly [`spec_exec_inst`], for some value of the byte the
    /// random-register instruction draws.
    #[verifier::rlimit(100)]
    #[verifier::spinoff_prover]
    fn run_instruction(&mut self, inst: Instruction) -> (r: Result<(), ProcError>)
        requires
            old(self).wf(),
            old(self)@.status is Running,
            old(self)@.pc <= crate::mem::MAX_SIZE,
        ensures
            final(self).wf(),
            exists|b: u8| final(self)@ == #[trigger] spec_exec_inst(old(self)@, inst, b),
            match r {
                Ok(()) => !(final(self)@.status is Halted),
                Err(e) => final(self)@.status == (Status::Halted { kind: e.kind }),
            },
    {
        match inst {
            Instruction::Call { addr: _ } => {
                proof {
                    assert(self@ == spec_exec_inst(old(self)@, inst, 0u8));
                }
                Ok(())
            },
            Instruction::ClearDisplay => {
                self.clear_display();
                proof {
                    assert(self@ =~= spec_exec_inst(old(self)@, inst, 0u8));
                }
                Ok(())
            },
            Instruction::Return => {
                match self.pop_stack() {
                    Ok(target) => {
                        self.pc = target as usize;
                        proof {
                            assert(self@ =~= spec_exec_inst(old(self)@, inst, 0u8));
                        }
                        Ok(())
                    },
                    Err(_) => Err(self.halt_with(ErrorKind::StackUnderflow)),
                }
            },
            Instruction::CallSubroutine { addr } => {
                let here = self.pc as u16;
                match self.push_stack(here) {
                    Ok(()) => {
                        self.pc = addr as usize;
                        proof {
                            assert(self@ =~= spec_exec_inst(old(self)@, inst, 0u8));
                        }
                        Ok(())
                    },
                    Err(_) => Err(self.halt_with(ErrorKind::StackOverflow)),
                }
            },
            Instruction::Goto { addr } => {
                self.pc = addr as usize;
                proof {
                    assert(self@ =~= spec_exec_inst(old(self)@, inst, 0u8));
                }
                Ok(())
            },
            Instruction::GotoPlusV0 { addr } => {
                match self.get_register(crate::reg::V0) {
                    Ok(v0) => {
                        self.pc = addr as usize + v0 as usize;
                        proof {
                            assert(self@ =~= spec_exec_inst(old(self)@, inst, 0u8));
                        }
                        Ok(())
                    },
                    Err(e) => Err(self.halt_with(e.kind)),
                }
            },
            Instruction::SkipIfRegisterEquals { register, value } => {
                match self.get_register(register) {
                    Ok(v) => {
                        if v == value {
                            self.pc = self.pc + 2;
                        }
                        proof {
                            assert(self@ =~= spec_exec_inst(old(self)@, inst, 0u8));
                        }
                        Ok(())
                    },
                    Err(e) => Err(self.halt_with(e.kind)),
                }
            },
            Instruction::SkipIfRegisterNotEquals { register, value } => {
                match self.get_register(register) {
                    Ok(v) => {
                        if v != value {
                            self.pc = self.pc + 2;
                        }
                        proof {
                            assert(self@ =~= spec_exec_inst(old(self)@, inst, 0u8));
                        }
                        Ok(())
                    },
                    Err(e) => Err(self.halt_with(e.kind)),
                }
            },
            Instruction::SkipIfRegistersEqual { register_1, register_2 } => {
                let v1 = match self.get_register(register_1) {
                    Ok(v) => v,
                    Err(e) => {
                        return Err(self.halt_with(e.kind));
                    },
                };
                let v2 = match self.get_register(register_2) {
                    Ok(v) => v,
                    Err(e) => {
                        return Err(self.halt_with(e.kind));
                    },
                };
                if v1 == v2 {
                    self.pc = self.pc + 2;
                }
                proof {
                    assert(self@ =~= spec_exec_inst(old(self)@, inst, 0u8));
                }
                Ok(())
            },
            Instruction::SetRegister { register, value } => {
                match self.set_register(register, value) {
                    Ok(()) => {
                        proof {
                            assert(self@ =~= spec_exec_inst(old(self)@, inst, 0u8));
                        }
                        Ok(())
                    },
                    Err(e) => Err(self.halt_with(e.kind)),
                }
            },
            Instruction::SetRegisterRandomBitwiseAnd { register, and_operand } => {
                if register >= 16 {
                    return Err(self.halt_with(ErrorKind::InvalidRegister(register)));
                }
                let drawn = random_byte();
                let masked = drawn & and_operand;
                match self.set_register(register, masked) {
                    Ok(()) => {
                        proof {
                            assert(self@ =~= spec_exec_inst(old(self)@, inst, drawn));
                        }
                        Ok(())
                    },
                    Err(e) => Err(self.halt_with(e.kind)),
                }
            },
            Instruction::AddToRegister { register, value } => {
                let v = match self.get_register(register) {
                    Ok(v) => v,
                    Err(e) => {
                        return Err(self.halt_with(e.kind));
                    },
                };
                let sum = v.wrapping_add(value);
                proof {
                    assert(sum == wrap8(v + value));
                }
                let _ = self.set_register(register, sum);
                proof {
                    assert(self@ =~= spec_exec_inst(old(self)@, inst, 0u8));
                }
                Ok(())
            },
            Instruction::CopyRegister { src_register, dst_register } => {
                let v = match self.get_register(src_register) {
                    Ok(v) => v,
                    Err(e) => {
                        return Err(self.halt_with(e.kind));
                    },
                };
                match self.set_register(dst_register, v) {
                    Ok(()) => {
                        proof {
                            assert(self@ =~= spec_exec_inst(old(self)@, inst, 0u8));
                        }
                        Ok(())
                    },
                    Err(e) => Err(self.halt_with(e.kind)),
                }
            },
            Instruction::ApplyBitwiseOr { value_register, operand_register } => {
                let a = match self.get_register(value_register) {
                    Ok(v) => v,
                    Err(e) => {
                        return Err(self.halt_with(e.kind));
                    },
                };
                let b = match self.get_register(operand_register) {
                    Ok(v) => v,
                    Err(e) => {
                        return Err(self.halt_with(e.kind));
                    },
                };
                let _ = self.set_register(value_register, a | b);
                proof {
                    assert(self@ =~= spec_exec_inst(old(self)@, inst, 0u8));
                }
                Ok(())
            },
            Instruction::ApplyBitwiseAnd { value_register, operand_register } => {
                let a = match self.get_register(value_register) {
                    Ok(v) => v,
                    Err(e) => {
                        return Err(self.halt_with(e.kind));
                    },
                };
                let b = match self.get_register(operand_register) {
                    Ok(v) => v,
                    Err(e) => {
                        return Err(self.halt_with(e.kind));
                    },
                };
                let _ = self.set_register(value_register, a & b);
                proof {
                    assert(self@ =~= spec_exec_inst(old(self)@, inst, 0u8));
                }
                Ok(())
            },
            Instruction::ApplyBitwiseXor { value_register, operand_register } => {
                let a = match self.get_register(value_register) {
                    Ok(v) => v,
                    Err(e) => {
                        return Err(self.halt_with(e.kind));
                    },
                };
                let b = match self.get_register(operand_register) {
                    Ok(v) => v,
                    Err(e) => {
                        return Err(self.halt_with(e.kind));
                    },
                };
                let _ = self.set_register(value_register, a ^ b);
                proof {
                    assert(self@ =~= spec_exec_inst(old(self)@, inst, 0u8));
                }
                Ok(())
            },
            Instruction::AddRegisters { value_register, operand_register } => {
                let a = match self.get_register(value_register) {
                    Ok(v) => v,
                    Err(e) => {
                        return Err(self.halt_with(e.kind));
                    },
                };
                let b = match self.get_register(operand_register) {
                    Ok(v) => v,
                    Err(e) => {
                        return Err(self.halt_with(e.kind));
                    },
                };
                let sum = a as u16 + b as u16;
                let carried = sum > 255;
                let wrapped: u8 = (sum % 256) as u8;
                // Flag first, then the result: when the destination is the
                // flag register itself the stored result wins.
                self.registers.vf = if carried {
                    1
                } else {
                    0
                };
                proof {
                    assert(self.registers@ =~= old(self)@.regs.update(
                        15,
                        if a + b > 255 {
                            1u8
                        } else {
                            0u8
                        },
                    ));
                }
                let _ = self.set_register(value_register, wrapped);
                proof {
                    assert(self@ =~= spec_exec_inst(old(self)@, inst, 0u8));
                }
                Ok(())
            },
            Instruction::SubtractRegisters { value_register, operand_register } => {
                let a = match self.get_register(value_register) {
                    Ok(v) => v,
                    Err(e) => {
                        return Err(self.halt_with(e.kind));
                    },
                };
                let b = match self.get_register(operand_register) {
                    Ok(v) => v,
                    Err(e) => {
                        return Err(self.halt_with(e.kind));
                    },
                };
                let borrowed = a < b;
                let wrapped = a.wrapping_sub(b);
                proof {
                    assert(wrapped == wrap8(a - b + 256));
                }
                // Flag first, then the result, as for addition.
                self.registers.vf = if borrowed {
                    1
                } else {
                    0
                };
                proof {
                    assert(self.registers@ =~= old(self)@.regs.update(
                        15,
                        if a - b < 0 {
                            1u8
                        } else {
                            0u8
                        },
                    ));
                }
                let _ = self.set_register(value_register, wrapped);
                proof {
                    assert(self@ =~= spec_exec_inst(old(self)@, inst, 0u8));
                }
                Ok(())
            },
            Instruction::GetKey { register } => {
                if register >= 16 {
                    return Err(self.halt_with(ErrorKind::InvalidRegister(register)));
                }
                self.status = Status::WaitingForKey { register };
                proof {
                    assert(self@ =~= spec_exec_inst(old(self)@, inst, 0u8));
                }
                Ok(())
            },
            Instruction::SetI { addr } => {
                self.i = addr;
                proof {
                    assert(self@ =~= spec_exec_inst(old(self)@, inst, 0u8));
                }
                Ok(())
            },
            Instruction::DumpRegisters { end_register } => {
                if end_register >= 16 {
                    return Err(self.halt_with(ErrorKind::InvalidRegister(end_register)));
                }
                match self.dump_registers(end_register) {
                    None => {
                        proof {
                            assert(self@ =~= spec_exec_inst(old(self)@, inst, 0u8));
                        }
                        Ok(())
                    },
                    Some(kind) => {
                        let e = self.halt_with(kind);
                        proof {
                            assert(self@ =~= spec_exec_inst(old(self)@, inst, 0u8));
                        }
                        Err(e)
                    },
                }
            },
            Instruction::Draw { reg_x, reg_y, sprite_height } => {
                let x = match self.get_register(reg_x) {
                    Ok(v) => v,
                    Err(e) => {
                        return Err(self.halt_with(e.kind));
                    },
                };
                let y = match self.get_register(reg_y) {
                    Ok(v) => v,
                    Err(e) => {
                        return Err(self.halt_with(e.kind));
                    },
                };
                match self.draw_sprite(x, y, sprite_height) {
                    None => {
                        proof {
                            assert(self@ =~= spec_exec_inst(old(self)@, inst, 0u8));
                        }
                        Ok(())
                    },
                    Some(kind) => {
                        let e = self.halt_with(kind);
                        proof {
                            assert(self@ =~= spec_exec_inst(old(self)@, inst, 0u8));
                        }
                        Err(e)
                    },
                }
            },
        }
    }

    /// One fetch-decode-execute cycle, valid only while the machine runs:
    /// exactly one [`spec_step`] of the model, for some value of the byte
    /// the random-register instruction draws. `Ok` leaves the machine
    /// running or waiting for a key; `Err` hands back the error the machine
    /// halted with.
    pub fn execute(&mut self) -> (r: Result<(), ProcError>)
        requires
            old(self).wf(),
            old(self)@.status is Running,
        ensures
            final(self).wf(),
            exists|b: u8| final(self)@ == #[trigger] spec_step(old(self)@, b),
            match r {
                Ok(()) => !(final(self)@.status is Halted),
                Err(e) => final(self)@.status == (Status::Halted { kind: e.kind }),
            },
    {
        let word = match self.memory.get_word(self.pc) {
            Ok(w) => w,
            Err(_) => {
                let here = self.pc;
                let e = self.halt_with(ErrorKind::InvalidMemoryAccess(here));
                proof {
                    assert(self@ == spec_step(old(self)@, 0u8));
                }
                return Err(e);
            },
        };
        self.pc = self.pc + 2;
        let ghost mid = self@;
        let inst = match Instruction::parse(word) {
            Ok(i) => i,
            Err(_) => {
                let e = self.halt_with(ErrorKind::InstructionInvalid(word));
                proof {
                    let b0 = old(self)@.mem[old(self)@.pc];
                    let b1 = old(self)@.mem[old(self)@.pc + 1];
                    assert(word =~= [b0, b1]);
                    assert(self@ == spec_step(old(self)@, 0u8));
                }
                return Err(e);
            },
        };
        let r = self.run_instruction(inst);
        proof {
            let b0 = old(self)@.mem[old(self)@.pc];
            let b1 = old(self)@.mem[old(self)@.pc + 1];
            assert(word[0] == b0 && word[1] == b1);
            assert(spec_parse(b0, b1) == Some(inst));
            let b = choose|b: u8| self@ == #[trigger] spec_exec_inst(mid, inst, b);
            assert(mid == (ProcState { pc: old(self)@.pc + 2, ..old(self)@ }));
            assert(self@ == spec_step(old(self)@, b));
        }
        r
    }

}

/// A subroutine call and its matching return bracket the body: if the
/// machine at `s` executes a subroutine-call instruction, and the machine
/// later stands at `t` about to execute a return, with the call's stack
/// frame still in place (one level deeper, the pushed slot untouched), then
/// the return resumes at the instruction after the call, back at the call's
/// stack depth, still running.
pub proof fn lemma_call_return(s: ProcState, t: ProcState, b1: u8, b2: u8)
    requires
        s.status is Running,
        0 <= s.pc,
        s.pc + 1 < crate::mem::MAX_SIZE,
        spec_parse(s.mem[s.pc], s.mem[s.pc + 1]) matches Some(
            Instruction::CallSubroutine { .. },
        ),
        s.stack.len() == STACK_SIZE,
        0 <= s.sp < STACK_SIZE,
        t.status is Running,
        0 <= t.pc,
        t.pc + 1 < crate::mem::MAX_SIZE,
        spec_parse(t.mem[t.pc], t.mem[t.pc + 1]) == Some(Instruction::Return),
        t.sp == s.sp + 1,
        t.stack[s.sp] == spec_step(s, b1).stack[s.sp],
    ensures
        spec_step(t, b2).pc == s.pc + 2,
        spec_step(t, b2).sp == s.sp,
        spec_step(t, b2).status is Running,
{
}

/// Only the random-register instruction reads the drawn byte: on any state
/// whose next instruction is not that one, a step is the same whatever byte
/// was drawn.
pub proof fn lemma_step_ignores_random(s: ProcState, b1: u8, b2: u8)
    requires
        (s.status is Running && 0 <= s.pc && s.pc + 1 < crate::mem::MAX_SIZE) ==> !(spec_parse(
            s.mem[s.pc],
            s.mem[s.pc + 1],
        ) matches Some(Instruction::SetRegisterRandomBitwiseAnd { .. })),
    ensures
        spec_step(s, b1) == spec_step(s, b2),
{
}

} // verus!
