//! The instruction decoder: a pure function from a 2-byte big-endian word to
//! a tagged instruction value or a decode error.

use vstd::prelude::*;

verus! {

/// Decode failure, carrying the raw instruction bytes.
#[derive(Debug, Clone)]
pub struct UnknownInstructionError {
    pub bytes: [u8; 2],
}

/// One decoded instruction, one variant per opcode class.
#[derive(Debug, Clone, Copy)]
pub enum Instruction {
    Call { addr: u16 },
    ClearDisplay,
    Return,
    Goto { addr: u16 },
    GotoPlusV0 { addr: u16 },
    CallSubroutine { addr: u16 },
    SkipIfRegisterEquals { register: u8, value: u8 },
    SkipIfRegisterNotEquals { register: u8, value: u8 },
    SkipIfRegistersEqual { register_1: u8, register_2: u8 },
    SetRegister { register: u8, value: u8 },
    SetRegisterRandomBitwiseAnd { register: u8, and_operand: u8 },
    AddToRegister { register: u8, value: u8 },
    CopyRegister { src_register: u8, dst_register: u8 },
    ApplyBitwiseOr { value_register: u8, operand_register: u8 },
    ApplyBitwiseAnd { value_register: u8, operand_register: u8 },
    ApplyBitwiseXor { value_register: u8, operand_register: u8 },
    AddRegisters { value_register: u8, operand_register: u8 },
    SubtractRegisters { value_register: u8, operand_register: u8 },
    GetKey { register: u8 },
    SetI { addr: u16 },
    DumpRegisters { end_register: u8 },
    Draw { reg_x: u8, reg_y: u8, sprite_height: u8 },
}

/// The high nibble of a byte.
pub open spec fn hi_nibble(b: u8) -> u8 {
    b / 16
}

/// The low nibble of a byte.
pub open spec fn lo_nibble(b: u8) -> u8 {
    b % 16
}

/// The 12-bit address field: the low nibble of the first byte followed by the
/// whole second byte.
pub open spec fn addr_field(b0: u8, b1: u8) -> u16 {
    (lo_nibble(b0) * 256 + b1) as u16
}

/// The decode table: which instruction, if any, a 2-byte word denotes.
/// The top nibble selects the class; classes 0x0, 0x5, 0x8 and 0xF
/// discriminate further on the low nibbles.
pub open spec fn spec_parse(b0: u8, b1: u8) -> Option<Instruction> {
    let n0 = hi_nibble(b0);
    let n1 = lo_nibble(b0);
    let n2 = hi_nibble(b1);
    let n3 = lo_nibble(b1);
    let addr = addr_field(b0, b1);
    if n0 == 0x0 && n1 == 0x0 && n2 == 0xe && n3 == 0x0 {
        Some(Instruction::ClearDisplay)
    } else if n0 == 0x0 && n1 == 0x0 && n2 == 0xe && n3 == 0xe {
        Some(Instruction::Return)
    } else if n0 == 0x0 {
        Some(Instruction::Call { addr })
    } else if n0 == 0x1 {
        Some(Instruction::Goto { addr })
    } else if n0 == 0x2 {
        Some(Instruction::CallSubroutine { addr })
    } else if n0 == 0x3 {
        Some(Instruction::SkipIfRegisterEquals { register: n1, value: b1 })
    } else if n0 == 0x4 {
        Some(Instruction::SkipIfRegisterNotEquals { register: n1, value: b1 })
    } else if n0 == 0x5 && n3 == 0x0 {
        Some(Instruction::SkipIfRegistersEqual { register_1: n1, register_2: n2 })
    } else if n0 == 0x6 {
        Some(Instruction::SetRegister { register: n1, value: b1 })
    } else if n0 == 0x7 {
        Some(Instruction::AddToRegister { register: n1, value: b1 })
    } else if n0 == 0x8 && n3 == 0x0 {
        Some(Instruction::CopyRegister { src_register: n2, dst_register: n1 })
    } else if n0 == 0x8 && n3 == 0x1 {
        Some(Instruction::ApplyBitwiseOr { value_register: n1, operand_register: n2 })
    } else if n0 == 0x8 && n3 == 0x2 {
        Some(Instruction::ApplyBitwiseAnd { value_register: n1, operand_register: n2 })
    } else if n0 == 0x8 && n3 == 0x3 {
        Some(Instruction::ApplyBitwiseXor { value_register: n1, operand_register: n2 })
    } else if n0 == 0x8 && n3 == 0x4 {
        Some(Instruction::AddRegisters { value_register: n1, operand_register: n2 })
    } else if n0 == 0x8 && n3 == 0x5 {
        Some(Instruction::SubtractRegisters { value_register: n1, operand_register: n2 })
    } else if n0 == 0xa {
        Some(Instruction::SetI { addr })
    } else if n0 == 0xb {
        Some(Instruction::GotoPlusV0 { addr })
    } else if n0 == 0xc {
        Some(Instruction::SetRegisterRandomBitwiseAnd { register: n1, and_operand: b1 })
    } else if n0 == 0xd {
        Some(Instruction::Draw { reg_x: n1, reg_y: n2, sprite_height: n3 })
    } else if n0 == 0xf && n2 == 0x5 && n3 == 0x5 {
        Some(Instruction::DumpRegisters { end_register: n1 })
    } else if n0 == 0xf && n2 == 0x0 && n3 == 0xa {
        Some(Instruction::GetKey { register: n1 })
    } else {
        None
    }
}

/// Assemble three nibbles into one 12-bit value, most significant first.
fn combine_nibbles(n1: u8, n2: u8, n3: u8) -> (r: u16)
    requires
        n1 < 16,
        n2 < 16,
        n3 < 16,
    ensures
        r == n1 * 256 + n2 * 16 + n3,
{
    let hi = (n1 as u16).wrapping_shl(8);
    let mid = (n2 as u16).wrapping_shl(4);
    proof {
        assert((n1 as u16) << 8u32 % 16 == n1 * 256 && (n2 as u16) << 4u32 % 16 == n2 * 16)
            by (bit_vector)
            requires
                n1 < 16 && n2 < 16,
        ;
    }
    hi + mid + (n3 as u16)
}

impl Instruction {
    /// Decode a 2-byte word. Every pattern in the decode table yields its
    /// instruction; every other pattern is rejected with the raw bytes.
    pub fn parse(instruction_bytes: [u8; 2]) -> (r: Result<Self, UnknownInstructionError>)
        ensures
            match spec_parse(instruction_bytes[0], instruction_bytes[1]) {
                Some(i) => r == Ok::<Instruction, UnknownInstructionError>(i),
                None => r == Err::<Instruction, UnknownInstructionError>(
                    UnknownInstructionError { bytes: instruction_bytes },
                ),
            },
    {
        let b0 = instruction_bytes[0];
        let b1 = instruction_bytes[1];
        let n0 = (b0 & 0xf0) >> 4;
        let n1 = b0 & 0x0f;
        let n2 = (b1 & 0xf0) >> 4;
        let n3 = b1 & 0x0f;
        proof {
            assert((b0 & 0xf0) >> 4 == b0 / 16 && b0 & 0x0f == b0 % 16 && (b1 & 0xf0) >> 4 == b1
                / 16 && b1 & 0x0f == b1 % 16) by (bit_vector);
            assert(n1 < 16 && n2 < 16 && n3 < 16) by (bit_vector)
                requires
                    n1 == b0 & 0x0f && n2 == (b1 & 0xf0) >> 4 && n3 == b1 & 0x0f,
            ;
        }
        let addr_12bit: u16 = combine_nibbles(n1, n2, n3);
        proof {
            assert(n2 * 16 + n3 == b1) by (bit_vector)
                requires
                    n2 == (b1 & 0xf0) >> 4 && n3 == b1 & 0x0f,
            ;
        }
        match (n0, n1, n2, n3) {
            (0x0, 0x0, 0xe, 0x0) => Ok(Self::ClearDisplay),
            (0x0, 0x0, 0xe, 0xe) => Ok(Self::Return),
            (0x0, _, _, _) => Ok(Self::Call { addr: addr_12bit }),
            (0x1, _, _, _) => Ok(Self::Goto { addr: addr_12bit }),
            (0x2, _, _, _) => Ok(Self::CallSubroutine { addr: addr_12bit }),
            (0x3, r, _, _) => Ok(Self::SkipIfRegisterEquals { register: r, value: b1 }),
            (0x4, r, _, _) => Ok(Self::SkipIfRegisterNotEquals { register: r, value: b1 }),
            (0x5, r1, r2, 0x0) => Ok(Self::SkipIfRegistersEqual { register_1: r1, register_2: r2 }),
            (0x6, r, _, _) => Ok(Self::SetRegister { register: r, value: b1 }),
            (0x7, r, _, _) => Ok(Self::AddToRegister { register: r, value: b1 }),
            (0x8, r_dst, r_src, 0x0) => Ok(
                Self::CopyRegister { src_register: r_src, dst_register: r_dst },
            ),
            (0x8, r_value, r_op, 0x1) => Ok(
                Self::ApplyBitwiseOr { value_register: r_value, operand_register: r_op },
            ),
            (0x8, r_value, r_op, 0x2) => Ok(
                Self::ApplyBitwiseAnd { value_register: r_value, operand_register: r_op },
            ),
            (0x8, r_value, r_op, 0x3) => Ok(
                Self::ApplyBitwiseXor { value_register: r_value, operand_register: r_op },
            ),
            (0x8, r_value, r_op, 0x4) => Ok(
                Self::AddRegisters { value_register: r_value, operand_register: r_op },
            ),
            (0x8, r_value, r_op, 0x5) => Ok(
                Self::SubtractRegisters { value_register: r_value, operand_register: r_op },
            ),
            (0xa, _, _, _) => Ok(Self::SetI { addr: addr_12bit }),
            (0xb, _, _, _) => Ok(Self::GotoPlusV0 { addr: addr_12bit }),
            (0xc, reg, _, _) => Ok(
                Self::SetRegisterRandomBitwiseAnd { register: reg, and_operand: b1 },
            ),
            (0xd, reg_x, reg_y, sprite_height) => Ok(Self::Draw { reg_x, reg_y, sprite_height }),
            (0xf, r_end, 0x5, 0x5) => Ok(Self::DumpRegisters { end_register: r_end }),
            (0xf, reg, 0x0, 0xa) => Ok(Self::GetKey { register: reg }),
            _ => Err(UnknownInstructionError { bytes: instruction_bytes }),
        }
    }
}

} // verus!
