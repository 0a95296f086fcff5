//! The earlier opcode decoder kept alongside [`crate::inst`]: a smaller
//! decode table without the draw, random, jump-offset and key opcodes.

use vstd::prelude::*;

verus! {

/// Decode failure, carrying the raw opcode bytes.
#[derive(Debug, Clone)]
pub struct UnknownOpcodeError {
    pub bytes: [u8; 2],
}

/// One decoded opcode, one variant per class this table covers.
#[derive(Debug, Clone)]
pub enum Opcode {
    Call { addr: u16 },
    Display,
    Return,
    Goto { addr: u16 },
    CallSubroutine { addr: u16 },
    SkipIfRegisterEquals { register: u8, value: u8 },
    SkipIfRegisterNotEquals { register: u8, value: u8 },
    SkipIfRegistersEqual { register_1: u8, register_2: u8 },
    SetRegister { register: u8, value: u8 },
    AddToRegister { register: u8, value: u8 },
    CopyRegister { src_register: u8, dst_register: u8 },
    ApplyBitwiseOr { value_register: u8, operand_register: u8 },
    ApplyBitwiseAnd { value_register: u8, operand_register: u8 },
    ApplyBitwiseXor { value_register: u8, operand_register: u8 },
    AddRegisters { value_register: u8, operand_register: u8 },
    SubtractRegisters { value_register: u8, operand_register: u8 },
    SetI { addr: u16 },
    DumpRegisters { end_register: u8 },
}

/// The decode table of this smaller decoder: which opcode, if any, a 2-byte
/// word denotes.
pub open spec fn spec_parse_opcode(b0: u8, b1: u8) -> Option<Opcode> {
    let n0 = crate::inst::hi_nibble(b0);
    let n1 = crate::inst::lo_nibble(b0);
    let n2 = crate::inst::hi_nibble(b1);
    let n3 = crate::inst::lo_nibble(b1);
    let addr = crate::inst::addr_field(b0, b1);
    if n0 == 0x0 && n1 == 0x0 && n2 == 0xe && n3 == 0x0 {
        Some(Opcode::Display)
    } else if n0 == 0x0 && n1 == 0x0 && n2 == 0xe && n3 == 0xe {
        Some(Opcode::Return)
    } else if n0 == 0x0 {
        Some(Opcode::Call { addr })
    } else if n0 == 0x1 {
        Some(Opcode::Goto { addr })
    } else if n0 == 0x2 {
        Some(Opcode::CallSubroutine { addr })
    } else if n0 == 0x3 {
        Some(Opcode::SkipIfRegisterEquals { register: n1, value: b1 })
    } else if n0 == 0x4 {
        Some(Opcode::SkipIfRegisterNotEquals { register: n1, value: b1 })
    } else if n0 == 0x5 && n3 == 0x0 {
        Some(Opcode::SkipIfRegistersEqual { register_1: n1, register_2: n2 })
    } else if n0 == 0x6 {
        Some(Opcode::SetRegister { register: n1, value: b1 })
    } else if n0 == 0x7 {
        Some(Opcode::AddToRegister { register: n1, value: b1 })
    } else if n0 == 0x8 && n3 == 0x0 {
        Some(Opcode::CopyRegister { src_register: n2, dst_register: n1 })
    } else if n0 == 0x8 && n3 == 0x1 {
        Some(Opcode::ApplyBitwiseOr { value_register: n1, operand_register: n2 })
    } else if n0 == 0x8 && n3 == 0x2 {
        Some(Opcode::ApplyBitwiseAnd { value_register: n1, operand_register: n2 })
    } else if n0 == 0x8 && n3 == 0x3 {
        Some(Opcode::ApplyBitwiseXor { value_register: n1, operand_register: n2 })
    } else if n0 == 0x8 && n3 == 0x4 {
        Some(Opcode::AddRegisters { value_register: n1, operand_register: n2 })
    } else if n0 == 0x8 && n3 == 0x5 {
        Some(Opcode::SubtractRegisters { value_register: n1, operand_register: n2 })
    } else if n0 == 0xa {
        Some(Opcode::SetI { addr })
    } else if n0 == 0xf && n2 == 0x5 && n3 == 0x5 {
        Some(Opcode::DumpRegisters { end_register: n1 })
    } else {
        None
    }
}

/// Assemble three nibbles into one 12-bit value, most significant first.
fn combine_nibbles(n1: u8, n2: u8, n3: u8) -> (r: u16)
    requires
        n1 < 16,
        n2 < 16,
        n3 < 16,
    ensures
        r == n1 * 256 + n2 * 16 + n3,
{
    let hi = (n1 as u16).wrapping_shl(8);
    let mid = (n2 as u16).wrapping_shl(4);
    proof {
        assert((n1 as u16) << 8u32 % 16 == n1 * 256 && (n2 as u16) << 4u32 % 16 == n2 * 16)
            by (bit_vector)
            requires
                n1 < 16 && n2 < 16,
        ;
    }
    hi + mid + (n3 as u16)
}

impl Opcode {
    /// Decode a 2-byte word against this table. Every covered pattern yields
    /// its opcode; every other pattern is rejected with the raw bytes.
    pub fn parse(opcode_bytes: [u8; 2]) -> (r: Result<Self, UnknownOpcodeError>)
        ensures
            match spec_parse_opcode(opcode_bytes[0], opcode_bytes[1]) {
                Some(op) => r == Ok::<Opcode, UnknownOpcodeError>(op),
                None => r == Err::<Opcode, UnknownOpcodeError>(
                    UnknownOpcodeError { bytes: opcode_bytes },
                ),
            },
    {
        let b0 = opcode_bytes[0];
        let b1 = opcode_bytes[1];
        let n0 = (b0 & 0xf0) >> 4;
        let n1 = b0 & 0x0f;
        let n2 = (b1 & 0xf0) >> 4;
        let n3 = b1 & 0x0f;
        proof {
            assert((b0 & 0xf0) >> 4 == b0 / 16 && b0 & 0x0f == b0 % 16 && (b1 & 0xf0) >> 4 == b1
                / 16 && b1 & 0x0f == b1 % 16) by (bit_vector);
            assert(n1 < 16 && n2 < 16 && n3 < 16) by (bit_vector)
                requires
                    n1 == b0 & 0x0f && n2 == (b1 & 0xf0) >> 4 && n3 == b1 & 0x0f,
            ;
        }
        let addr_12bit: u16 = combine_nibbles(n1, n2, n3);
        proof {
            assert(n2 * 16 + n3 == b1) by (bit_vector)
                requires
                    n2 == (b1 & 0xf0) >> 4 && n3 == b1 & 0x0f,
            ;
        }
        match (n0, n1, n2, n3) {
            (0x0, 0x0, 0xe, 0x0) => Ok(Self::Display),
            (0x0, 0x0, 0xe, 0xe) => Ok(Self::Return),
            (0x0, _, _, _) => Ok(Self::Call { addr: addr_12bit }),
            (0x1, _, _, _) => Ok(Self::Goto { addr: addr_12bit }),
            (0x2, _, _, _) => Ok(Self::CallSubroutine { addr: addr_12bit }),
            (0x3, r, _, _) => Ok(Self::SkipIfRegisterEquals { register: r, value: b1 }),
            (0x4, r, _, _) => Ok(Self::SkipIfRegisterNotEquals { register: r, value: b1 }),
            (0x5, r1, r2, 0x0) => Ok(Self::SkipIfRegistersEqual { register_1: r1, register_2: r2 }),
            (0x6, r, _, _) => Ok(Self::SetRegister { register: r, value: b1 }),
            (0x7, r, _, _) => Ok(Self::AddToRegister { register: r, value: b1 }),
            (0x8, r_dst, r_src, 0x0) => Ok(
                Self::CopyRegister { src_register: r_src, dst_register: r_dst },
            ),
            (0x8, r_value, r_op, 0x1) => Ok(
                Self::ApplyBitwiseOr { value_register: r_value, operand_register: r_op },
            ),
            (0x8, r_value, r_op, 0x2) => Ok(
                Self::ApplyBitwiseAnd { value_register: r_value, operand_register: r_op },
            ),
            (0x8, r_value, r_op, 0x3) => Ok(
                Self::ApplyBitwiseXor { value_register: r_value, operand_register: r_op },
            ),
            (0x8, r_value, r_op, 0x4) => Ok(
                Self::AddRegisters { value_register: r_value, operand_register: r_op },
            ),
            (0x8, r_value, r_op, 0x5) => Ok(
                Self::SubtractRegisters { value_register: r_value, operand_register: r_op },
            ),
            (0xa, _, _, _) => Ok(Self::SetI { addr: addr_12bit }),
            (0xf, r_end, 0x5, 0x5) => Ok(Self::DumpRegisters { end_register: r_end }),
            _ => Err(UnknownOpcodeError { bytes: opcode_bytes }),
        }
    }
}

} // verus!
