//! The register file: sixteen independently addressable 8-bit registers.
//!
//! Register index 15 (`VF`) doubles as the carry/borrow flag written by the
//! arithmetic instructions; here it is an ordinary register, the flag
//! behaviour lives in the processor.

use vstd::prelude::*;

verus! {

pub const V0: u8 = 0;
pub const V1: u8 = 1;
pub const V2: u8 = 2;
pub const V3: u8 = 3;
pub const V4: u8 = 4;
pub const V5: u8 = 5;
pub const V6: u8 = 6;
pub const V7: u8 = 7;
pub const V8: u8 = 8;
pub const V9: u8 = 9;
pub const VA: u8 = 10;
pub const VB: u8 = 11;
pub const VC: u8 = 12;
pub const VD: u8 = 13;
pub const VE: u8 = 14;
pub const VF: u8 = 15;

/// Error carrying the offending register index; valid indices are 0..=15.
#[derive(Debug, Clone)]
pub struct RegisterError(pub u8);

/// Sixteen general-purpose 8-bit registers, V0 through VF.
#[derive(Debug)]
pub struct Registers {
    pub v0: u8,
    pub v1: u8,
    pub v2: u8,
    pub v3: u8,
    pub v4: u8,
    pub v5: u8,
    pub v6: u8,
    pub v7: u8,
    pub v8: u8,
    pub v9: u8,
    pub va: u8,
    pub vb: u8,
    pub vc: u8,
    pub vd: u8,
    pub ve: u8,
    pub vf: u8,
}

impl View for Registers {
    type V = Seq<u8>;

    open spec fn view(&self) -> Seq<u8> {
        seq![
            self.v0, self.v1, self.v2, self.v3, self.v4, self.v5, self.v6, self.v7, self.v8,
            self.v9, self.va, self.vb, self.vc, self.vd, self.ve, self.vf,
        ]
    }
}

impl Registers {
    /// A fresh register file with every register zero.
    pub fn new() -> (r: Registers)
        ensures
            r@.len() == 16,
            forall|i: int| 0 <= i < 16 ==> r@[i] == 0u8,
    {
        Registers {
            v0: 0,
            v1: 0,
            v2: 0,
            v3: 0,
            v4: 0,
            v5: 0,
            v6: 0,
            v7: 0,
            v8: 0,
            v9: 0,
            va: 0,
            vb: 0,
            vc: 0,
            vd: 0,
            ve: 0,
            vf: 0,
        }
    }

    /// Bulk load: register `k` takes the value `vs[k]`, in index order.
    pub fn from_array(&mut self, vs: &[u8; 16])
        ensures
            final(self)@ == vs@,
    {
        self.v0 = vs[0];
        self.v1 = vs[1];
        self.v2 = vs[2];
        self.v3 = vs[3];
        self.v4 = vs[4];
        self.v5 = vs[5];
        self.v6 = vs[6];
        self.v7 = vs[7];
        self.v8 = vs[8];
        self.v9 = vs[9];
        self.va = vs[10];
        self.vb = vs[11];
        self.vc = vs[12];
        self.vd = vs[13];
        self.ve = vs[14];
        self.vf = vs[15];
        proof {
            assert(self@ =~= vs@);
        }
    }

    /// Bulk view: entry `k` is the value of register `k`.
    pub fn as_array(&self) -> (r: [u8; 16])
        ensures
            r@ == self@,
    {
        let r = [
            self.v0, self.v1, self.v2, self.v3, self.v4, self.v5, self.v6, self.v7, self.v8,
            self.v9, self.va, self.vb, self.vc, self.vd, self.ve, self.vf,
        ];
        proof {
            assert(r@ =~= self@);
        }
        r
    }

    /// Read register `index`; any index above 15 is rejected.
    pub fn get(&self, index: u8) -> (r: Result<u8, RegisterError>)
        ensures
            index < 16 ==> r == Ok::<u8, RegisterError>(self@[index as int]),
            index >= 16 ==> r == Err::<u8, RegisterError>(RegisterError(index)),
    {
        match index {
            0 => Ok(self.v0),
            1 => Ok(self.v1),
            2 => Ok(self.v2),
            3 => Ok(self.v3),
            4 => Ok(self.v4),
            5 => Ok(self.v5),
            6 => Ok(self.v6),
            7 => Ok(self.v7),
            8 => Ok(self.v8),
            9 => Ok(self.v9),
            10 => Ok(self.va),
            11 => Ok(self.vb),
            12 => Ok(self.vc),
            13 => Ok(self.vd),
            14 => Ok(self.ve),
            15 => Ok(self.vf),
            _ => Err(RegisterError(index)),
        }
    }

    /// Write `value` to register `index`; any index above 15 is rejected and
    /// the register file is left unchanged.
    pub fn set(&mut self, index: u8, value: u8) -> (r: Result<(), RegisterError>)
        ensures
            index < 16 ==> r == Ok::<(), RegisterError>(())
                && final(self)@ == old(self)@.update(index as int, value),
            index >= 16 ==> r == Err::<(), RegisterError>(RegisterError(index))
                && *final(self) == *old(self),
    {
        match index {
            0 => self.v0 = value,
            1 => self.v1 = value,
            2 => self.v2 = value,
            3 => self.v3 = value,
            4 => self.v4 = value,
            5 => self.v5 = value,
            6 => self.v6 = value,
            7 => self.v7 = value,
            8 => self.v8 = value,
            9 => self.v9 = value,
            10 => self.va = value,
            11 => self.vb = value,
            12 => self.vc = value,
            13 => self.vd = value,
            14 => self.ve = value,
            15 => self.vf = value,
            _ => {
                return Err(RegisterError(index));
            },
        };
        proof {
            assert(self@ =~= old(self)@.update(index as int, value));
        }
        Ok(())
    }
}

/// Writing a register and reading the same index yields the value written:
/// the set/get round trip over the register file model.
pub proof fn lemma_register_set_get(rs: Seq<u8>, index: int, value: u8)
    requires
        rs.len() == 16,
        0 <= index < 16,
    ensures
        rs.update(index, value)[index] == value,
        rs.update(index, value).len() == 16,
        forall|j: int| 0 <= j < 16 && j != index ==> rs.update(index, value)[j] == rs[j],
{
}

} // verus!
