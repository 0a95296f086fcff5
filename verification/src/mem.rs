//! The flat byte-addressable memory: 4096 bytes, bounds-checked on every
//! access, with the sixteen 5-byte hexadecimal glyphs preloaded at 0x50.

use vstd::prelude::*;

verus! {

/// Total number of addressable bytes.
pub const MAX_SIZE: usize = 4096;

/// First address of the preloaded glyph table.
pub const FONT_BASE: usize = 0x50;

/// Error carrying the first out-of-bounds address that an access touched.
#[derive(Debug, Clone)]
pub struct MemoryError(pub usize);

pub struct MemorySlice {}

/// The 4096-byte store. The vector always holds exactly `MAX_SIZE` bytes.
pub struct Memory {
    pub mem: Vec<u8>,
}

/// The eighty bytes of the glyph table: sixteen glyphs (hex digits 0-F) of
/// five bytes each, each byte one horizontal row of the glyph.
pub open spec fn font_table() -> Seq<u8> {
    seq![
        0xF0u8, 0x90, 0x90, 0x90, 0xF0, // 0
        0x20, 0x60, 0x20, 0x20, 0x70, // 1
        0xF0, 0x10, 0xF0, 0x80, 0xF0, // 2
        0xF0, 0x10, 0xF0, 0x10, 0xF0, // 3
        0x90, 0x90, 0xF0, 0x10, 0x10, // 4
        0xF0, 0x80, 0xF0, 0x10, 0xF0, // 5
        0xF0, 0x80, 0xF0, 0x90, 0xF0, // 6
        0xF0, 0x10, 0x20, 0x40, 0x40, // 7
        0xF0, 0x90, 0xF0, 0x90, 0xF0, // 8
        0xF0, 0x90, 0xF0, 0x10, 0xF0, // 9
        0xF0, 0x90, 0xF0, 0x90, 0x90, // A
        0xE0, 0x90, 0xE0, 0x90, 0xE0, // B
        0xF0, 0x80, 0x80, 0x80, 0xF0, // C
        0xE0, 0x90, 0x90, 0x90, 0xE0, // D
        0xF0, 0x80, 0xF0, 0x80, 0xF0, // E
        0xF0, 0x80, 0xF0, 0x80, 0x80, // F
    ]
}

/// The byte at address `a` of a freshly constructed memory.
pub open spec fn initial_byte(a: int) -> u8 {
    if FONT_BASE <= a < FONT_BASE + 80 {
        font_table()[a - FONT_BASE]
    } else {
        0u8
    }
}

/// `index + 1` without overflowing `usize`.
pub open spec fn saturated_inc(index: usize) -> usize {
    if index == usize::MAX {
        usize::MAX
    } else {
        (index + 1) as usize
    }
}

/// `a + b` without overflowing `usize`.
pub open spec fn saturated_add(a: usize, b: nat) -> usize {
    if a + b <= usize::MAX {
        (a + b) as usize
    } else {
        usize::MAX
    }
}

impl View for Memory {
    type V = Seq<u8>;

    open spec fn view(&self) -> Seq<u8> {
        self.mem@
    }
}

impl Memory {
    /// The memory always holds exactly `MAX_SIZE` bytes.
    pub open spec fn wf(&self) -> bool {
        self@.len() == MAX_SIZE
    }

    /// A fresh memory: all zeroes except the glyph table.
    pub fn new() -> (m: Memory)
        ensures
            m.wf(),
            forall|a: int| 0 <= a < MAX_SIZE ==> m@[a] == initial_byte(a),
    {
        let mut bytes: Vec<u8> = Vec::new();
        let mut k: usize = 0;
        while k < MAX_SIZE
            invariant
                k <= MAX_SIZE,
                bytes@.len() == k,
                forall|a: int| 0 <= a < k ==> bytes@[a] == 0u8,
            decreases MAX_SIZE - k,
        {
            bytes.push(0);
            k = k + 1;
        }
        let mut m = Memory { mem: bytes };
        m.load_fonts();
        m
    }

    /// Write the sixteen fixed glyphs over addresses 0x50..0xA0, leaving the
    /// rest of memory untouched.
    pub fn load_fonts(&mut self)
        requires
            old(self).wf(),
        ensures
            final(self).wf(),
            forall|a: int|
                0 <= a < MAX_SIZE ==> final(self)@[a] == (if FONT_BASE <= a < FONT_BASE + 80 {
                    font_table()[a - FONT_BASE]
                } else {
                    old(self)@[a]
                }),
    {
        let glyphs: [u8; 80] = [
            0xF0, 0x90, 0x90, 0x90, 0xF0, // 0
            0x20, 0x60, 0x20, 0x20, 0x70, // 1
            0xF0, 0x10, 0xF0, 0x80, 0xF0, // 2
            0xF0, 0x10, 0xF0, 0x10, 0xF0, // 3
            0x90, 0x90, 0xF0, 0x10, 0x10, // 4
            0xF0, 0x80, 0xF0, 0x10, 0xF0, // 5
            0xF0, 0x80, 0xF0, 0x90, 0xF0, // 6
            0xF0, 0x10, 0x20, 0x40, 0x40, // 7
            0xF0, 0x90, 0xF0, 0x90, 0xF0, // 8
            0xF0, 0x90, 0xF0, 0x10, 0xF0, // 9
            0xF0, 0x90, 0xF0, 0x90, 0x90, // A
            0xE0, 0x90, 0xE0, 0x90, 0xE0, // B
            0xF0, 0x80, 0x80, 0x80, 0xF0, // C
            0xE0, 0x90, 0x90, 0x90, 0xE0, // D
            0xF0, 0x80, 0xF0, 0x80, 0xF0, // E
            0xF0, 0x80, 0xF0, 0x80, 0x80, // F
        ];
        proof {
            assert(glyphs@ =~= font_table());
        }
        let mut k: usize = 0;
        while k < 80
            invariant
                k <= 80,
                glyphs@ == font_table(),
                self.wf(),
                forall|a: int|
                    0 <= a < MAX_SIZE ==> self@[a] == (if FONT_BASE <= a < FONT_BASE + k {
                        font_table()[a - FONT_BASE]
                    } else {
                        old(self)@[a]
                    }),
            decreases 80 - k,
        {
            self.mem.set(FONT_BASE + k, glyphs[k]);
            k = k + 1;
        }
    }

    /// Bounds test shared by the accessors: an address is valid when it is
    /// below `MAX_SIZE`.
    fn in_bounds(i: usize) -> (r: Result<(), MemoryError>)
        ensures
            i < MAX_SIZE ==> r == Ok::<(), MemoryError>(()),
            i >= MAX_SIZE ==> r == Err::<(), MemoryError>(MemoryError(i)),
    {
        if i > MAX_SIZE - 1 {
            Err(MemoryError(i))
        } else {
            Ok(())
        }
    }

    /// Copy `b` into memory starting at `loc`. Fails, leaving memory
    /// unchanged, when `loc + b.len()` exceeds the capacity.
    pub fn load_array(&mut self, loc: usize, b: &[u8]) -> (r: Result<(), MemoryError>)
        requires
            old(self).wf(),
        ensures
            final(self).wf(),
            loc + b@.len() <= MAX_SIZE ==> r == Ok::<(), MemoryError>(()) && forall|a: int|
                0 <= a < MAX_SIZE ==> final(self)@[a] == (if loc <= a < loc + b@.len() {
                    b@[a - loc]
                } else {
                    old(self)@[a]
                }),
            loc + b@.len() > MAX_SIZE ==> r == Err::<(), MemoryError>(
                MemoryError(saturated_add(loc, b@.len())),
            ) && final(self)@ == old(self)@,
    {
        let len = b.len();
        if len > MAX_SIZE || loc > MAX_SIZE - len {
            let end = match loc.checked_add(len) {
                Some(e) => e,
                None => usize::MAX,
            };
            return Err(MemoryError(end));
        }
        let mut k: usize = 0;
        while k < len
            invariant
                k <= len,
                loc + len <= MAX_SIZE,
                len == b@.len(),
                self.wf(),
                forall|a: int|
                    0 <= a < MAX_SIZE ==> self@[a] == (if loc <= a < loc + k {
                        b@[a - loc]
                    } else {
                        old(self)@[a]
                    }),
            decreases len - k,
        {
            self.mem.set(loc + k, b[k]);
            k = k + 1;
        }
        Ok(())
    }

    /// Write two consecutive bytes, most significant first, at `index`.
    pub fn set_word(&mut self, index: usize, bs: [u8; 2]) -> (r: Result<(), MemoryError>)
        requires
            old(self).wf(),
        ensures
            final(self).wf(),
            index < MAX_SIZE - 1 ==> r == Ok::<(), MemoryError>(()) && final(self)@ == old(
                self,
            )@.update(index as int, bs[0]).update(index + 1, bs[1]),
            index >= MAX_SIZE - 1 ==> r == Err::<(), MemoryError>(
                MemoryError(saturated_inc(index)),
            ) && final(self)@ == old(self)@,
    {
        if index >= MAX_SIZE - 1 {
            let probe = if index == usize::MAX {
                usize::MAX
            } else {
                index + 1
            };
            return Err(MemoryError(probe));
        }
        self.mem.set(index, bs[0]);
        self.mem.set(index + 1, bs[1]);
        Ok(())
    }

    /// Write one byte at `index`.
    pub fn set_byte(&mut self, index: usize, b: u8) -> (r: Result<(), MemoryError>)
        requires
            old(self).wf(),
        ensures
            final(self).wf(),
            index < MAX_SIZE ==> r == Ok::<(), MemoryError>(()) && final(self)@ == old(
                self,
            )@.update(index as int, b),
            index >= MAX_SIZE ==> r == Err::<(), MemoryError>(MemoryError(index)) && final(self)@
                == old(self)@,
    {
        match Self::in_bounds(index) {
            Ok(()) => {
                self.mem.set(index, b);
                Ok(())
            },
            Err(e) => Err(e),
        }
    }

    /// Read one byte at `index`.
    pub fn get_byte(&self, index: usize) -> (r: Result<u8, MemoryError>)
        requires
            self.wf(),
        ensures
            index < MAX_SIZE ==> r == Ok::<u8, MemoryError>(self@[index as int]),
            index >= MAX_SIZE ==> r == Err::<u8, MemoryError>(MemoryError(index)),
    {
        match Self::in_bounds(index) {
            Ok(()) => Ok(self.mem[index]),
            Err(e) => Err(e),
        }
    }

    /// Read two consecutive bytes at `index`, most significant first.
    pub fn get_word(&self, index: usize) -> (r: Result<[u8; 2], MemoryError>)
        requires
            self.wf(),
        ensures
            index < MAX_SIZE - 1 ==> (r matches Ok(bs) && bs@ == seq![
                self@[index as int],
                self@[index + 1],
            ]),
            index >= MAX_SIZE - 1 ==> r == Err::<[u8; 2], MemoryError>(
                MemoryError(saturated_inc(index)),
            ),
    {
        if index >= MAX_SIZE - 1 {
            let probe = if index == usize::MAX {
                usize::MAX
            } else {
                index + 1
            };
            return Err(MemoryError(probe));
        }
        let bs: [u8; 2] = [self.mem[index], self.mem[index + 1]];
        proof {
            assert(bs@ =~= seq![self@[index as int], self@[index + 1]]);
        }
        Ok(bs)
    }
}

/// Loading a block and reading back its first word: on any memory, after a
/// load of at least two bytes at `loc` succeeds, the word at `loc` holds the
/// first two loaded bytes unchanged. `before` and `after` are the memory
/// contents around the load, related as `load_array` ensures.
pub proof fn lemma_load_then_get_word(before: Seq<u8>, after: Seq<u8>, loc: int, b: Seq<u8>)
    requires
        before.len() == MAX_SIZE,
        after.len() == MAX_SIZE,
        0 <= loc,
        2 <= b.len(),
        loc + b.len() <= MAX_SIZE,
        forall|a: int|
            0 <= a < MAX_SIZE ==> after[a] == (if loc <= a < loc + b.len() {
                b[a - loc]
            } else {
                before[a]
            }),
    ensures
        after[loc] == b[0],
        after[loc + 1] == b[1],
{
}

} // verus!
