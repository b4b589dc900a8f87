//! Mathematical model of the machine state: registers and the cell core,
//! together with the 16-bit wrapping arithmetic the machine works in.

use vstd::prelude::*;

verus! {

/// Number of 16-bit cells in the core.
pub const CORE_SIZE: usize = 0x8000;

/// Initial variable-stack pointer.
pub const SP0: u16 = 0x2200;

/// Initial return-stack pointer.
pub const RP0: u16 = 0x7fff;

/// The execution state of the machine: the four registers and the core.
/// The trace flag and the cycle counter are not part of this state; one
/// instruction cycle is a function of this state alone.
#[verifier::ext_equal]
pub ghost struct State {
    pub pc: u16,
    pub rp: u16,
    pub sp: u16,
    pub t: u16,
    pub core: Seq<u16>,
}

impl State {
    /// The core always holds exactly `CORE_SIZE` cells.
    pub open spec fn wf(self) -> bool {
        self.core.len() == CORE_SIZE
    }
}

/// Reading a cell: every 16-bit index is reduced to the 15-bit cell range,
/// so a read is total even where a hosted program strays out of range.
pub open spec fn sel(core: Seq<u16>, i: u16) -> u16 {
    core[(i % 0x8000) as int]
}

/// Writing a cell, with the same index reduction as `sel`.
pub open spec fn upd(core: Seq<u16>, i: u16, v: u16) -> Seq<u16> {
    core.update((i % 0x8000) as int, v)
}

/// 16-bit wrapping addition.
pub open spec fn add16(a: u16, b: u16) -> u16 {
    ((a + b) % 0x10000) as u16
}

/// 16-bit wrapping subtraction.
pub open spec fn sub16(a: u16, b: u16) -> u16 {
    (((a + 0x10000) - b) % 0x10000) as u16
}

/// 64-bit wrapping increment, for the cycle counter.
pub open spec fn inc64(a: u64) -> u64 {
    if a == u64::MAX {
        0u64
    } else {
        (a + 1) as u64
    }
}

/// The value of a cell read as a two's-complement 16-bit integer.
pub open spec fn signed(v: u16) -> int {
    if v >= 0x8000 {
        v - 0x10000
    } else {
        v as int
    }
}

/// True when `v` is negative under the two's-complement reading.
pub open spec fn is_neg(v: u16) -> bool {
    v >= 0x8000
}

/// The magnitude of `v` under the two's-complement reading; at most 0x8000.
pub open spec fn magnitude(v: u16) -> int {
    if v >= 0x8000 {
        0x10000 - v
    } else {
        v as int
    }
}

/// The 16-bit word that stands for `-m`, for a magnitude `0 <= m <= 0x8000`.
pub open spec fn neg16(m: int) -> u16 {
    ((0x10000 - m) % 0x10000) as u16
}

/// Low byte of a cell.
pub open spec fn lo_byte(v: u16) -> u8 {
    (v % 0x100) as u8
}

/// High byte of a cell.
pub open spec fn hi_byte(v: u16) -> u8 {
    (v / 0x100) as u8
}

/// The cell a little-endian byte pair denotes.
pub open spec fn word16(lo: u8, hi: u8) -> u16 {
    (lo + 0x100 * hi) as u16
}

/// 16-bit wrapping addition, executable.
pub fn wrap_add16(a: u16, b: u16) -> (r: u16)
    ensures
        r == add16(a, b),
{
    (((a as u32) + (b as u32)) % 0x10000) as u16
}

/// 16-bit wrapping subtraction, executable.
pub fn wrap_sub16(a: u16, b: u16) -> (r: u16)
    ensures
        r == sub16(a, b),
{
    ((((a as u32) + 0x10000) - (b as u32)) % 0x10000) as u16
}

/// 64-bit wrapping increment, executable.
pub fn wrap_inc64(a: u64) -> (r: u64)
    ensures
        r == inc64(a),
{
    if a == u64::MAX {
        0
    } else {
        a + 1
    }
}

} // verus!
