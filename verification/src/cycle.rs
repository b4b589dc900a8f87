//! Specification of one instruction cycle: classification of the
//! instruction word into its five families, the ALU microstep, and the
//! I/O request the next instruction makes, if any.

use vstd::prelude::*;

use crate::state::{add16, is_neg, magnitude, neg16, sel, signed, sub16, upd, State};

verus! {

/// The stack-pointer delta table. Index 0 leaves the pointer alone,
/// 1 adds one, 2 adds minus two and 3 adds minus one, in 16-bit
/// wrapping arithmetic; the return-stack pointer subtracts the same
/// entries, so the table yields the opposite sign there.
pub open spec fn delta(k: u16) -> u16 {
    if k == 0 {
        0
    } else if k == 1 {
        1
    } else if k == 2 {
        0xfffe
    } else {
        0xffff
    }
}

/// Logical right shift with the amount taken literally: any amount of
/// 16 or more clears the word.
pub open spec fn shr16(n: u16, amount: u16) -> u16 {
    if amount >= 16 {
        0
    } else {
        n >> amount
    }
}

/// Left shift with the amount taken literally, truncating to 16 bits;
/// any amount of 16 or more clears the word.
pub open spec fn shl16(n: u16, amount: u16) -> u16 {
    if amount >= 16 {
        0
    } else {
        n << amount
    }
}

/// One instruction cycle's outcome: the state after the cycle, and
/// whether the cycle executed the halt operation.
#[verifier::ext_equal]
pub ghost struct Cycle {
    pub post: State,
    pub halted: bool,
}

/// The registers, cell `core[sp]` (called N) and the pending result
/// `tp` as they stand after the operation step of an ALU cycle, before
/// the pointer deltas and the write-back flags are applied.
#[verifier::ext_equal]
pub ghost struct AluOut {
    pub tp: u16,
    pub n: u16,
    pub t: u16,
    pub sp: u16,
    pub rp: u16,
    pub pc: u16,
    pub core: Seq<u16>,
}

/// The operation step of an ALU cycle (the halt operation excepted):
/// what each of the 5-bit operations does to the pending result and,
/// for a few of them, to N, T, the pointers, the program counter or
/// the core. `reply` is the outside world's answer for the three I/O
/// operations; every other operation ignores it. The signed division
/// truncates toward zero, stated here through signs and magnitudes;
/// its one overflow, the largest negative cell divided by minus one,
/// wraps back to the largest negative cell.
pub open spec fn alu_out(s: State, inst: u16, reply: u16) -> AluOut {
    let n0 = sel(s.core, s.sp);
    let pc1 = if inst & 0x10 == 0x10 {
        sel(s.core, s.rp) >> 1
    } else {
        add16(s.pc, 1)
    };
    let op = (inst >> 8) & 0x1f;
    let base = AluOut { tp: s.t, n: n0, t: s.t, sp: s.sp, rp: s.rp, pc: pc1, core: s.core };
    if op == 1 {
        AluOut { tp: n0, ..base }
    } else if op == 2 {
        AluOut { tp: sel(s.core, s.rp), ..base }
    } else if op == 3 {
        AluOut { tp: sel(s.core, s.t >> 1), ..base }
    } else if op == 4 {
        let c1 = upd(s.core, s.t >> 1, n0);
        let sp1 = sub16(s.sp, 1);
        AluOut { tp: sel(c1, sp1), sp: sp1, core: c1, ..base }
    } else if op == 5 {
        let d = s.t + n0;
        let lo = (d % 0x10000) as u16;
        AluOut { tp: (d / 0x10000) as u16, n: lo, core: upd(s.core, s.sp, lo), ..base }
    } else if op == 6 {
        let d = s.t * n0;
        let lo = (d % 0x10000) as u16;
        AluOut { tp: (d / 0x10000) as u16, n: lo, core: upd(s.core, s.sp, lo), ..base }
    } else if op == 7 {
        AluOut { tp: s.t & n0, ..base }
    } else if op == 8 {
        AluOut { tp: s.t | n0, ..base }
    } else if op == 9 {
        AluOut { tp: s.t ^ n0, ..base }
    } else if op == 10 {
        AluOut { tp: !s.t, ..base }
    } else if op == 11 {
        AluOut { tp: sub16(s.t, 1), ..base }
    } else if op == 12 {
        AluOut { tp: if s.t == 0 { 0xffff } else { 0 }, ..base }
    } else if op == 13 {
        AluOut { tp: if s.t == n0 { 0xffff } else { 0 }, ..base }
    } else if op == 14 {
        AluOut { tp: if n0 < s.t { 0xffff } else { 0 }, ..base }
    } else if op == 15 {
        AluOut { tp: if signed(n0) < signed(s.t) { 0xffff } else { 0 }, ..base }
    } else if op == 16 {
        AluOut { tp: shr16(n0, s.t), ..base }
    } else if op == 17 {
        AluOut { tp: shl16(n0, s.t), ..base }
    } else if op == 18 {
        AluOut { tp: s.sp << 1, ..base }
    } else if op == 19 {
        AluOut { tp: s.rp << 1, ..base }
    } else if op == 20 {
        AluOut { sp: s.t >> 1, ..base }
    } else if op == 21 {
        AluOut { rp: s.t >> 1, tp: n0, ..base }
    } else if op == 22 || op == 23 || op == 24 {
        AluOut { tp: reply, ..base }
    } else if op == 25 {
        if s.t != 0 {
            let r = n0 % s.t;
            AluOut { tp: n0 / s.t, t: r, n: r, ..base }
        } else {
            AluOut { tp: 10, pc: 1, ..base }
        }
    } else if op == 26 {
        if s.t != 0 {
            let qm = magnitude(n0) / magnitude(s.t);
            let rm = magnitude(n0) % magnitude(s.t);
            let q = if is_neg(n0) != is_neg(s.t) {
                neg16(qm)
            } else {
                qm as u16
            };
            let r = if is_neg(n0) {
                neg16(rm)
            } else {
                rm as u16
            };
            AluOut { tp: q, t: r, n: r, ..base }
        } else {
            AluOut { tp: 10, pc: 1, ..base }
        }
    } else {
        base
    }
}

/// A whole ALU cycle. The halt operation (27) keeps the program
/// counter computed in the first step and ends execution with the
/// registers otherwise untouched; every other operation is followed,
/// in order, by the two pointer deltas, the N-to-T override, the
/// T-to-R and T-to-N write-backs of the pre-assignment T (as the
/// operation step left it), and the assignment of the pending result
/// to T.
pub open spec fn alu_cycle(s: State, inst: u16, reply: u16) -> Cycle {
    let pc1 = if inst & 0x10 == 0x10 {
        sel(s.core, s.rp) >> 1
    } else {
        add16(s.pc, 1)
    };
    let op = (inst >> 8) & 0x1f;
    if op == 27 {
        Cycle { post: State { pc: pc1, ..s }, halted: true }
    } else {
        let a = alu_out(s, inst, reply);
        let sp2 = add16(a.sp, delta(inst & 3));
        let rp2 = sub16(a.rp, delta((inst >> 2) & 3));
        let tp2 = if inst & 0x20 == 0x20 {
            a.n
        } else {
            a.tp
        };
        let c2 = if inst & 0x40 == 0x40 {
            upd(a.core, rp2, a.t)
        } else {
            a.core
        };
        let c3 = if inst & 0x80 == 0x80 {
            upd(c2, sp2, a.t)
        } else {
            c2
        };
        Cycle { post: State { pc: a.pc, rp: rp2, sp: sp2, t: tp2, core: c3 }, halted: false }
    }
}

/// One full instruction cycle from state `s`: fetch `core[pc]`,
/// classify it by its top bits, and perform the family's effects.
/// A literal pushes T and loads its low 15 bits into T; a call pushes
/// the byte address of the next cell on the return stack; a
/// conditional branch consumes T whether taken or not; an
/// unconditional branch only moves the program counter.
#[verifier::opaque]
pub open spec fn cycle_spec(s: State, reply: u16) -> Cycle {
    let inst = sel(s.core, s.pc);
    if inst & 0x8000 == 0x8000 {
        let sp1 = add16(s.sp, 1);
        Cycle {
            post: State {
                pc: add16(s.pc, 1),
                rp: s.rp,
                sp: sp1,
                t: inst & 0x7fff,
                core: upd(s.core, sp1, s.t),
            },
            halted: false,
        }
    } else if inst & 0xe000 == 0x6000 {
        alu_cycle(s, inst, reply)
    } else if inst & 0xe000 == 0x4000 {
        let rp1 = sub16(s.rp, 1);
        Cycle {
            post: State {
                pc: inst & 0x1fff,
                rp: rp1,
                sp: s.sp,
                t: s.t,
                core: upd(s.core, rp1, add16(s.pc, 1) << 1),
            },
            halted: false,
        }
    } else if inst & 0xe000 == 0x2000 {
        Cycle {
            post: State {
                pc: if s.t == 0 {
                    inst & 0x1fff
                } else {
                    add16(s.pc, 1)
                },
                rp: s.rp,
                sp: sub16(s.sp, 1),
                t: sel(s.core, s.sp),
                core: s.core,
            },
            halted: false,
        }
    } else {
        Cycle { post: State { pc: inst & 0x1fff, ..s }, halted: false }
    }
}

/// What the instruction about to execute asks of the outside world.
#[derive(Clone, Copy, Debug, PartialEq, Eq, Structural)]
pub enum IoReq {
    /// Write this byte to the output sink (operation 23).
    Emit(u8),
    /// Read one byte from the input source (operation 24).
    Key,
    /// Write the cells of the half-open range `start..end` to the
    /// block sink, little-endian (operation 22).
    Save(u16, u16),
}

/// The I/O request of the instruction at `core[pc]`, if it makes one.
/// Only ALU operations 22, 23 and 24 do. The answer handed back for
/// the request becomes the operation's pending result.
pub open spec fn io_request_spec(s: State) -> Option<IoReq> {
    let inst = sel(s.core, s.pc);
    if inst & 0xe000 == 0x6000 {
        let op = (inst >> 8) & 0x1f;
        if op == 22 {
            Some(IoReq::Save(sel(s.core, s.sp) >> 1, ((s.t + 1) / 2) as u16))
        } else if op == 23 {
            Some(IoReq::Emit((s.t % 0x100) as u8))
        } else if op == 24 {
            Some(IoReq::Key)
        } else {
            None
        }
    } else {
        None
    }
}

} // verus!
