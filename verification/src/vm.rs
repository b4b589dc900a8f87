//! The virtual machine: its registers and core, and one verified
//! instruction cycle at a time.

use vstd::prelude::*;

use crate::cycle::{alu_out, cycle_spec, delta, io_request_spec, IoReq};
use crate::state::{
    sel, signed, upd, wrap_add16, wrap_sub16, State, CORE_SIZE, RP0, SP0,
};

verus! {

/// A 16-bit dual-stack virtual machine. The core holds program, data
/// and both stacks; the variable stack's top lives in the register T.
pub struct VM {
    /// When set, the host is asked to emit one trace record per cycle.
    pub tracing: bool,
    /// Number of trace records emitted so far; advanced only while
    /// tracing, wrapping at the 64-bit boundary.
    pub count: u64,
    /// Program counter: the cell index of the next instruction.
    pub pc: u16,
    /// Return-stack pointer: the cell index of the return-stack top.
    pub rp: u16,
    /// Variable-stack pointer: the cell index of the second-of-stack.
    pub sp: u16,
    /// Top-of-stack register.
    pub t: u16,
    /// The cell core, `CORE_SIZE` cells.
    pub core: Vec<u16>,
}

impl View for VM {
    type V = State;

    /// The machine's execution state: the four registers and the core.
    open spec fn view(&self) -> State {
        State { pc: self.pc, rp: self.rp, sp: self.sp, t: self.t, core: self.core@ }
    }
}

/// The sign extension of T delivered as the exit status at halt.
pub open spec fn exit_code(t: u16) -> int {
    signed(t)
}

impl VM {
    /// The core holds exactly `CORE_SIZE` cells.
    pub open spec fn wf(&self) -> bool {
        self@.wf()
    }

    /// A machine with a zeroed core and the registers at their reset
    /// values, ready to have an image installed.
    pub fn new() -> (r: Self)
        ensures
            r.wf(),
            r@.pc == 0 && r@.rp == RP0 && r@.sp == SP0 && r@.t == 0,
            forall|i: int| 0 <= i < CORE_SIZE ==> r@.core[i] == 0,
            !r.tracing,
            r.count == 0,
    {
        let core: Vec<u16> = vec![0u16; CORE_SIZE];
        VM { tracing: false, count: 0, pc: 0, rp: RP0, sp: SP0, t: 0, core }
    }

    /// Set the registers back to their defaults: the core, the trace
    /// flag and the cycle counter are untouched.
    pub fn reset(&mut self)
        ensures
            final(self)@.pc == 0 && final(self)@.rp == RP0 && final(self)@.sp == SP0
                && final(self)@.t == 0,
            final(self)@.core == old(self)@.core,
            final(self).tracing == old(self).tracing && final(self).count == old(self).count,
    {
        self.pc = 0;
        self.rp = RP0;
        self.sp = SP0;
        self.t = 0;
    }

    /// Turn per-cycle trace records on or off.
    pub fn trace(&mut self, state: bool)
        ensures
            final(self).tracing == state,
            final(self)@ == old(self)@,
            final(self).count == old(self).count,
    {
        self.tracing = state;
    }

    /// Read the cell at index `i`; indices are reduced to the 15-bit
    /// cell range.
    pub fn read_cell(&self, i: u16) -> (r: u16)
        requires
            self.wf(),
        ensures
            r == sel(self@.core, i),
    {
        self.core[(i % 0x8000) as usize]
    }

    /// Write the cell at index `i`; indices are reduced to the 15-bit
    /// cell range.
    pub fn write_cell(&mut self, i: u16, v: u16)
        requires
            old(self).wf(),
        ensures
            final(self).wf(),
            final(self)@ == (State { core: upd(old(self)@.core, i, v), ..old(self)@ }),
            final(self).tracing == old(self).tracing && final(self).count == old(self).count,
    {
        self.core[(i % 0x8000) as usize] = v;
        proof {
            assert(self@ =~= State { core: upd(old(self)@.core, i, v), ..old(self)@ });
        }
    }

    /// Copy an image into the front of the core, cell by cell; cells
    /// past the image's length keep their contents. An image longer
    /// than the core is truncated to the core's size.
    pub fn install(&mut self, image: &Vec<u16>)
        requires
            old(self).wf(),
        ensures
            final(self).wf(),
            final(self)@.pc == old(self)@.pc && final(self)@.rp == old(self)@.rp
                && final(self)@.sp == old(self)@.sp && final(self)@.t == old(self)@.t,
            forall|i: int|
                0 <= i < CORE_SIZE ==> final(self)@.core[i] == (if i < image@.len() {
                    image@[i]
                } else {
                    old(self)@.core[i]
                }),
            final(self).tracing == old(self).tracing && final(self).count == old(self).count,
    {
        let n = if image.len() < CORE_SIZE {
            image.len()
        } else {
            CORE_SIZE
        };
        let mut i: usize = 0;
        while i < n
            invariant
                i <= n,
                n <= image@.len(),
                n <= CORE_SIZE,
                self.wf(),
                self@.pc == old(self)@.pc && self@.rp == old(self)@.rp
                    && self@.sp == old(self)@.sp && self@.t == old(self)@.t,
                self.tracing == old(self).tracing && self.count == old(self).count,
                forall|k: int|
                    0 <= k < CORE_SIZE ==> self@.core[k] == (if k < i {
                        image@[k]
                    } else {
                        old(self)@.core[k]
                    }),
            decreases n - i,
        {
            self.core[i] = image[i];
            i = i + 1;
        }
    }

    /// What the instruction about to execute asks of the outside
    /// world, if anything. A `Save` request's end index never exceeds
    /// the core's size.
    pub fn io_request(&self) -> (r: Option<IoReq>)
        requires
            self.wf(),
        ensures
            r == io_request_spec(self@),
            (r matches Some(IoReq::Save(start, end)) ==> end <= 0x8000),
    {
        let inst = self.read_cell(self.pc);
        if inst & 0xe000 == 0x6000 {
            let op = (inst >> 8) & 0x1f;
            if op == 22 {
                let n0 = self.read_cell(self.sp);
                Some(IoReq::Save(n0 >> 1, (((self.t as u32) + 1) / 2) as u16))
            } else if op == 23 {
                Some(IoReq::Emit((self.t % 0x100) as u8))
            } else if op == 24 {
                Some(IoReq::Key)
            } else {
                None
            }
        } else {
            None
        }
    }

    /// Execute one instruction cycle. `reply` is the outside world's
    /// answer to the cycle's I/O request (see `io_request`); a cycle
    /// that makes no request ignores it. Returns the process exit
    /// status — T sign-extended to 32 bits — when the cycle executed
    /// the halt operation, and `None` otherwise.
    pub fn step(&mut self, reply: u16) -> (r: Option<i32>)
        requires
            old(self).wf(),
        ensures
            final(self).wf(),
            final(self)@ == cycle_spec(old(self)@, reply).post,
            (r is Some) == cycle_spec(old(self)@, reply).halted,
            (r matches Some(code) ==> code == exit_code(final(self)@.t)),
            final(self).tracing == old(self).tracing && final(self).count == old(self).count,
    {
        proof {
            reveal(cycle_spec);
        }
        let ghost s0 = self@;
        let pc = self.pc;
        let rp = self.rp;
        let sp = self.sp;
        let t = self.t;
        let inst = self.read_cell(pc);

        if inst & 0x8000 == 0x8000 {
            // Literal: push T, load the low 15 bits.
            let sp1 = wrap_add16(sp, 1);
            self.write_cell(sp1, t);
            self.sp = sp1;
            self.t = inst & 0x7fff;
            self.pc = wrap_add16(pc, 1);
            proof {
                assert(self@ =~= cycle_spec(s0, reply).post);
            }
            None
        } else if inst & 0xe000 == 0x6000 {
            self.alu(inst, reply, Ghost(s0))
        } else if inst & 0xe000 == 0x4000 {
            // Call: push the byte address of the next cell, jump.
            let rp1 = wrap_sub16(rp, 1);
            self.write_cell(rp1, wrap_add16(pc, 1) << 1);
            self.rp = rp1;
            self.pc = inst & 0x1fff;
            proof {
                assert(self@ =~= cycle_spec(s0, reply).post);
            }
            None
        } else if inst & 0xe000 == 0x2000 {
            // Conditional branch: consume T whether taken or not.
            let pc1 = if self.t == 0 {
                inst & 0x1fff
            } else {
                wrap_add16(pc, 1)
            };
            let t1 = self.read_cell(sp);
            self.pc = pc1;
            self.t = t1;
            self.sp = wrap_sub16(sp, 1);
            proof {
                assert(self@ =~= cycle_spec(s0, reply).post);
            }
            None
        } else {
            // Unconditional branch.
            self.pc = inst & 0x1fff;
            proof {
                assert(self@ =~= cycle_spec(s0, reply).post);
            }
            None
        }
    }

    /// The ALU family of `step`: the operation, the pointer deltas,
    /// the write-back flags, and the assignment to T, in the order
    /// the instruction set fixes.
    #[verifier::rlimit(60)]
    fn alu(&mut self, inst: u16, reply: u16, Ghost(s0): Ghost<State>) -> (r: Option<i32>)
        requires
            old(self).wf(),
            s0 == old(self)@,
            inst == sel(s0.core, s0.pc),
            inst & 0xe000 == 0x6000,
        ensures
            final(self).wf(),
            final(self)@ == cycle_spec(s0, reply).post,
            (r is Some) == cycle_spec(s0, reply).halted,
            (r matches Some(code) ==> code == exit_code(final(self)@.t)),
            final(self).tracing == old(self).tracing && final(self).count == old(self).count,
    {
        proof {
            reveal(cycle_spec);
            assert(inst & 0x8000 != 0x8000) by (bit_vector)
                requires
                    inst & 0xe000 == 0x6000,
            ;
        }
        let pc = self.pc;
        let rp = self.rp;
        let sp = self.sp;
        let t = self.t;
        let n0 = self.read_cell(sp);
        let pc1 = if inst & 0x10 == 0x10 {
            self.read_cell(rp) >> 1
        } else {
            wrap_add16(pc, 1)
        };
        let op = (inst >> 8) & 0x1f;

        if op == 27 {
            // Halt: keep the computed program counter, skip the rest.
            self.pc = pc1;
            let code: i32 = if t >= 0x8000 {
                (t as i32) - 0x10000
            } else {
                t as i32
            };
            proof {
                assert(self@ =~= cycle_spec(s0, reply).post);
            }
            return Some(code);
        }

        let mut tp = t;
        let mut n = n0;
        let mut t2 = t;
        let mut spx = sp;
        let mut rpx = rp;
        let mut pcx = pc1;

        if op == 0 {
        } else if op == 1 {
            tp = n0;
        } else if op == 2 {
            tp = self.read_cell(rp);
        } else if op == 3 {
            tp = self.read_cell(t >> 1);
        } else if op == 4 {
            self.write_cell(t >> 1, n0);
            spx = wrap_sub16(sp, 1);
            tp = self.read_cell(spx);
        } else if op == 5 {
            let d = (t as u32) + (n0 as u32);
            tp = (d / 0x10000) as u16;
            let lo = (d % 0x10000) as u16;
            self.write_cell(sp, lo);
            n = lo;
        } else if op == 6 {
            proof {
                assert((t as int) * (n0 as int) <= 0xffff * 0xffff) by (nonlinear_arith)
                    requires
                        t <= 0xffff,
                        n0 <= 0xffff,
                ;
            }
            let d = (t as u32) * (n0 as u32);
            tp = (d / 0x10000) as u16;
            let lo = (d % 0x10000) as u16;
            self.write_cell(sp, lo);
            n = lo;
        } else if op == 7 {
            tp = t & n0;
        } else if op == 8 {
            tp = t | n0;
        } else if op == 9 {
            tp = t ^ n0;
        } else if op == 10 {
            tp = !t;
        } else if op == 11 {
            tp = wrap_sub16(t, 1);
        } else if op == 12 {
            tp = if t == 0 {
                0xffff
            } else {
                0
            };
        } else if op == 13 {
            tp = if t == n0 {
                0xffff
            } else {
                0
            };
        } else if op == 14 {
            tp = if n0 < t {
                0xffff
            } else {
                0
            };
        } else if op == 15 {
            // Two's-complement order: same signs compare as the raw
            // words do; otherwise the negative one is smaller.
            let less = if (n0 >= 0x8000) == (t >= 0x8000) {
                n0 < t
            } else {
                n0 >= 0x8000
            };
            tp = if less {
                0xffff
            } else {
                0
            };
            proof {
                assert(less == (signed(n0) < signed(t)));
            }
        } else if op == 16 {
            tp = if t < 16 {
                n0 >> t
            } else {
                0
            };
        } else if op == 17 {
            tp = if t < 16 {
                n0 << t
            } else {
                0
            };
        } else if op == 18 {
            tp = sp << 1;
        } else if op == 19 {
            tp = rp << 1;
        } else if op == 20 {
            spx = t >> 1;
        } else if op == 21 {
            rpx = t >> 1;
            tp = n0;
        } else if op == 22 || op == 23 || op == 24 {
            tp = reply;
        } else if op == 25 {
            if t != 0 {
                tp = n0 / t;
                let rem = n0 % t;
                t2 = rem;
                n = rem;
            } else {
                pcx = 1;
                tp = 10;
            }
        } else if op == 26 {
            if t != 0 {
                let mn: u32 = if n0 >= 0x8000 {
                    0x10000 - (n0 as u32)
                } else {
                    n0 as u32
                };
                let mt: u32 = if t >= 0x8000 {
                    0x10000 - (t as u32)
                } else {
                    t as u32
                };
                proof {
                    assert((mn as int) / (mt as int) <= mn as int) by (nonlinear_arith)
                        requires
                            mt >= 1,
                            mn >= 0,
                    ;
                }
                let qm = mn / mt;
                let rm = mn % mt;
                tp = if (n0 >= 0x8000) != (t >= 0x8000) {
                    ((0x10000 - qm) % 0x10000) as u16
                } else {
                    qm as u16
                };
                let r16 = if n0 >= 0x8000 {
                    ((0x10000 - rm) % 0x10000) as u16
                } else {
                    rm as u16
                };
                t2 = r16;
                n = r16;
            } else {
                pcx = 1;
                tp = 10;
            }
        } else {
        }

        proof {
            let a = alu_out(s0, inst, reply);
            assert(tp == a.tp && n == a.n && t2 == a.t && spx == a.sp && rpx == a.rp
                && pcx == a.pc && self@.core =~= a.core);
        }

        let sp2 = wrap_add16(spx, delta_val(inst & 3));
        let rp2 = wrap_sub16(rpx, delta_val((inst >> 2) & 3));
        if inst & 0x20 == 0x20 {
            tp = n;
        }
        if inst & 0x40 == 0x40 {
            self.write_cell(rp2, t2);
        }
        if inst & 0x80 == 0x80 {
            self.write_cell(sp2, t2);
        }
        self.sp = sp2;
        self.rp = rp2;
        self.pc = pcx;
        self.t = tp;
        proof {
            assert(self@ =~= cycle_spec(s0, reply).post);
        }
        None
    }
}

/// The stack-pointer delta table, executable.
fn delta_val(k: u16) -> (r: u16)
    ensures
        r == delta(k),
{
    if k == 0 {
        0
    } else if k == 1 {
        1
    } else if k == 2 {
        0xfffe
    } else {
        0xffff
    }
}

} // verus!
