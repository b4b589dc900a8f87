//! General properties of the instruction cycle, stated over the model
//! and proved once for every state, instruction and outside answer.

use vstd::prelude::*;

use crate::cycle::cycle_spec;
use crate::runner::{cycle_consumed, reply_spec, run_spec};
use crate::state::{add16, inc64, sel, sub16, State};
use crate::vm::exit_code;

verus! {

/// Halt return: when the next cycle is a literal `v` and the one
/// after it the plain halt word, and the pushed cell does not land on
/// the halt word itself, the machine halts with T = v, so the exit
/// status is `v` — never negative, since a literal strips the sign
/// bit.
pub proof fn lemma_halt_return(s: State, v: u16, reply1: u16, reply2: u16)
    requires
        s.wf(),
        v < 0x8000,
        sel(s.core, s.pc) == 0x8000 + v,
        sel(s.core, add16(s.pc, 1)) == 0x7b00,
        add16(s.sp, 1) % 0x8000 != add16(s.pc, 1) % 0x8000,
    ensures
        ({
            let c1 = cycle_spec(s, reply1);
            let c2 = cycle_spec(c1.post, reply2);
            !c1.halted && c2.halted && c2.post.t == v && exit_code(c2.post.t) == v
        }),
{
    reveal(cycle_spec);
    let inst = (0x8000 + v) as u16;
    assert(inst & 0x8000 == 0x8000 && inst & 0x7fff == v) by (bit_vector)
        requires
            inst == 0x8000 + v && v < 0x8000,
    ;
    assert(0x7b00u16 & 0x8000 != 0x8000 && 0x7b00u16 & 0xe000 == 0x6000 && (0x7b00u16 >> 8) & 0x1f
        == 27) by (bit_vector);
}

/// No progress on a self-branch: with cell 0 holding the word 0 — an
/// unconditional branch to cell 0 — and the program counter at 0, any
/// number of cycles leaves the state exactly as it stands, and the
/// machine never halts; only a cycle cap ends such a run.
pub proof fn lemma_branch_self_loop(
    s: State,
    tracing: bool,
    count: u64,
    input: Seq<u8>,
    fuel: nat,
)
    requires
        s.wf(),
        s.pc == 0,
        sel(s.core, 0) == 0,
    ensures
        run_spec(s, tracing, count, input, fuel).post == s,
        !run_spec(s, tracing, count, input, fuel).halted,
    decreases fuel,
{
    if fuel != 0 {
        reveal(cycle_spec);
        assert(0u16 & 0x8000 != 0x8000 && 0u16 & 0xe000 != 0x6000 && 0u16 & 0xe000 != 0x4000
            && 0u16 & 0xe000 != 0x2000 && 0u16 & 0x1fff == 0) by (bit_vector);
        let c = cycle_spec(s, reply_spec(s, input));
        assert(c.post =~= s);
        assert(input.skip(0) =~= input);
        let count1 = if tracing {
            inc64(count)
        } else {
            count
        };
        lemma_branch_self_loop(s, tracing, count1, input, (fuel - 1) as nat);
    }
}

/// Stack pop on a conditional branch: whether taken or not, the cycle
/// leaves SP one lower (wrapping) and T holding what `core[SP]` held;
/// the core and RP are untouched, and the program counter goes to the
/// branch target exactly when T was zero.
pub proof fn lemma_zbranch_pop(s: State, reply: u16)
    requires
        s.wf(),
        sel(s.core, s.pc) & 0xe000 == 0x2000,
    ensures
        ({
            let c = cycle_spec(s, reply);
            !c.halted && c.post.sp == sub16(s.sp, 1) && c.post.t == sel(s.core, s.sp)
                && c.post.core == s.core && c.post.rp == s.rp && c.post.pc == (if s.t == 0 {
                sel(s.core, s.pc) & 0x1fff
            } else {
                add16(s.pc, 1)
            })
        }),
{
    reveal(cycle_spec);
    let inst = sel(s.core, s.pc);
    assert(inst & 0x8000 != 0x8000) by (bit_vector)
        requires
            inst & 0xe000 == 0x2000,
    ;
}

/// ALU execution order: for an ALU word with both T-to-N and N-to-T
/// set, whose operation leaves N, T and the core alone, the new T is
/// the N observed at the start of the cycle and the cell at the new
/// SP is the old T. This pins the order of the steps: the override
/// reads N as the operation step left it, the write-backs store the
/// T from before the final assignment. The operations that move N or
/// the core themselves — store, the double-cell add and multiply, and
/// the two divisions — are left out, as is halt.
pub proof fn lemma_alu_order(s: State, reply: u16)
    requires
        s.wf(),
        sel(s.core, s.pc) & 0xe000 == 0x6000,
        sel(s.core, s.pc) & 0x80 == 0x80,
        sel(s.core, s.pc) & 0x20 == 0x20,
        ({
            let op = (sel(s.core, s.pc) >> 8) & 0x1f;
            op != 4 && op != 5 && op != 6 && op != 25 && op != 26 && op != 27
        }),
    ensures
        ({
            let c = cycle_spec(s, reply);
            !c.halted && c.post.t == sel(s.core, s.sp) && sel(c.post.core, c.post.sp) == s.t
        }),
{
    reveal(cycle_spec);
    let inst = sel(s.core, s.pc);
    assert(inst & 0x8000 != 0x8000) by (bit_vector)
        requires
            inst & 0xe000 == 0x6000,
    ;
}

/// Divide-by-zero trap: the unsigned division operation with T = 0
/// hands the next cycle program counter 1 and leaves the sentinel 10
/// in T, whatever the word's pointer deltas and write-backs do — as
/// long as the word does not also override T from N.
pub proof fn lemma_div_zero_trap(s: State, reply: u16)
    requires
        s.wf(),
        s.t == 0,
        sel(s.core, s.pc) & 0xe000 == 0x6000,
        (sel(s.core, s.pc) >> 8) & 0x1f == 25,
        sel(s.core, s.pc) & 0x20 == 0,
    ensures
        ({
            let c = cycle_spec(s, reply);
            !c.halted && c.post.pc == 1 && c.post.t == 10
        }),
{
    reveal(cycle_spec);
    let inst = sel(s.core, s.pc);
    assert(inst & 0x8000 != 0x8000) by (bit_vector)
        requires
            inst & 0xe000 == 0x6000,
    ;
}

/// The trace is observational: a run from one state over one input
/// reaches the same state, halts the same way and produces the same
/// output bytes and block saves whether tracing is on or off, and
/// whatever the cycle counter holds; only the records differ.
pub proof fn lemma_trace_observational(s: State, c1: u64, c2: u64, input: Seq<u8>, fuel: nat)
    ensures
        ({
            let a = run_spec(s, true, c1, input, fuel);
            let b = run_spec(s, false, c2, input, fuel);
            a.post == b.post && a.halted == b.halted && a.output == b.output && a.saves == b.saves
        }),
    decreases fuel,
{
    if fuel != 0 {
        let c = cycle_spec(s, reply_spec(s, input));
        if !c.halted {
            lemma_trace_observational(
                c.post,
                inc64(c1),
                c2,
                input.skip(cycle_consumed(s, input)),
                (fuel - 1) as nat,
            );
        }
    }
}

} // verus!
