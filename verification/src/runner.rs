//! A fuel-bounded, in-memory run of the machine: input bytes come
//! from a slice, output bytes, block saves and trace records are
//! collected, and the run stops at the halt operation or when the
//! fuel is spent.

use vstd::prelude::*;

use crate::codec::encode_range;
use crate::cycle::{cycle_spec, io_request_spec, IoReq};
use crate::state::{inc64, sel, State};
use crate::tracer::{csv_line, header_bytes};
use crate::vm::{exit_code, VM};

verus! {

/// What one in-memory run produced: the exit status if the machine
/// halted, the bytes it emitted, the byte image of every successful
/// block save in order, and the trace records (header first) if
/// tracing was on.
pub struct RunReport {
    pub exit: Option<i32>,
    pub output: Vec<u8>,
    pub saves: Vec<Vec<u8>>,
    pub trace: Vec<Vec<u8>>,
}

/// The outcome of a fuel-bounded run, in the model: the final state,
/// whether the halt operation was reached, the cycle counter after
/// the run, and the output, saves and trace records accumulated.
#[verifier::ext_equal]
pub ghost struct RunRes {
    pub post: State,
    pub halted: bool,
    pub count: u64,
    pub output: Seq<u8>,
    pub saves: Seq<Seq<u8>>,
    pub lines: Seq<Seq<u8>>,
}

/// The answer an in-memory run hands the cycle about to execute:
/// an emitted byte echoes back, a key comes from the front of the
/// remaining input or is the end marker 0xffff, a block save answers
/// 0 unless its range is violated, and a cycle asking nothing is
/// handed 0, which it ignores.
pub open spec fn reply_spec(s: State, input: Seq<u8>) -> u16 {
    match io_request_spec(s) {
        Some(IoReq::Emit(b)) => b as u16,
        Some(IoReq::Key) => if input.len() > 0 {
            input[0] as u16
        } else {
            0xffff
        },
        Some(IoReq::Save(start, end)) => if start + end > 0xffff {
            0xffff
        } else {
            0
        },
        None => 0,
    }
}

/// The bytes the cycle about to execute emits: one for an emit
/// request, none otherwise.
pub open spec fn cycle_output(s: State) -> Seq<u8> {
    match io_request_spec(s) {
        Some(IoReq::Emit(b)) => seq![b],
        _ => Seq::empty(),
    }
}

/// The block saves the cycle about to execute performs: the encoded
/// range for an in-range save request, none otherwise.
pub open spec fn cycle_saves(s: State) -> Seq<Seq<u8>> {
    match io_request_spec(s) {
        Some(IoReq::Save(start, end)) => if start + end > 0xffff {
            Seq::empty()
        } else {
            seq![encode_range(s.core, start, end)]
        },
        _ => Seq::empty(),
    }
}

/// How many input bytes the cycle about to execute consumes: one for
/// a key request answered from the input, none otherwise.
pub open spec fn cycle_consumed(s: State, input: Seq<u8>) -> int {
    match io_request_spec(s) {
        Some(IoReq::Key) => if input.len() > 0 {
            1
        } else {
            0
        },
        _ => 0,
    }
}

/// A fuel-bounded run from state `s`: each cycle first yields its
/// trace record (while tracing), then its I/O against the remaining
/// input, then the cycle itself; the run ends at the halt operation
/// or after `fuel` cycles.
pub open spec fn run_spec(s: State, tracing: bool, count: u64, input: Seq<u8>, fuel: nat) -> RunRes
    decreases fuel,
{
    if fuel == 0 {
        RunRes {
            post: s,
            halted: false,
            count,
            output: Seq::empty(),
            saves: Seq::empty(),
            lines: Seq::empty(),
        }
    } else {
        let inst = sel(s.core, s.pc);
        let line_add: Seq<Seq<u8>> = if tracing {
            seq![csv_line(s.pc, inst, s.t, s.sp, s.rp, count)]
        } else {
            Seq::empty()
        };
        let count1 = if tracing {
            inc64(count)
        } else {
            count
        };
        let c = cycle_spec(s, reply_spec(s, input));
        let rest = if c.halted {
            RunRes {
                post: c.post,
                halted: true,
                count: count1,
                output: Seq::empty(),
                saves: Seq::empty(),
                lines: Seq::empty(),
            }
        } else {
            run_spec(
                c.post,
                tracing,
                count1,
                input.skip(cycle_consumed(s, input)),
                (fuel - 1) as nat,
            )
        };
        RunRes {
            post: rest.post,
            halted: rest.halted,
            count: rest.count,
            output: cycle_output(s) + rest.output,
            saves: cycle_saves(s) + rest.saves,
            lines: line_add + rest.lines,
        }
    }
}

impl VM {
    /// Run in memory for at most `fuel` cycles, reading keys from
    /// `input`. The report's exit status is present exactly when the
    /// halt operation was reached within the fuel; its fields are the
    /// run's output bytes, block-save images and trace records as the
    /// model `run_spec` gives them. The trace is observational: the
    /// state reached, the exit status and the output do not depend on
    /// the trace flag.
    #[verifier::rlimit(100)]
    pub fn run(&mut self, input: &Vec<u8>, fuel: u64) -> (r: RunReport)
        requires
            old(self).wf(),
        ensures
            final(self).wf(),
            final(self).tracing == old(self).tracing,
            ({
                let res = run_spec(
                    old(self)@,
                    old(self).tracing,
                    old(self).count,
                    input@,
                    fuel as nat,
                );
                final(self)@ == res.post && final(self).count == res.count && (r.exit is Some)
                    == res.halted && (r.exit matches Some(code) ==> code == exit_code(res.post.t))
                    && r.output@ == res.output && r.saves.deep_view() == res.saves
                    && r.trace.deep_view() == (if old(self).tracing {
                    seq![header_bytes()] + res.lines
                } else {
                    res.lines
                })
            }),
    {
        let ghost s0 = self@;
        let ghost tr = self.tracing;
        let ghost c0 = self.count;
        let ghost full = run_spec(s0, tr, c0, input@, fuel as nat);
        let mut output: Vec<u8> = Vec::new();
        let mut saves: Vec<Vec<u8>> = Vec::new();
        let mut lines: Vec<Vec<u8>> = Vec::new();
        let mut pos: usize = 0;
        let mut left: u64 = fuel;
        let mut done = false;
        let mut exit: Option<i32> = None;

        proof {
            assert(input@.skip(0) =~~= input@);
            assert(output@ + full.output =~~= full.output);
            assert(saves.deep_view() =~~= Seq::<Seq<u8>>::empty());
            assert(lines.deep_view() =~~= Seq::<Seq<u8>>::empty());
            assert(saves.deep_view() + full.saves =~~= full.saves);
            assert(lines.deep_view() + full.lines =~~= full.lines);
        }

        while left > 0 && !done
            invariant
                self.wf(),
                self.tracing == tr,
                pos <= input@.len(),
                full == run_spec(s0, tr, c0, input@, fuel as nat),
                done ==> ({
                    (exit matches Some(code) && code == exit_code(full.post.t)) && full.halted
                        && full.post == self@ && full.count == self.count && full.output
                        == output@ && full.saves == saves.deep_view() && full.lines
                        == lines.deep_view()
                }),
                !done ==> ({
                    let rem = run_spec(
                        self@,
                        tr,
                        self.count,
                        input@.skip(pos as int),
                        left as nat,
                    );
                    (exit is None) && full.post == rem.post && full.halted == rem.halted
                        && full.count == rem.count && full.output == output@ + rem.output
                        && full.saves == saves.deep_view() + rem.saves && full.lines
                        == lines.deep_view() + rem.lines
                }),
            decreases left,
        {
            let ghost s_pre = self@;
            let ghost count_pre = self.count;
            let ghost in_rem = input@.skip(pos as int);
            let ghost lines_pre = lines.deep_view();
            let ghost output_pre = output@;
            let ghost saves_pre = saves.deep_view();

            let pc = self.pc;
            let sp = self.sp;
            let rp = self.rp;
            let t = self.t;
            let inst = self.read_cell(pc);
            match self.csv(pc, inst, t, sp, rp) {
                Some(l) => lines.push(l),
                None => {},
            }
            proof {
                if tr {
                    assert(lines.deep_view() =~~= lines_pre + seq![
                        csv_line(s_pre.pc, inst, s_pre.t, s_pre.sp, s_pre.rp, count_pre),
                    ]);
                } else {
                    assert(lines.deep_view() =~~= lines_pre + Seq::<Seq<u8>>::empty());
                }
            }

            let req = self.io_request();
            let reply: u16 = match req {
                None => 0,
                Some(IoReq::Emit(b)) => {
                    output.push(b);
                    b as u16
                },
                Some(IoReq::Key) => {
                    if pos < input.len() {
                        let b = input[pos];
                        pos = pos + 1;
                        b as u16
                    } else {
                        0xffff
                    }
                },
                Some(IoReq::Save(start, end)) => {
                    match self.save_block(start, end) {
                        Some(bytes) => {
                            saves.push(bytes);
                            0
                        },
                        None => 0xffff,
                    }
                },
            };
            proof {
                assert(in_rem.len() == input@.len() - pos as int + cycle_consumed(s_pre, in_rem));
                if in_rem.len() > 0 {
                    assert(in_rem[0] == input@[input@.len() - in_rem.len()]);
                }
                assert(reply == reply_spec(s_pre, in_rem));
                assert(output@ =~~= output_pre + cycle_output(s_pre));
                assert(saves.deep_view() =~~= saves_pre + cycle_saves(s_pre));
                assert(input@.skip(pos as int) =~~= in_rem.skip(cycle_consumed(s_pre, in_rem)));
            }

            let stepped = self.step(reply);
            left = left - 1;
            match stepped {
                Some(code) => {
                    exit = Some(code);
                    done = true;
                },
                None => {},
            }
            proof {
                let rem_pre = run_spec(s_pre, tr, count_pre, in_rem, (left + 1) as nat);
                if done {
                    assert(rem_pre.output =~~= cycle_output(s_pre));
                    assert(rem_pre.saves =~~= cycle_saves(s_pre));
                    if tr {
                        assert(rem_pre.lines =~~= seq![
                            csv_line(s_pre.pc, inst, s_pre.t, s_pre.sp, s_pre.rp, count_pre),
                        ]);
                    } else {
                        assert(rem_pre.lines =~~= Seq::<Seq<u8>>::empty());
                    }
                    assert(full.output =~~= output@);
                    assert(full.saves =~~= saves.deep_view());
                    assert(full.lines =~~= lines.deep_view());
                } else {
                    let rem = run_spec(
                        self@,
                        tr,
                        self.count,
                        input@.skip(pos as int),
                        left as nat,
                    );
                    assert(full.output =~~= output@ + rem.output);
                    assert(full.saves =~~= saves.deep_view() + rem.saves);
                    assert(full.lines =~~= lines.deep_view() + rem.lines);
                }
            }
        }

        proof {
            if !done {
                let rem = run_spec(self@, tr, self.count, input@.skip(pos as int), 0);
                assert(full.output =~~= output@);
                assert(full.saves =~~= saves.deep_view());
                assert(full.lines =~~= lines.deep_view());
            }
        }

        let mut trace: Vec<Vec<u8>> = Vec::new();
        match self.header() {
            Some(h) => trace.push(h),
            None => {},
        }
        trace.append(&mut lines);
        proof {
            if tr {
                assert(trace.deep_view() =~~= seq![header_bytes()] + full.lines);
            } else {
                assert(trace.deep_view() =~~= full.lines);
            }
        }
        RunReport { exit, output, saves, trace }
    }
}

} // verus!
