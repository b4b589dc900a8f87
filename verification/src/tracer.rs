//! The trace emitter's record formats: a fixed CSV header, and one
//! record per cycle holding the pre-execution registers, the
//! instruction word and the cycle counter, each record ending in a
//! newline. The host writes the bytes to its error stream.

use vstd::prelude::*;

use crate::state::{inc64, wrap_inc64};
use crate::vm::VM;

verus! {

/// The byte for one hex digit, lower case.
pub open spec fn hexd(d: u16) -> u8 {
    if d < 10 {
        (48 + d) as u8
    } else {
        (87 + d) as u8
    }
}

/// A word as exactly four hex digits.
pub open spec fn hex4s(v: u16) -> Seq<u8> {
    seq![
        hexd(v / 0x1000),
        hexd((v / 0x100) % 0x10),
        hexd((v / 0x10) % 0x10),
        hexd(v % 0x10),
    ]
}

/// A word in hex without leading zeros, padded to at least two
/// digits.
pub open spec fn hexmin2s(v: u16) -> Seq<u8> {
    if v < 0x100 {
        seq![hexd(v / 0x10), hexd(v % 0x10)]
    } else if v < 0x1000 {
        seq![hexd(v / 0x100), hexd((v / 0x10) % 0x10), hexd(v % 0x10)]
    } else {
        hex4s(v)
    }
}

/// A counter value in decimal, most significant digit first.
pub open spec fn dec_bytes(v: u64) -> Seq<u8>
    decreases v,
{
    if v < 10 {
        seq![(48 + v) as u8]
    } else {
        dec_bytes((v / 10) as u64).push((48 + v % 10) as u8)
    }
}

/// The time unit closing a record's last field: `s` on the very
/// first record, `ns` on every later one.
pub open spec fn unit_bytes(count: u64) -> Seq<u8> {
    if count == 0 {
        seq![115u8]
    } else {
        seq![110u8, 115u8]
    }
}

/// One trace record: `pc,instruction,t,sp,rp,<count><unit>` and a
/// newline; pc, instruction and t as four hex digits, sp and rp as
/// at least two.
pub open spec fn csv_line(pc: u16, instruction: u16, t: u16, sp: u16, rp: u16, count: u64) -> Seq<
    u8,
> {
    hex4s(pc) + seq![44u8] + hex4s(instruction) + seq![44u8] + hex4s(t) + seq![44u8] + hexmin2s(sp)
        + seq![44u8] + hexmin2s(rp) + seq![44u8] + dec_bytes(count) + unit_bytes(count)
        + seq![10u8]
}

/// The one-time header naming the record's fields, newline included.
pub open spec fn header_bytes() -> Seq<u8> {
    seq![
        34u8, 112u8, 99u8, 91u8, 49u8, 53u8, 58u8, 48u8, 93u8, 34u8,
        44u8, 34u8, 105u8, 110u8, 115u8, 116u8, 114u8, 117u8, 99u8,
        116u8, 105u8, 111u8, 110u8, 91u8, 49u8, 53u8, 58u8, 48u8, 93u8,
        34u8, 44u8, 34u8, 116u8, 91u8, 49u8, 53u8, 58u8, 48u8, 93u8,
        34u8, 44u8, 34u8, 115u8, 112u8, 91u8, 55u8, 58u8, 48u8, 93u8,
        34u8, 44u8, 34u8, 114u8, 112u8, 91u8, 55u8, 58u8, 48u8, 93u8,
        34u8, 44u8, 34u8, 84u8, 73u8, 77u8, 69u8, 34u8, 10u8
    ]
}

/// Append the four hex digits of `v`.
fn push_hex4(line: &mut Vec<u8>, v: u16)
    ensures
        final(line)@ == old(line)@ + hex4s(v),
{
    line.push(hexd_val(v / 0x1000));
    line.push(hexd_val((v / 0x100) % 0x10));
    line.push(hexd_val((v / 0x10) % 0x10));
    line.push(hexd_val(v % 0x10));
    proof {
        assert(line@ =~= old(line)@ + hex4s(v));
    }
}

/// Append `v` in hex, without leading zeros, at least two digits.
fn push_hexmin2(line: &mut Vec<u8>, v: u16)
    ensures
        final(line)@ == old(line)@ + hexmin2s(v),
{
    if v < 0x100 {
        line.push(hexd_val(v / 0x10));
        line.push(hexd_val(v % 0x10));
    } else if v < 0x1000 {
        line.push(hexd_val(v / 0x100));
        line.push(hexd_val((v / 0x10) % 0x10));
        line.push(hexd_val(v % 0x10));
    } else {
        push_hex4(line, v);
    }
    proof {
        assert(line@ =~= old(line)@ + hexmin2s(v));
    }
}

/// Append `v` in decimal.
fn push_dec(line: &mut Vec<u8>, v: u64)
    ensures
        final(line)@ == old(line)@ + dec_bytes(v),
    decreases v,
{
    if v < 10 {
        line.push((48 + v) as u8);
    } else {
        push_dec(line, v / 10);
        line.push((48 + v % 10) as u8);
    }
    proof {
        assert(line@ =~= old(line)@ + dec_bytes(v));
    }
}

/// One hex digit, executable.
fn hexd_val(d: u16) -> (r: u8)
    requires
        d < 16,
    ensures
        r == hexd(d),
{
    if d < 10 {
        (48 + d) as u8
    } else {
        (87 + d) as u8
    }
}

impl VM {
    /// The header to write once before the first record, or nothing
    /// while tracing is off.
    pub fn header(&self) -> (r: Option<Vec<u8>>)
        ensures
            (r is Some) == self.tracing,
            (r matches Some(line) ==> line@ == header_bytes()),
    {
        if !self.tracing {
            return None;
        }
        let mut line: Vec<u8> = Vec::new();
        line.push(34);
        line.push(112);
        line.push(99);
        line.push(91);
        line.push(49);
        line.push(53);
        line.push(58);
        line.push(48);
        line.push(93);
        line.push(34);
        line.push(44);
        line.push(34);
        line.push(105);
        line.push(110);
        line.push(115);
        line.push(116);
        line.push(114);
        line.push(117);
        line.push(99);
        line.push(116);
        line.push(105);
        line.push(111);
        line.push(110);
        line.push(91);
        line.push(49);
        line.push(53);
        line.push(58);
        line.push(48);
        line.push(93);
        line.push(34);
        line.push(44);
        line.push(34);
        line.push(116);
        line.push(91);
        line.push(49);
        line.push(53);
        line.push(58);
        line.push(48);
        line.push(93);
        line.push(34);
        line.push(44);
        line.push(34);
        line.push(115);
        line.push(112);
        line.push(91);
        line.push(55);
        line.push(58);
        line.push(48);
        line.push(93);
        line.push(34);
        line.push(44);
        line.push(34);
        line.push(114);
        line.push(112);
        line.push(91);
        line.push(55);
        line.push(58);
        line.push(48);
        line.push(93);
        line.push(34);
        line.push(44);
        line.push(34);
        line.push(84);
        line.push(73);
        line.push(77);
        line.push(69);
        line.push(34);
        line.push(10);
        proof {
            assert(line@ =~= header_bytes());
        }
        Some(line)
    }

    /// One trace record for the cycle about to execute, built from
    /// the values the caller read before the cycle, or nothing while
    /// tracing is off. Emitting a record advances the cycle counter;
    /// the machine's execution state is untouched either way.
    pub fn csv(&mut self, pc: u16, instruction: u16, t: u16, sp: u16, rp: u16) -> (r: Option<
        Vec<u8>,
    >)
        ensures
            final(self)@ == old(self)@,
            final(self).tracing == old(self).tracing,
            (r is Some) == old(self).tracing,
            !old(self).tracing ==> final(self).count == old(self).count,
            old(self).tracing ==> ((r matches Some(line)
                && line@ == csv_line(pc, instruction, t, sp, rp, old(self).count))
                && final(self).count == inc64(old(self).count)),
    {
        if !self.tracing {
            return None;
        }
        let mut line: Vec<u8> = Vec::new();
        push_hex4(&mut line, pc);
        line.push(44);
        push_hex4(&mut line, instruction);
        line.push(44);
        push_hex4(&mut line, t);
        line.push(44);
        push_hexmin2(&mut line, sp);
        line.push(44);
        push_hexmin2(&mut line, rp);
        line.push(44);
        push_dec(&mut line, self.count);
        if self.count == 0 {
            line.push(115);
        } else {
            line.push(110);
            line.push(115);
        }
        line.push(10);
        self.count = wrap_inc64(self.count);
        proof {
            assert(line@ =~= csv_line(pc, instruction, t, sp, rp, old(self).count));
        }
        Some(line)
    }
}

} // verus!
