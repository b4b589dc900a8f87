//! The image codec: cells out to little-endian bytes and back.
//! The block form writes a half-open range of cells; the image form
//! covers the whole core, and loading an image resets the registers.

use vstd::prelude::*;

use crate::state::{hi_byte, lo_byte, word16, State, CORE_SIZE, RP0, SP0};
use crate::vm::VM;

verus! {

/// The little-endian bytes of the cells `start..end` of a core; empty
/// when `end <= start`. Byte `2k` is the low byte of cell `start + k`,
/// byte `2k + 1` its high byte.
pub open spec fn encode_range(core: Seq<u16>, start: u16, end: u16) -> Seq<u8> {
    if start < end {
        Seq::new((2 * (end - start)) as nat, |k: int|
            if k % 2 == 0 {
                lo_byte(core[start + k / 2])
            } else {
                hi_byte(core[start + k / 2])
            },
        )
    } else {
        Seq::empty()
    }
}

/// The byte image of a whole core.
pub open spec fn image_bytes(core: Seq<u16>) -> Seq<u8> {
    encode_range(core, 0, CORE_SIZE as u16)
}

/// How many cells a byte stream loads: one per full byte pair, at
/// most the whole core; a trailing lone byte loads nothing.
pub open spec fn loaded_cells(bytes: Seq<u8>) -> int {
    if bytes.len() / 2 < CORE_SIZE {
        bytes.len() as int / 2
    } else {
        CORE_SIZE as int
    }
}

/// The core after loading a byte stream over `core`: the loaded
/// prefix holds the stream's cells, the rest is untouched.
pub open spec fn load_core(core: Seq<u16>, bytes: Seq<u8>) -> Seq<u16> {
    Seq::new(CORE_SIZE as nat, |i: int|
        if i < loaded_cells(bytes) {
            word16(bytes[2 * i], bytes[2 * i + 1])
        } else {
            core[i]
        },
    )
}

impl VM {
    /// The little-endian bytes of the cells `start..length`, where
    /// `length` is an end index, not a count: when `length <= start`
    /// no cells are covered and the result is an empty success.
    /// Returns `None` exactly when `start + length` exceeds 0xffff.
    /// An in-range end index above the core's size would run off the
    /// core and is left out.
    pub fn save_block(&self, start: u16, length: u16) -> (r: Option<Vec<u8>>)
        requires
            self.wf(),
            length <= 0x8000 || start + length > 0xffff,
        ensures
            (r is None) == (start + length > 0xffff),
            (r matches Some(bytes) ==> bytes@ == encode_range(self@.core, start, length)),
    {
        if (start as u32) + (length as u32) > 0xffff {
            return None;
        }
        let mut bytes: Vec<u8> = Vec::new();
        let mut i = start;
        while i < length
            invariant
                start <= i <= length || (i == start && length <= start),
                length <= 0x8000,
                self.wf(),
                bytes@ == encode_range(self@.core, start, i),
            decreases length - i,
        {
            let cell = self.core[i as usize];
            bytes.push((cell % 0x100) as u8);
            bytes.push((cell / 0x100) as u8);
            i = i + 1;
            proof {
                assert(bytes@ =~= encode_range(self@.core, start, i));
            }
        }
        Some(bytes)
    }

    /// The byte image of the whole core, `2 * CORE_SIZE` bytes.
    pub fn save(&self) -> (r: Option<Vec<u8>>)
        requires
            self.wf(),
        ensures
            (r matches Some(bytes) && bytes@ == image_bytes(self@.core)),
    {
        self.save_block(0, CORE_SIZE as u16)
    }

    /// Load a byte image: reset the registers, then fill consecutive
    /// cells from little-endian byte pairs until the stream or the
    /// core runs out. Returns the count of cells filled; a trailing
    /// lone byte is not a cell and ends the load before it.
    pub fn load(&mut self, input: &Vec<u8>) -> (r: Option<u16>)
        requires
            old(self).wf(),
        ensures
            final(self).wf(),
            final(self)@.pc == 0 && final(self)@.rp == RP0 && final(self)@.sp == SP0
                && final(self)@.t == 0,
            final(self)@.core == load_core(old(self)@.core, input@),
            r == Some(loaded_cells(input@) as u16),
            final(self).tracing == old(self).tracing && final(self).count == old(self).count,
    {
        self.reset();
        let cells: usize = if input.len() / 2 < CORE_SIZE {
            input.len() / 2
        } else {
            CORE_SIZE
        };
        let mut i: usize = 0;
        while i < cells
            invariant
                i <= cells,
                cells == loaded_cells(input@),
                cells <= CORE_SIZE,
                2 * cells <= input@.len(),
                self.wf(),
                self@.pc == 0 && self@.rp == RP0 && self@.sp == SP0 && self@.t == 0,
                self.tracing == old(self).tracing && self.count == old(self).count,
                forall|k: int|
                    0 <= k < CORE_SIZE ==> self@.core[k] == (if k < i {
                        load_core(old(self)@.core, input@)[k]
                    } else {
                        old(self)@.core[k]
                    }),
            decreases cells - i,
        {
            let lo = input[2 * i];
            let hi = input[2 * i + 1];
            self.core[i] = (lo as u16) + 0x100 * (hi as u16);
            i = i + 1;
        }
        proof {
            assert(self@.core =~= load_core(old(self)@.core, input@));
        }
        Some(cells as u16)
    }
}

/// Image round-trip: loading the byte image of a core reproduces that
/// core exactly, whatever core it is loaded over, and fills all
/// `CORE_SIZE` cells.
pub proof fn lemma_image_round_trip(core: Seq<u16>, over: Seq<u16>)
    requires
        core.len() == CORE_SIZE,
    ensures
        load_core(over, image_bytes(core)) == core,
        loaded_cells(image_bytes(core)) == CORE_SIZE,
{
    let bytes = image_bytes(core);
    assert(bytes.len() == 2 * CORE_SIZE);
    assert forall|i: int| 0 <= i < CORE_SIZE implies load_core(over, bytes)[i] == core[i] by {
        assert(bytes[2 * i] == lo_byte(core[i]));
        assert(bytes[2 * i + 1] == hi_byte(core[i]));
    }
    assert(load_core(over, bytes) =~= core);
}

} // verus!
