//! The text-mode framebuffer: a fixed region of interleaved
//! (character, attribute) byte pairs, one pair per screen cell, in
//! row-major order, with a bounds-checked write interface.

use vstd::prelude::*;

verus! {

/// Number of text rows on the display.
pub const ROW_COUNT: usize = 25;

/// Number of text columns on the display.
pub const COLUMN_COUNT: usize = 80;

/// Number of cells on the display.
pub const TOTAL_CELL_COUNT: usize = ROW_COUNT * COLUMN_COUNT;

/// Bytes per cell: one character byte and one attribute byte.
pub const BYTES_PER_CELL: usize = 2;

/// Size of the whole mapped region in bytes.
pub const FRAME_BYTE_COUNT: usize = TOTAL_CELL_COUNT * BYTES_PER_CELL;

/// Attribute byte for light cyan text on a black background.
pub const LIGHT_CYAN_ON_BLACK: u8 = 0x0b;

/// Why a write pass was refused.
#[derive(Clone, Copy, Debug, PartialEq, Eq, Structural)]
pub enum RenderError {
    /// The message holds more characters than the display has cells.
    /// Policy: such a message is rejected whole; no byte is written.
    BoundsViolation,
    /// The writer has routed an unrecoverable fault to its handler and
    /// accepts no further work.
    Faulted,
}

/// The bytes of a frame after one write pass: for each message index
/// `k`, byte `2 * k` holds the character and byte `2 * k + 1` the
/// attribute; every byte at or beyond `2 * message.len()` keeps the
/// value it had before.
pub open spec fn rendered(before: Seq<u8>, message: Seq<u8>, attribute: u8) -> Seq<u8> {
    Seq::new(
        before.len(),
        |j: int|
            if j < 2 * message.len() {
                if j % 2 == 0 {
                    message[j / 2]
                } else {
                    attribute
                }
            } else {
                before[j]
            },
    )
}

/// The memory-mapped text display, held here as plain bytes. On the
/// real machine the region is hardware-owned at a fixed address; this
/// type centralizes the one safety-critical invariant of writing to
/// it: no write ever lands at or beyond the end of the region.
pub struct Framebuffer {
    cells: Vec<u8>,
}

impl View for Framebuffer {
    type V = Seq<u8>;

    closed spec fn view(&self) -> Seq<u8> {
        self.cells@
    }
}

impl Framebuffer {
    /// The region always spans exactly the mapped size.
    pub closed spec fn wf(&self) -> bool {
        self.cells@.len() == FRAME_BYTE_COUNT
    }

    /// A fresh frame with every byte cleared.
    pub fn new() -> (fb: Framebuffer)
        ensures
            fb.wf(),
            fb@.len() == FRAME_BYTE_COUNT,
            forall|j: int| 0 <= j < fb@.len() ==> fb@[j] == 0u8,
    {
        let mut cells: Vec<u8> = Vec::new();
        let mut i: usize = 0;
        while i < FRAME_BYTE_COUNT
            invariant
                i <= FRAME_BYTE_COUNT,
                cells@.len() == i,
                forall|j: int| 0 <= j < i ==> cells@[j] == 0u8,
            decreases FRAME_BYTE_COUNT - i,
        {
            cells.push(0);
            i = i + 1;
        }
        Framebuffer { cells }
    }

    /// Write one cell: the character byte, then the attribute byte.
    /// The index is validated here, so no caller can reach a byte at
    /// or beyond the end of the region; an out-of-range index writes
    /// nothing and reports `false`.
    pub fn write_cell(&mut self, index: usize, character: u8, attribute: u8) -> (ok: bool)
        requires
            old(self).wf(),
        ensures
            final(self).wf(),
            ok <==> index < TOTAL_CELL_COUNT,
            ok ==> final(self)@ == old(self)@.update(2 * index as int, character).update(
                2 * index as int + 1,
                attribute,
            ),
            !ok ==> final(self)@ == old(self)@,
    {
        if index < TOTAL_CELL_COUNT {
            self.cells.set(2 * index, character);
            self.cells.set(2 * index + 1, attribute);
            true
        } else {
            false
        }
    }

    /// Read one cell back as (character, attribute); `None` past the
    /// end of the display.
    pub fn read_cell(&self, index: usize) -> (r: Option<(u8, u8)>)
        requires
            self.wf(),
        ensures
            index < TOTAL_CELL_COUNT ==> r == Some(
                (self@[2 * index as int], self@[2 * index as int + 1]),
            ),
            index >= TOTAL_CELL_COUNT ==> r is None,
    {
        if index < TOTAL_CELL_COUNT {
            Some((self.cells[2 * index], self.cells[2 * index + 1]))
        } else {
            None
        }
    }

    /// One write pass: put `message` onto the display from cell 0,
    /// every written cell carrying `attribute`. A message longer than
    /// the display is rejected whole — the deliberate bounds policy —
    /// and the frame is left untouched.
    pub fn render(&mut self, message: &Vec<u8>, attribute: u8) -> (result: Result<
        (),
        RenderError,
    >)
        requires
            old(self).wf(),
        ensures
            final(self).wf(),
            result is Ok <==> message@.len() <= TOTAL_CELL_COUNT,
            message@.len() <= TOTAL_CELL_COUNT ==> final(self)@ == rendered(
                old(self)@,
                message@,
                attribute,
            ),
            message@.len() > TOTAL_CELL_COUNT ==> result == Err::<(), RenderError>(
                RenderError::BoundsViolation,
            ) && final(self)@ == old(self)@,
            result is Ok ==> forall|k: int|
                0 <= k < message@.len() ==> final(self)@[2 * k] == message@[k] && final(self)@[2
                    * k + 1] == attribute,
            result is Ok ==> forall|j: int|
                2 * message@.len() <= j < final(self)@.len() ==> final(self)@[j] == old(self)@[j],
    {
        if message.len() > TOTAL_CELL_COUNT {
            return Err(RenderError::BoundsViolation);
        }
        let ghost before: Seq<u8> = self@;
        let mut i: usize = 0;
        while i < message.len()
            invariant
                self.wf(),
                message@.len() <= TOTAL_CELL_COUNT,
                i <= message@.len(),
                self@.len() == before.len(),
                forall|k: int| 0 <= k < i ==> self@[2 * k] == message@[k],
                forall|k: int| 0 <= k < i ==> #[trigger] self@[2 * k + 1] == attribute,
                forall|j: int| 2 * i <= j < self@.len() ==> self@[j] == before[j],
            decreases message@.len() - i,
        {
            self.write_cell(i, message[i], attribute);
            i = i + 1;
        }
        proof {
            let target = rendered(before, message@, attribute);
            assert forall|j: int| 0 <= j < self@.len() implies self@[j] == target[j] by {
                if j < 2 * message@.len() {
                    let k = j / 2;
                    assert(j == 2 * k + j % 2);
                    if j % 2 == 0 {
                        assert(self@[2 * k] == message@[k]);
                    } else {
                        assert(self@[2 * k + 1] == attribute);
                    }
                }
            }
            assert(self@ =~= target);
        }
        Ok(())
    }
}

/// Rendering the same message with the same attribute twice leaves
/// exactly the bytes that rendering it once leaves: the write pass is
/// idempotent.
pub proof fn lemma_render_idempotent(before: Seq<u8>, message: Seq<u8>, attribute: u8)
    ensures
        rendered(rendered(before, message, attribute), message, attribute) == rendered(
            before,
            message,
            attribute,
        ),
{
    let once = rendered(before, message, attribute);
    let twice = rendered(once, message, attribute);
    assert forall|j: int| 0 <= j < twice.len() implies twice[j] == once[j] by {}
    assert(twice =~= once);
}

} // verus!
