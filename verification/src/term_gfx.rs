//! The framebuffer as text for a terminal.

use vstd::prelude::*;

verus! {

/// Cells in one line of text.
pub const LINE_CELLS: usize = 64;

/// The line feed that starts every line of cells.
pub const LINE_FEED: u8 = 0x0A;

/// The character for a pixel that is off: a space.
pub const OFF: u8 = 0x20;

/// The character for a pixel that is on: `X`.
pub const ON: u8 = 0x58;

/// The escape sequence that clears the terminal: `ESC [ 2 J`.
pub open spec fn clear_screen() -> Seq<u8> {
    seq![0x1Bu8, 0x5Bu8, 0x32u8, 0x4Au8]
}

/// The character for one cell.
pub open spec fn cell_char(cell: u8) -> u8 {
    if cell == 0 {
        OFF
    } else {
        ON
    }
}

/// The length of the text for `cells` cells: one character for each, and one
/// line feed for every line of 64 that they start.
pub open spec fn lines_len(cells: int) -> int {
    cells + (cells + 63) / 64
}

/// The cells as lines of text: every line is a line feed and then up to 64
/// characters, so the character at `k` is a line feed if `k` is a multiple
/// of 65, and else stands for cell `k mod 65 - 1` of line `k / 65`.
pub open spec fn lines(buffer: Seq<u8>) -> Seq<u8> {
    Seq::new(
        lines_len(buffer.len() as int) as nat,
        |k: int|
            if k % 65 == 0 {
                LINE_FEED
            } else {
                cell_char(buffer[(k / 65) * 64 + k % 65 - 1])
            },
    )
}

/// The text that shows `buffer` on a terminal: its lines, and then the
/// escape sequence that clears the screen for the next frame.
pub open spec fn frame_text(buffer: Seq<u8>) -> Seq<u8> {
    lines(buffer) + clear_screen()
}

/// A renderer of the framebuffer as text.
pub struct TermGfx {}

impl TermGfx {
    /// A renderer. It holds no state.
    pub fn new() -> (gfx: TermGfx) {
        TermGfx {}
    }

    /// The bytes to write to the terminal to show `buffer`: a cell that is
    /// 0 as a space and any other as `X`, 64 cells to a line.
    pub fn composite(&self, buffer: &[u8]) -> (text: Vec<u8>)
        ensures
            text@ == frame_text(buffer@),
    {
        let mut text: Vec<u8> = Vec::new();
        let len = buffer.len();
        let mut p: usize = 0;
        while p < len
            invariant
                p <= len,
                len == buffer@.len(),
                text@.len() == lines_len(p as int),
                forall|k: int|
                    0 <= k < text@.len() ==> text@[k] == if k % 65 == 0 {
                        LINE_FEED
                    } else {
                        cell_char(buffer@[(k / 65) * 64 + k % 65 - 1])
                    },
            decreases len - p,
        {
            if p % LINE_CELLS == 0 {
                text.push(LINE_FEED);
            }
            if buffer[p] == 0 {
                text.push(OFF);
            } else {
                text.push(ON);
            }
            p += 1;
        }
        text.push(0x1B);
        text.push(0x5B);
        text.push(0x32);
        text.push(0x4A);
        text
    }
}

} // verus!
