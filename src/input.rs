//! The joypad as seen through FF00.

use vstd::prelude::*;

verus! {

/// The eight buttons of the joypad.
#[derive(Clone, Copy, Debug, PartialEq, Eq, Structural)]
pub enum Button {
    Start,
    Select,
    B,
    A,
    Down,
    Up,
    Left,
    Right,
}

/// Row 0 holds the action buttons, row 1 the directions.
pub open spec fn button_row(b: Button) -> int {
    match b {
        Button::Start | Button::Select | Button::B | Button::A => 0,
        _ => 1,
    }
}

/// The bit of a button within its row.
pub open spec fn button_bit(b: Button) -> u8 {
    match b {
        Button::Start | Button::Down => 0x8,
        Button::Select | Button::Up => 0x4,
        Button::B | Button::Left => 0x2,
        Button::A | Button::Right => 0x1,
    }
}

/// Joypad state as the program sees it through FF00. Buttons are active-low:
/// a pressed button reads as a cleared bit.
#[derive(Clone, Copy, Debug)]
pub struct Input {
    /// Low nibbles of the action row and the direction row.
    pub rows: [u8; 2],
    /// Column selection bits (4 and 5) last written to FF00.
    pub column: u8,
}

/// AND, OR and AND-NOT keep two nibbles within a nibble.
proof fn lemma_nibble_ops(x: u8, b: u8)
    requires
        x <= 0x0F,
        b <= 0x0F,
    ensures
        x & !b <= 0x0F,
        x | b <= 0x0F,
        x & b <= 0x0F,
{
    assert(x & !b <= 0x0F && x | b <= 0x0F && x & b <= 0x0F) by (bit_vector)
        requires
            x <= 0x0F,
            b <= 0x0F,
    ;
}

impl Input {
    /// Both rows hold only their low four bits.
    pub open spec fn wf(&self) -> bool {
        self.rows[0] <= 0x0F && self.rows[1] <= 0x0F
    }

    /// The low nibble a read of FF00 returns for the selected column(s):
    /// 0x10 selects the action buttons, 0x20 the directions.
    pub open spec fn read_spec(&self) -> u8 {
        if self.column == 0x10 {
            self.rows[0]
        } else if self.column == 0x20 {
            self.rows[1]
        } else if self.column == 0 {
            self.rows[0] & self.rows[1]
        } else {
            0x0F
        }
    }

    pub fn new() -> (r: Self)
        ensures
            r.wf(),
            r.rows@ == seq![0x0Fu8, 0x0Fu8],
            r.column == 0,
    {
        Input { rows: [0x0F, 0x0F], column: 0 }
    }

    /// Releases every button and clears the column selection.
    pub fn reset(&mut self)
        ensures
            final(self).wf(),
            final(self).rows@ == seq![0x0Fu8, 0x0Fu8],
            final(self).column == 0,
    {
        self.rows = [0x0F, 0x0F];
        self.column = 0;
    }

    /// The button bits of the selected row.
    pub fn rb(&self) -> (r: u8)
        requires
            self.wf(),
        ensures
            r == self.read_spec(),
            r <= 0x0F,
    {
        proof {
            lemma_nibble_ops(self.rows[0], self.rows[1]);
        }
        if self.column == 0x10 {
            self.rows[0]
        } else if self.column == 0x20 {
            self.rows[1]
        } else if self.column == 0 {
            self.rows[0] & self.rows[1]
        } else {
            0x0F
        }
    }

    /// Latches the column selection bits of a write to FF00.
    pub fn wb(&mut self, data: u8)
        requires
            old(self).wf(),
        ensures
            final(self).wf(),
            final(self).column == data & 0x30,
            final(self).rows == old(self).rows,
    {
        self.column = data & 0x30;
    }

    pub fn key_press(&mut self, b: Button)
        requires
            old(self).wf(),
        ensures
            final(self).wf(),
            final(self).column == old(self).column,
            final(self).rows@ == old(self).rows@.update(
                button_row(b),
                old(self).rows@[button_row(b)] & !button_bit(b),
            ),
    {
        proof {
            lemma_nibble_ops(self.rows[0], button_bit(b));
            lemma_nibble_ops(self.rows[1], button_bit(b));
        }
        match b {
            Button::Start => { self.rows[0] = self.rows[0] & !0x8u8; },
            Button::Select => { self.rows[0] = self.rows[0] & !0x4u8; },
            Button::B => { self.rows[0] = self.rows[0] & !0x2u8; },
            Button::A => { self.rows[0] = self.rows[0] & !0x1u8; },
            Button::Down => { self.rows[1] = self.rows[1] & !0x8u8; },
            Button::Up => { self.rows[1] = self.rows[1] & !0x4u8; },
            Button::Left => { self.rows[1] = self.rows[1] & !0x2u8; },
            Button::Right => { self.rows[1] = self.rows[1] & !0x1u8; },
        }
        assert(self.rows@ =~= old(self).rows@.update(
            button_row(b),
            old(self).rows@[button_row(b)] & !button_bit(b),
        ));
    }

    pub fn key_release(&mut self, b: Button)
        requires
            old(self).wf(),
        ensures
            final(self).wf(),
            final(self).column == old(self).column,
            final(self).rows@ == old(self).rows@.update(
                button_row(b),
                old(self).rows@[button_row(b)] | button_bit(b),
            ),
    {
        proof {
            lemma_nibble_ops(self.rows[0], button_bit(b));
            lemma_nibble_ops(self.rows[1], button_bit(b));
        }
        match b {
            Button::Start => { self.rows[0] = self.rows[0] | 0x8; },
            Button::Select => { self.rows[0] = self.rows[0] | 0x4; },
            Button::B => { self.rows[0] = self.rows[0] | 0x2; },
            Button::A => { self.rows[0] = self.rows[0] | 0x1; },
            Button::Down => { self.rows[1] = self.rows[1] | 0x8; },
            Button::Up => { self.rows[1] = self.rows[1] | 0x4; },
            Button::Left => { self.rows[1] = self.rows[1] | 0x2; },
            Button::Right => { self.rows[1] = self.rows[1] | 0x1; },
        }
        assert(self.rows@ =~= old(self).rows@.update(
            button_row(b),
            old(self).rows@[button_row(b)] | button_bit(b),
        ));
    }
}

} // verus!
