use vstd::prelude::*;

verus! {

// Bits of the button byte, in the order the serial port reports them.
pub const BUTTON_A: u8 = 0b0000_0001;
pub const BUTTON_B: u8 = 0b0000_0010;
pub const BUTTON_SELECT: u8 = 0b0000_0100;
pub const BUTTON_START: u8 = 0b0000_1000;
pub const BUTTON_UP: u8 = 0b0001_0000;
pub const BUTTON_DOWN: u8 = 0b0010_0000;
pub const BUTTON_LEFT: u8 = 0b0100_0000;
pub const BUTTON_RIGHT: u8 = 0b1000_0000;

/// Bit `i` of the button byte `status`, as the serial port reports it.
pub open spec fn button_bit(status: u8, i: u8) -> u8 {
    if status & (1u8 << i) != 0 { 1 } else { 0 }
}

/// The character that shows button `i` (A, B, Select, Start, Up, Down,
/// Left, Right) as pressed.
pub open spec fn button_char(i: int) -> char {
    if i == 0 {
        'A'
    } else if i == 1 {
        'B'
    } else if i == 2 {
        'L'
    } else if i == 3 {
        'S'
    } else if i == 4 {
        '^'
    } else if i == 5 {
        'V'
    } else if i == 6 {
        '<'
    } else {
        '>'
    }
}

/// The standard controller's serial port (0x4016).
pub struct Controller {
    /// Which button the next read reports.
    pub index: u8,
    /// The latched buttons, A in bit 0 up to Right in bit 7.
    pub status: u8,
    pub strobe: bool,
}

impl Controller {
    /// A read of the port: the reported bit and the controller after it.
    pub open spec fn read_spec(self) -> (u8, Controller) {
        if self.index > 7 {
            (1, self)
        } else {
            (
                button_bit(self.status, self.index),
                if self.strobe { self } else { Controller { index: (self.index + 1) as u8, ..self } },
            )
        }
    }

    /// A write to the port: 1 starts the strobe and rewinds, anything else ends it.
    pub open spec fn write_spec(self, data: u8) -> Controller {
        if data == 1 {
            Controller { strobe: true, index: 0, ..self }
        } else {
            Controller { strobe: false, ..self }
        }
    }

    /// What `n` reads in a row report.
    pub open spec fn read_seq(self, n: nat) -> Seq<u8>
        decreases n,
    {
        if n == 0 {
            Seq::empty()
        } else {
            seq![self.read_spec().0] + self.read_spec().1.read_seq((n - 1) as nat)
        }
    }

    pub fn new() -> (r: Self)
        ensures
            r.index == 0,
            r.status == 0,
            !r.strobe,
    {
        Controller { index: 0, status: 0, strobe: false }
    }

    /// Reports the button at the read index; without strobe, moves to the next.
    pub fn read(&mut self) -> (r: u8)
        ensures
            (r, *final(self)) == old(self).read_spec(),
    {
        if self.index > 7 {
            return 1;
        }
        let ret: u8 = if self.status & (1u8 << self.index) != 0 {
            1
        } else {
            0
        };
        if !self.strobe {
            self.index = self.index + 1;
        }
        ret
    }

    /// Writing 1 sets the strobe and rewinds the read index; anything else clears it.
    pub fn write(&mut self, data: u8)
        ensures
            *final(self) == old(self).write_spec(data),
    {
        if data == 1 {
            self.strobe = true;
            self.index = 0;
        } else {
            self.strobe = false;
        }
    }

    /// Eight characters, one per button from A to Right: its symbol when
    /// pressed, a space when not.
    pub fn display_chars(&self) -> (r: Vec<char>)
        ensures
            r@.len() == 8,
            forall|i: int|
                0 <= i < 8 ==> #[trigger] r@[i] == (if button_bit(self.status, i as u8) == 1 {
                    button_char(i)
                } else {
                    ' '
                }),
    {
        let symbols: [char; 8] = ['A', 'B', 'L', 'S', '^', 'V', '<', '>'];
        let mut r: Vec<char> = Vec::new();
        let mut i: u8 = 0;
        while i < 8
            invariant
                i <= 8,
                r@.len() == i,
                symbols@ == seq!['A', 'B', 'L', 'S', '^', 'V', '<', '>'],
                forall|j: int|
                    0 <= j < i ==> #[trigger] r@[j] == (if button_bit(self.status, j as u8) == 1 {
                        button_char(j)
                    } else {
                        ' '
                    }),
            decreases 8 - i,
        {
            if self.status & (1u8 << i) != 0 {
                r.push(symbols[i as usize]);
            } else {
                r.push(' ');
            }
            i = i + 1;
        }
        r
    }

    /// Latches the buttons that the host found pressed (A in bit 0 up to
    /// Right in bit 7).
    pub fn read_keys(&mut self, pressed: u8)
        ensures
            final(self).status == pressed,
            final(self).index == old(self).index,
            final(self).strobe == old(self).strobe,
    {
        self.status = pressed;
    }
}

/// With the strobe clear, successive reads report the latched buttons from
/// the read index on, one bit each, and 1 once all eight have been reported.
pub proof fn lemma_serial_reads(c: Controller, n: nat)
    requires
        !c.strobe,
    ensures
        c.read_seq(n).len() == n,
        forall|i: int|
            0 <= i < n ==> #[trigger] c.read_seq(n)[i] == (if c.index + i < 8 {
                button_bit(c.status, (c.index + i) as u8)
            } else {
                1
            }),
    decreases n,
{
    if n > 0 {
        let next = c.read_spec().1;
        lemma_serial_reads(next, (n - 1) as nat);
        assert forall|i: int| 0 <= i < n implies #[trigger] c.read_seq(n)[i] == (if c.index + i
            < 8 {
            button_bit(c.status, (c.index + i) as u8)
        } else {
            1
        }) by {
            if i > 0 {
                assert(c.read_seq(n)[i] == next.read_seq((n - 1) as nat)[i - 1]);
            }
        }
    }
}

/// After a strobe (a write of 1, then of 0), the i-th read reports bit i
/// of the latched buttons, and every read after the eighth reports 1.
pub proof fn lemma_strobe_then_reads(c: Controller, n: nat)
    ensures
        ({
            let r = c.write_spec(1).write_spec(0).read_seq(n);
            &&& r.len() == n
            &&& forall|i: int|
                0 <= i < n ==> #[trigger] r[i] == (if i < 8 {
                    button_bit(c.status, i as u8)
                } else {
                    1
                })
        }),
{
    lemma_serial_reads(c.write_spec(1).write_spec(0), n);
}

} // verus!
