//! Controller port: a latched shift register handing out one button bit
//! per read from `$4016`.

use vstd::prelude::*;

verus! {

/// Button bit for A.
pub const BUTTON_A: u8 = 0x01;

/// Button bit for B.
pub const BUTTON_B: u8 = 0x02;

/// Button bit for Select.
pub const BUTTON_SELECT: u8 = 0x04;

/// Button bit for Start.
pub const BUTTON_START: u8 = 0x08;

/// Button bit for Up.
pub const BUTTON_UP: u8 = 0x10;

/// Button bit for Down.
pub const BUTTON_DOWN: u8 = 0x20;

/// Button bit for Left.
pub const BUTTON_LEFT: u8 = 0x40;

/// Button bit for Right.
pub const BUTTON_RIGHT: u8 = 0x80;

/// One controller: the latch register, the queued button bits, the
/// read counter selecting the next bit to hand out, and the buttons
/// the host reported last.
#[derive(Clone, Copy, Debug, PartialEq, Eq, Structural)]
pub struct Joypad {
    pub register: u8,
    pub state: u8,
    pub counter: u8,
    pub live: u8,
}

impl Joypad {
    /// A controller with nothing latched and nothing pressed.
    pub fn new() -> (r: Joypad)
        ensures
            r == (Joypad { register: 0u8, state: 0u8, counter: 0u8, live: 0u8 }),
    {
        Joypad { register: 0u8, state: 0u8, counter: 0u8, live: 0u8 }
    }

    /// A CPU read from a controller port: `$4016` shifts out one button
    /// bit; `$4017` (the second pad) always reads 0.
    pub fn read(&mut self, addr: u16) -> (r: u8)
        requires
            addr == 0x4016 || addr == 0x4017,
        ensures
            addr == 0x4016 ==> r == spec_read_bit(*old(self)) && *final(self) == spec_read_next(
                *old(self),
            ),
            addr == 0x4017 ==> r == 0 && *final(self) == *old(self),
    {
        if addr == 0x4016 {
            self.read_state()
        } else {
            0x00
        }
    }

    /// A CPU write to a controller port: `$4016` stores the latch
    /// register, and with bit 0 set copies the live button state into
    /// the shift register and rewinds the read counter; `$4017` is
    /// ignored.
    pub fn write(&mut self, addr: u16, data: u8)
        requires
            addr == 0x4016 || addr == 0x4017,
        ensures
            addr == 0x4016 ==> *final(self) == (if data & 0x01 == 0x01 {
                Joypad { register: data, state: old(self).live, counter: 0u8, ..*old(self) }
            } else {
                Joypad { register: data, ..*old(self) }
            }),
            addr == 0x4017 ==> *final(self) == *old(self),
    {
        if addr == 0x4016 {
            self.register = data;
            if (data & 0x01) == 0x01 {
                self.state = self.live;
                self.counter = 0;
            }
        }
    }

    /// The host reports the buttons held right now; while the latch bit
    /// is set, the state is also copied into the shift register and the
    /// read counter rewinds.
    pub fn set_button_state(&mut self, state: u8)
        ensures
            *final(self) == (if old(self).register & 0x01 == 0x01 {
                Joypad { state, counter: 0u8, live: state, ..*old(self) }
            } else {
                Joypad { live: state, ..*old(self) }
            }),
    {
        self.live = state;
        if (self.register & 0x01) == 0x01 {
            self.reset();
            self.state = state;
        }
    }

    /// Rewind the read counter to button A.
    pub fn reset(&mut self)
        ensures
            *final(self) == (Joypad { counter: 0u8, ..*old(self) }),
    {
        self.counter = 0u8;
    }

    /// Shift out the bit the read counter selects; the counter advances,
    /// saturating at 7.
    pub fn read_state(&mut self) -> (r: u8)
        ensures
            r == spec_read_bit(*old(self)),
            *final(self) == spec_read_next(*old(self)),
    {
        let shift: u8 = self.counter % 8;
        let result = (self.state >> shift) & 0x01;
        if self.counter < 0x07 {
            self.counter = self.counter + 1;
        }
        result
    }
}

/// The bit a `$4016` read returns: bit `counter` of the shift register.
pub open spec fn spec_read_bit(j: Joypad) -> u8 {
    (j.state >> ((j.counter % 8) as u8)) & 0x01
}

/// The controller after a `$4016` read: the counter advances, saturating
/// at 7.
pub open spec fn spec_read_next(j: Joypad) -> Joypad {
    if j.counter < 7 {
        Joypad { counter: (j.counter + 1) as u8, ..j }
    } else {
        j
    }
}

} // verus!
