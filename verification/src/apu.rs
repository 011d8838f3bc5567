//! Audio processing unit stub: it accepts register writes and hands out
//! a silent sample buffer; no synthesis is modelled.

use vstd::prelude::*;

verus! {

/// Sound samples per second of the stub buffer.
pub const SAMPLING_RATE: usize = 22050;

/// The APU stub: one second of sample storage and a read position.
pub struct Apu {
    pub data: Vec<u8>,
    pub read_position: usize,
}

impl Apu {
    /// A silent APU.
    pub fn new() -> (r: Apu)
        ensures
            r.data@.len() == SAMPLING_RATE,
            r.read_position == 0,
            forall|i: int| 0 <= i < SAMPLING_RATE ==> r.data@[i] == 0u8,
    {
        let mut data: Vec<u8> = Vec::new();
        let mut i: usize = 0;
        while i < SAMPLING_RATE
            invariant
                i <= SAMPLING_RATE,
                data@.len() == i,
                forall|j: int| 0 <= j < i ==> data@[j] == 0u8,
            decreases SAMPLING_RATE - i,
        {
            data.push(0u8);
            i += 1;
        }
        Apu { data, read_position: 0 }
    }

    /// One APU clock; the stub does nothing.
    pub fn tick(&mut self)
        ensures
            *final(self) == *old(self),
    {
    }

    /// Fill `sound` from the sample buffer, advancing the read position
    /// and wrapping at the buffer's end.
    pub fn render_sound_buffer(&mut self, sound: &mut Vec<u8>)
        requires
            old(self).data@.len() == SAMPLING_RATE,
            old(self).read_position < SAMPLING_RATE,
        ensures
            final(self).data == old(self).data,
            final(self).read_position < SAMPLING_RATE,
            final(sound)@.len() == old(sound)@.len(),
            forall|i: int|
                0 <= i < old(sound)@.len() ==> final(sound)@[i] == old(self).data@[(old(
                    self,
                ).read_position + i) % (SAMPLING_RATE as int)],
    {
        let n = sound.len();
        let mut i: usize = 0;
        while i < n
            invariant
                self.data@.len() == SAMPLING_RATE,
                self.data == old(self).data,
                n == sound@.len(),
                i <= n,
                self.read_position < SAMPLING_RATE,
                self.read_position == (old(self).read_position + i) % (SAMPLING_RATE as int),
                forall|j: int|
                    0 <= j < i ==> sound@[j] == old(self).data@[(old(self).read_position + j) % (
                    SAMPLING_RATE as int)],
                forall|j: int| i <= j < n ==> sound@[j] == old(sound)@[j],
            decreases n - i,
        {
            let v = self.data[self.read_position];
            sound[i] = v;
            self.read_position = (self.read_position + 1) % SAMPLING_RATE;
            i += 1;
        }
    }

    /// A CPU write to an APU register; the stub drops it.
    pub fn write(&mut self, addr: u16, data: u8)
        requires
            0x4000 <= addr <= 0x4013,
        ensures
            *final(self) == *old(self),
    {
    }
}

} // verus!
