//! NR50 / NR51 routing and master-volume registers.

use vstd::prelude::*;

verus! {

#[derive(Debug, Clone, Copy, PartialEq, Eq)]
pub struct Mixer {
    pub nr50: u8,
    pub nr51: u8,
}

impl Mixer {
    pub fn new() -> (m: Self)
        ensures
            m.nr50 == 0 && m.nr51 == 0,
    {
        Self { nr50: 0, nr51: 0 }
    }

    pub fn power_off(&mut self)
        ensures
            final(self).nr50 == 0 && final(self).nr51 == 0,
    {
        self.nr50 = 0;
        self.nr51 = 0;
    }

    pub fn read_nr50(&self) -> (r: u8)
        ensures
            r == self.nr50,
    {
        self.nr50
    }

    pub fn read_nr51(&self) -> (r: u8)
        ensures
            r == self.nr51,
    {
        self.nr51
    }

    pub fn write_nr50(&mut self, value: u8)
        ensures
            *final(self) == (Mixer { nr50: value, ..*old(self) }),
    {
        self.nr50 = value;
    }

    pub fn write_nr51(&mut self, value: u8)
        ensures
            *final(self) == (Mixer { nr51: value, ..*old(self) }),
    {
        self.nr51 = value;
    }
}

} // verus!
