use vstd::prelude::*;

verus! {

/// The single-bit fields of an instruction (S, W, D, V, Z), packed in one byte.
pub struct SingleBits(pub u8);

impl SingleBits {
    pub const S_MASK: u8 = 0b10000;
    pub const W_MASK: u8 = 0b01000;
    pub const D_MASK: u8 = 0b00100;
    pub const V_MASK: u8 = 0b00010;
    pub const Z_MASK: u8 = 0b00001;

    pub fn new() -> (r: Self)
        ensures
            r.0 == 0,
    {
        SingleBits(0)
    }

    pub fn s(&self) -> (r: u8)
        ensures
            r == self.0 & Self::S_MASK,
    {
        self.0 & Self::S_MASK
    }

    pub fn w(&self) -> (r: u8)
        ensures
            r == self.0 & Self::W_MASK,
    {
        self.0 & Self::W_MASK
    }

    pub fn d(&self) -> (r: u8)
        ensures
            r == self.0 & Self::D_MASK,
    {
        self.0 & Self::D_MASK
    }

    pub fn v(&self) -> (r: u8)
        ensures
            r == self.0 & Self::V_MASK,
    {
        self.0 & Self::V_MASK
    }

    pub fn z(&self) -> (r: u8)
        ensures
            r == self.0 & Self::Z_MASK,
    {
        self.0 & Self::Z_MASK
    }

    pub fn set_s(&mut self)
        ensures
            final(self).0 == old(self).0 | Self::S_MASK,
    {
        self.0 = self.0 | Self::S_MASK;
    }

    pub fn set_w(&mut self)
        ensures
            final(self).0 == old(self).0 | Self::W_MASK,
    {
        self.0 = self.0 | Self::W_MASK;
    }

    pub fn set_d(&mut self)
        ensures
            final(self).0 == old(self).0 | Self::D_MASK,
    {
        self.0 = self.0 | Self::D_MASK;
    }

    pub fn set_v(&mut self)
        ensures
            final(self).0 == old(self).0 | Self::V_MASK,
    {
        self.0 = self.0 | Self::V_MASK;
    }

    pub fn set_z(&mut self)
        ensures
            final(self).0 == old(self).0 | Self::Z_MASK,
    {
        self.0 = self.0 | Self::Z_MASK;
    }
}

} // verus!
