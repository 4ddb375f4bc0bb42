use vstd::prelude::*;

verus! {

/// A 16-bit value seen as a pair of bytes.
#[derive(Debug, Clone, Copy, PartialEq, Eq, Structural)]
pub struct Word {
    pub data: u16,
}

impl Word {
    /// The word whose high byte is `hi` and low byte is `lo`.
    pub fn new(hi: u8, lo: u8) -> (r: Self)
        ensures
            r.data == hi as int * 256 + lo as int,
    {
        let val: u16 = (hi as u16) * 256 + (lo as u16);
        Self { data: val }
    }

    /// The high byte.
    pub fn hi(&self) -> (r: u8)
        ensures
            r == self.data / 256,
    {
        (self.data / 256) as u8
    }

    /// The low byte.
    pub fn lo(&self) -> (r: u8)
        ensures
            r == self.data % 256,
    {
        (self.data % 256) as u8
    }
}

} // verus!
