//! The names of the variables.

use vstd::prelude::*;

verus! {

/// The name of a variable: a tag and an index.
#[derive(Debug, Clone, Copy, PartialEq, Eq, Hash, Structural)]
pub struct Key {
    pub tag: u8,
    pub index: u64,
}

impl Key {
    /// The key of the given tag and index.
    pub fn new(tag: u8, index: u64) -> (r: Key)
        ensures
            r == (Key { tag, index }),
    {
        Key { tag, index }
    }

    /// The number that stands for the key: the tag in front of the index.
    pub open spec fn code_model(self) -> int {
        self.tag * 0x1_0000_0000_0000_0000 + self.index
    }

    /// The number that stands for the key; different keys have different
    /// numbers.
    pub fn code(&self) -> (r: u128)
        ensures
            r == self.code_model(),
    {
        (self.tag as u128) * 0x1_0000_0000_0000_0000u128 + (self.index as u128)
    }

    /// Two keys with one number are one key.
    pub proof fn lemma_code_injective(a: Key, b: Key)
        requires
            a.code_model() == b.code_model(),
        ensures
            a == b,
    {
    }
}

} // verus!
