//! Inputs of the harness.

use vstd::prelude::*;

verus! {

/// An input made of bytes.
#[derive(Debug, PartialEq, Eq)]
pub struct BytesInput {
    bytes: Vec<u8>,
}

impl View for BytesInput {
    type V = Seq<u8>;

    closed spec fn view(&self) -> Seq<u8> {
        self.bytes@
    }
}

impl BytesInput {
    /// The input made of the given bytes.
    pub fn new(bytes: Vec<u8>) -> (r: Self)
        ensures
            r@ == bytes@,
    {
        BytesInput { bytes }
    }

    /// The bytes of the input.
    pub fn bytes(&self) -> (b: &Vec<u8>)
        ensures
            b@ == self@,
    {
        &self.bytes
    }

    /// The number of bytes of the input.
    pub fn len(&self) -> (n: usize)
        ensures
            n == self@.len(),
    {
        self.bytes.len()
    }

    /// Puts `value` in the place of the byte at `index`, and says whether the input has
    /// such a byte. An input without such a byte stays as it is.
    pub fn set(&mut self, index: usize, value: u8) -> (done: bool)
        ensures
            done == (index < old(self)@.len()),
            done ==> final(self)@ == old(self)@.update(index as int, value),
            !done ==> *final(self) == *old(self),
    {
        if index < self.bytes.len() {
            self.bytes[index] = value;
            true
        } else {
            false
        }
    }
}

impl Clone for BytesInput {
    fn clone(&self) -> (r: Self)
        ensures
            r@ == self@,
    {
        let bytes = self.bytes.clone();
        assert(bytes@ =~= self.bytes@);
        BytesInput { bytes }
    }
}

} // verus!
