//! A plain byte buffer handed across the host boundary.
use vstd::prelude::*;

verus! {

/// An owned image payload received from the host, kept as raw bytes.
#[derive(Clone, Debug)]
pub struct ByteBuffer(pub Vec<u8>);

impl View for ByteBuffer {
    type V = Seq<u8>;

    open spec fn view(&self) -> Seq<u8> {
        self.0@
    }
}

impl ByteBuffer {
    /// Number of bytes held.
    pub fn len(&self) -> (n: usize)
        ensures
            n == self@.len(),
    {
        self.0.len()
    }
}

} // verus!
