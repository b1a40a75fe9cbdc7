use crate::error::Error;
use vstd::prelude::*;

verus! {

/// An in-memory byte buffer, the carrier of serialized modules and
/// compiled artifacts.
#[derive(Debug)]
pub struct MemoryBuffer {
    data: Vec<u8>,
}

impl View for MemoryBuffer {
    type V = Seq<u8>;

    closed spec fn view(&self) -> Seq<u8> {
        self.data@
    }
}

impl MemoryBuffer {
    /// Create a buffer holding a copy of the given bytes.
    pub fn from_slice(s: &Vec<u8>) -> (r: Result<MemoryBuffer, Error>)
        ensures
            r matches Ok(mb) && mb@ == s@,
    {
        let mut data: Vec<u8> = Vec::new();
        let mut i: usize = 0;
        while i < s.len()
            invariant
                i <= s@.len(),
                data@.len() == i,
                forall|j: int| 0 <= j < i ==> data@[j] == s@[j],
            decreases s@.len() - i,
        {
            data.push(s[i]);
            i += 1;
        }
        proof {
            assert(data@ =~= s@);
        }
        Ok(MemoryBuffer { data })
    }

    /// Create a buffer owning the given bytes.
    pub fn from_vec(data: Vec<u8>) -> (r: MemoryBuffer)
        ensures
            r@ == data@,
    {
        MemoryBuffer { data }
    }

    /// The buffer's length in bytes.
    pub fn len(&self) -> (r: usize)
        ensures
            r == self@.len(),
    {
        self.data.len()
    }

    /// Returns true when the buffer is empty.
    pub fn is_empty(&self) -> (r: bool)
        ensures
            r == (self@.len() == 0),
    {
        self.data.len() == 0
    }

    /// The held bytes.
    pub fn as_slice(&self) -> (r: &Vec<u8>)
        ensures
            r@ == self@,
    {
        &self.data
    }

    /// Consume the buffer, returning its bytes.
    pub fn into_vec(self) -> (r: Vec<u8>)
        ensures
            r@ == self@,
    {
        self.data
    }
}

} // verus!
