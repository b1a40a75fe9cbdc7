use crate::error::Error;
use vstd::prelude::*;

verus! {

/// A non-null address of an object in the foreign toolkit's graph.
///
/// This is the only way a raw foreign address enters the safe layer:
/// [`wrap_inner`] refuses the null address, so every `Handle` in existence
/// points at something. Copying a `Handle` never duplicates ownership;
/// the owning wrapper types track that separately.
#[derive(Clone, Copy, PartialEq, Eq, Structural, Debug)]
pub struct Handle {
    addr: usize,
}

impl Handle {
    /// The wrapped address.
    pub closed spec fn addr_spec(self) -> usize {
        self.addr
    }

    /// A handle never wraps the null address.
    pub closed spec fn wf(self) -> bool {
        self.addr != 0
    }

    /// The wrapped address, always non-null.
    pub fn addr(self) -> (r: usize)
        requires
            self.wf(),
        ensures
            r == self.addr_spec(),
            r != 0,
    {
        self.addr
    }
}

/// Wrap a raw foreign address, failing on null.
///
/// This is the single chokepoint through which every foreign return value
/// passes: the foreign interface uses the null address to signal many
/// otherwise indistinguishable failures, and all of them surface here as
/// [`Error::NullPointer`].
pub fn wrap_inner(x: usize) -> (r: Result<Handle, Error>)
    ensures
        x == 0 <==> r is Err,
        r matches Err(e) ==> e is NullPointer,
        r matches Ok(h) ==> h.addr_spec() == x && h.wf(),
{
    if x == 0 {
        Err(Error::NullPointer)
    } else {
        Ok(Handle { addr: x })
    }
}

} // verus!
