use crate::error::Error;
use crate::handle::wrap_inner;
use crate::handle::Handle;
use vstd::prelude::*;

verus! {

/// Scope tag of the process-wide global context.
pub const GLOBAL_CONTEXT_ADDR: usize = 1;

/// Scope tag shared by explicitly created contexts.
pub const LOCAL_CONTEXT_ADDR: usize = 2;

/// The top-level arena that owns every type and value created within it.
///
/// A context carries an "owns the underlying resource" flag: the global
/// context is a process-wide singleton that must never be destroyed by a
/// wrapper value, and a clone of any context is a non-owning alias.  Only
/// the value created by [`Context::new`] owns the underlying arena, and
/// [`Context::release`] reports destruction for it alone.
pub struct Context {
    handle: Handle,
    owns: bool,
    discard_names: bool,
}

impl View for Context {
    type V = ContextV;

    closed spec fn view(&self) -> ContextV {
        ContextV { handle: self.handle, owns: self.owns, discard_names: self.discard_names }
    }
}

/// Mathematical model of a [`Context`].
#[verifier::ext_equal]
pub struct ContextV {
    /// The scope tag identifying the underlying arena.
    pub handle: Handle,
    /// Whether this value owns the underlying arena.
    pub owns: bool,
    /// Whether the arena discards value names.
    pub discard_names: bool,
}

impl Clone for Context {
    /// Cloning yields a non-owning alias of the same arena: it must never
    /// trigger destruction of the underlying resource.
    fn clone(&self) -> (r: Self)
        ensures
            r@.handle == self@.handle,
            !r@.owns,
            r@.discard_names == self@.discard_names,
    {
        Context { handle: self.handle, owns: false, discard_names: self.discard_names }
    }
}

impl Context {
    /// Create a new context; the returned value owns the underlying arena.
    pub fn new() -> (r: Result<Context, Error>)
        ensures
            r matches Ok(c) && c@.owns && c@.handle.addr_spec() == LOCAL_CONTEXT_ADDR
                && !c@.discard_names,
    {
        let handle = wrap_inner(LOCAL_CONTEXT_ADDR)?;
        Ok(Context { handle, owns: true, discard_names: false })
    }

    /// Return the global context, a process-wide singleton that this value
    /// does not own and will never destroy.
    pub fn global() -> (r: Result<Context, Error>)
        ensures
            r matches Ok(c) && !c@.owns && c@.handle.addr_spec() == GLOBAL_CONTEXT_ADDR
                && !c@.discard_names,
    {
        let handle = wrap_inner(GLOBAL_CONTEXT_ADDR)?;
        Ok(Context { handle, owns: false, discard_names: false })
    }

    /// The scope tag of the underlying arena.
    pub fn handle(&self) -> (r: Handle)
        ensures
            r == self@.handle,
    {
        self.handle
    }

    /// Whether this value owns the underlying arena.
    pub fn owns_underlying(&self) -> (r: bool)
        ensures
            r == self@.owns,
    {
        self.owns
    }

    /// Allow the context to discard value names.
    pub fn set_discard_value_names(&mut self, discard: bool)
        ensures
            final(self)@ == (ContextV { discard_names: discard, ..old(self)@ }),
    {
        self.discard_names = discard;
    }

    /// Returns true when the context is set to discard value names.
    pub fn discard_value_names(&mut self) -> (r: bool)
        ensures
            r == old(self)@.discard_names,
            final(self)@ == old(self)@,
    {
        self.discard_names
    }

    /// Consume the context, reporting whether the underlying arena is to be
    /// destroyed: true exactly for the owning value, so the resource is
    /// released exactly once, and never through an alias or the global
    /// singleton.
    pub fn release(self) -> (r: bool)
        ensures
            r == self@.owns,
    {
        self.owns
    }
}

/// A non-owning alias context for the given scope tag.
pub(crate) fn alias_for(handle: Handle) -> (r: Context)
    ensures
        r@.handle == handle,
        !r@.owns,
        !r@.discard_names,
{
    Context { handle, owns: false, discard_names: false }
}

} // verus!
