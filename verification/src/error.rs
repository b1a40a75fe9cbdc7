use vstd::prelude::*;

verus! {

/// A diagnostic string handed back by the foreign toolkit (module
/// verification failures, optimizer failures, engine construction
/// failures); the original text is preserved verbatim.
#[derive(Debug, Clone)]
pub struct Message {
    text: String,
}

impl Message {
    /// The text carried by the message.
    pub closed spec fn view(&self) -> Seq<char> {
        self.text@
    }

    /// Wrap a raw diagnostic string.
    pub fn from_raw(text: String) -> (r: Message)
        ensures
            r@ == text@,
    {
        Message { text }
    }

    /// Message length.
    pub fn len(&self) -> (r: usize)
        ensures
            r == self@.len(),
    {
        self.text.as_str().unicode_len()
    }

    /// Returns true when the message is empty.
    pub fn is_empty(&self) -> (r: bool)
        ensures
            r == (self@.len() == 0),
    {
        self.len() == 0
    }

    /// The message text.
    pub fn as_str(&self) -> (r: &str)
        ensures
            r@ == self@,
    {
        self.text.as_str()
    }

    /// Consume the message, returning its text.
    pub fn into_string(self) -> (r: String)
        ensures
            r@ == self@,
    {
        self.text
    }
}

/// An enumeration of all possible errors.
#[derive(Debug)]
pub enum Error {
    /// A foreign call returned a null handle where a valid one was
    /// expected; the universal translation of foreign failures that carry
    /// no message (bad input, out of memory, internal verifier failure).
    NullPointer,
    /// String conversion produced invalid UTF-8.
    Utf8Error,
    /// A foreign-supplied diagnostic, preserved verbatim.
    Message(Message),
    /// A filesystem failure in a peripheral path.
    IO(String),
    /// An invalid path name.
    InvalidPath,
    /// A handle was asked to be reinterpreted as a type kind it does not have.
    InvalidType,
    /// A value was asked to be reinterpreted as a constant, but is none.
    InvalidConst,
    /// A value was asked to be reinterpreted as a basic block, but is none.
    InvalidBasicBlock,
    /// A function failed verification, or a value is not a function.
    InvalidFunction,
    /// Ownership of the module has already been acquired by another holder.
    ModuleIsAlreadyOwned,
    /// The process-wide compile lock was left inconsistent by a panicking
    /// holder; fatal for the codegen pipeline.
    Poison,
}

} // verus!
