use crate::window::WindowSize;
use std::borrow::Cow;
use vstd::prelude::*;

verus! {

/// One instruction for the actor that drives the PTY.
#[derive(Debug)]
pub enum Msg {
    /// Data that should be written to the PTY.
    Input(Cow<'static, [u8]>),
    /// Indicates that the PTY loop should shut down.
    Shutdown,
    /// Instruction to resize the PTY.
    Resize(WindowSize),
}

/// Number of bytes held by a byte buffer, owned or borrowed.
pub fn byte_len(bytes: &Cow<'static, [u8]>) -> (r: usize)
    ensures
        r == bytes@.len(),
{
    match bytes {
        Cow::Borrowed(b) => b.len(),
        Cow::Owned(v) => v.len(),
    }
}

impl Msg {
    /// The message that asks the PTY to write `bytes`, or nothing when there
    /// is nothing to write: an empty write would stall the reader on the
    /// other side.
    pub fn input(bytes: Cow<'static, [u8]>) -> (r: Option<Msg>)
        ensures
            bytes@.len() == 0 ==> r is None,
            bytes@.len() > 0 ==> r == Some(Msg::Input(bytes)),
    {
        if byte_len(&bytes) == 0 {
            None
        } else {
            Some(Msg::Input(bytes))
        }
    }
}

} // verus!
