//! Simulator-control requests: the operations a plugin may ask of the host
//! kernel. The native call itself is issued by the surrounding glue; the
//! library owns the request codes.

use vstd::prelude::*;

verus! {

/// A control operation of the host kernel.
#[derive(Clone, Copy, Debug, PartialEq, Eq, Structural)]
pub enum Control {
    Stop,
    Finish,
    Reset,
    SetInteractiveScope,
}

impl Control {
    /// The native integer code of this operation.
    pub open spec fn spec_code(self) -> i32 {
        match self {
            Control::Stop => 66,
            Control::Finish => 67,
            Control::Reset => 68,
            Control::SetInteractiveScope => 69,
        }
    }

    /// The native integer code of this operation.
    pub fn code(&self) -> (r: i32)
        ensures
            r == self.spec_code(),
    {
        match self {
            Control::Stop => 66,
            Control::Finish => 67,
            Control::Reset => 68,
            Control::SetInteractiveScope => 69,
        }
    }
}

} // verus!
