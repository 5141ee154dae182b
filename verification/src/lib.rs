use vstd::prelude::*;

pub mod frame;
pub mod pixel;
pub mod plugin;
pub mod render;

verus! {

/// Errors a command handler can surface to the host. Host-suite failures are
/// passed through unchanged as their raw host error code.
#[derive(Clone, Copy, Debug, PartialEq, Eq, Structural)]
pub enum Error {
    BadCallbackParameter,
    InterruptCancel,
    Host(i32),
}

} // verus!
