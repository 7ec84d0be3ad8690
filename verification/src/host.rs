//! What a host program asks of the library before it opens a window.
use vstd::prelude::*;

verus! {

/// Declares the process aware of the pixel density of each monitor, so that
/// the window system does not scale what is rendered. Nothing in this
/// library depends on the window system, so there is nothing to declare and
/// the call always succeeds; a host on a system that wants to be told does
/// the telling itself and reports its own error.
pub fn set_dpi_awareness() -> (outcome: Result<(), String>)
    ensures
        outcome == Ok::<(), String>(()),
{
    Ok(())
}

} // verus!
