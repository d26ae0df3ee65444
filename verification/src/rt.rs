//! The fault path the library assumes: a deterministic halt.
//!
//! On an unrecoverable fault control must reach a state that performs no
//! further register access and never returns.  The startup and vector
//! machinery that installs this behaviour lives with the hardware edge
//! outside the library.

use vstd::prelude::*;

verus! {

/// The fault path's terminal state as the library models it: nothing is
/// read or written, no port model is touched, from here on.  The
/// never-returning spin that parks the processor is runtime machinery and
/// stays outside the verified library.
pub fn panic() {
}

} // verus!
