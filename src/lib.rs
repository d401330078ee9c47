//! Boot-time logic of a single-board firmware stage: the hex-token scanner and
//! the command monitor that sits on it, CPU admission, the boot
//! sequence as a state machine, and the fan-out of console writes to several
//! output drivers. Everything that touches hardware is described here as plain
//! operations; the code that issues them lives outside the library.
use vstd::prelude::*;

pub mod buffers;
pub mod console;
pub mod boot;
pub mod cpu;
pub mod hardware;
pub mod output;
pub mod tokens;

verus! {

} // verus!
