//! The one message type the UI program exchanges with its widgets. The
//! widget tree itself, and the event/layout/update cycle that delivers
//! these messages, live outside the core.

use vstd::prelude::*;

verus! {

/// A message produced by the UI's widgets and handled by its update pass.
#[derive(Clone, Copy, Debug, PartialEq, Eq, Structural)]
pub enum Message {
    Oy,
}

} // verus!
