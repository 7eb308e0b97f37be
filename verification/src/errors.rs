//! The error taxonomy: every failure aborts only the owning connection.

use vstd::prelude::*;

verus! {

/// Why one connection's request failed.  Each variant is fatal to that
/// connection alone; the listener keeps accepting.
#[derive(Clone, Copy, Debug, PartialEq, Eq, Structural)]
pub enum ServerError {
    /// The evaluation key was absent, unreadable, or its bytes did not
    /// deserialize to a valid key.
    KeyLoad,
    /// The stream closed before the announced number of bytes arrived.
    Framing,
    /// A field's bytes did not parse as a valid ciphertext.
    Deserialize,
    /// A write on the connection failed.
    Io,
    /// The homomorphic engine itself reported a failure.
    Engine,
}

} // verus!
