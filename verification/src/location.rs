use vstd::prelude::*;

verus! {

/// The ways in which the editor core can be reached.
#[derive(Clone, Debug, PartialEq)]
pub enum XiLocation {
    /// The core runs in a thread of this process.
    Embeded,
    /// The core is a child process started with `cmd`.
    Path { cmd: String },
}

} // verus!
