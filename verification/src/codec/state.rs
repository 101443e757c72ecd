use vstd::prelude::*;

verus! {

/// The lifecycle of a codec instance.
///
/// An instance starts `Unconfigured`, becomes `Configured` by a successful
/// `configure`, returns to `Unconfigured` by `reset`, and becomes `Closed` by
/// `close`, from which there is no way back.
#[derive(Debug, PartialEq, Eq, Clone, Copy, Structural)]
pub enum State {
    Unconfigured,
    Configured,
    Closed,
}

} // verus!
