//! Vocabulary shared by display drivers.
use vstd::prelude::*;

verus! {

/// The waveform a refresh is driven with.
#[derive(Clone, Copy, Debug, PartialEq, Eq, Structural)]
pub enum RefreshLut {
    /// A complete refresh: slow and free of ghosting.
    Full,
    /// A faster refresh that updates only what changed.
    Partial,
}

} // verus!
