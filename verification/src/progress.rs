use vstd::prelude::*;

verus! {

/// How the visual indicator behaves during a transfer.  The mode is chosen
/// once, when the response arrives, and never changes afterwards.
#[derive(Clone, Copy, Debug, PartialEq, Eq, Structural)]
pub enum ProgressMode {
    /// The expected total size is known and non-zero: a bounded bar.
    Determinate,
    /// The expected total size is unknown (reported as zero): an unbounded
    /// animated indicator.
    Indeterminate,
}

/// The mode that a given expected total selects: zero means the size is
/// unknown, so the indicator runs unbounded.
pub open spec fn mode_for(total: u64) -> ProgressMode {
    if total == 0 {
        ProgressMode::Indeterminate
    } else {
        ProgressMode::Determinate
    }
}

impl ProgressMode {
    /// Selects the indicator mode for an expected total size.
    pub fn for_total(total: u64) -> (m: ProgressMode)
        ensures
            m == mode_for(total),
    {
        if total == 0 {
            ProgressMode::Indeterminate
        } else {
            ProgressMode::Determinate
        }
    }

    /// Whether this is the bounded mode.
    pub fn is_determinate(&self) -> (r: bool)
        ensures
            r == (self is Determinate),
    {
        match self {
            ProgressMode::Determinate => true,
            ProgressMode::Indeterminate => false,
        }
    }
}

} // verus!
