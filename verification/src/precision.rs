use vstd::prelude::*;

verus! {

/// Downsampling level applied to every decoded packet.
///
/// Each level maps to a fixed stride: one sample out of every `stride` is
/// kept. `Max` keeps every sample. For example, a 2-minute 44100 Hz MP3
/// decoded at `Max` yields well over five million samples.
#[derive(Clone, Copy, Debug, PartialEq, Eq, Structural)]
pub enum Precision {
    /// Every 5000th sample is kept.
    Ultralow,
    /// Every 1000th sample is kept.
    Low,
    /// Every 500th sample is kept.
    Medium,
    /// Every 100th sample is kept.
    High,
    /// Every sample is kept.
    Max,
}

impl Precision {
    /// The stride this level stands for: never zero, never negative.
    pub open spec fn stride(self) -> nat {
        match self {
            Precision::Ultralow => 5000,
            Precision::Low => 1000,
            Precision::Medium => 500,
            Precision::High => 100,
            Precision::Max => 1,
        }
    }

    /// The stride as a machine integer.
    pub fn value(&self) -> (r: usize)
        ensures
            r as nat == self.stride(),
            1 <= r <= 5000,
    {
        match self {
            Precision::Ultralow => 5000,
            Precision::Low => 1000,
            Precision::Medium => 500,
            Precision::High => 100,
            Precision::Max => 1,
        }
    }
}

} // verus!
