//! Failures reported across the native-call boundary.
use vstd::prelude::*;

verus! {

/// Why a calculation produced no result.
#[derive(Clone, Copy, Debug, PartialEq, Eq, Structural)]
pub enum CalcError {
    /// The beatmap path is not valid UTF-8 text.
    InvalidPath,
    /// The beatmap could not be read or parsed.
    InvalidBeatmap,
    /// The mode is none of the four known game modes.
    InvalidMode { mode: u32 },
    /// The accuracy is not a number in the range 0 to 100.
    AccuracyOutOfRange,
    /// The calculator could not produce a result from the inputs.
    CalculationFailed,
}

/// Status code that stands for a successful calculation.
pub const STATUS_OK: u32 = 0;

impl CalcError {
    /// The status code of each failure; all of them differ from
    /// `STATUS_OK` and from one another.
    pub open spec fn spec_code(self) -> u32 {
        match self {
            CalcError::InvalidPath => 1,
            CalcError::InvalidBeatmap => 2,
            CalcError::InvalidMode { .. } => 3,
            CalcError::AccuracyOutOfRange => 4,
            CalcError::CalculationFailed => 5,
        }
    }

    /// The status code that reports this failure to a caller across the
    /// boundary.
    pub fn code(&self) -> (r: u32)
        ensures
            r == self.spec_code(),
            r != STATUS_OK,
    {
        match self {
            CalcError::InvalidPath => 1,
            CalcError::InvalidBeatmap => 2,
            CalcError::InvalidMode { .. } => 3,
            CalcError::AccuracyOutOfRange => 4,
            CalcError::CalculationFailed => 5,
        }
    }
}

} // verus!
