//! The configuration handed to a calculator: built once from the validated
//! boundary inputs, for the family that scores the play.
use vstd::prelude::*;

use crate::error::CalcError;
use crate::variant::{select_variant, spec_variant, Variant};

verus! {

/// Bit pattern of the double `100.0`.
pub const ACCURACY_MAX_BITS: u64 = 0x4059_0000_0000_0000;

/// Bit pattern of the double `-0.0`.
pub const NEGATIVE_ZERO_BITS: u64 = 0x8000_0000_0000_0000;

/// Whether the double with bit pattern `bits` is an accuracy from 0 to 100.
///
/// Non-negative doubles are ordered as their bit patterns, and every
/// negative double or NaN other than `-0.0` has a pattern above that of
/// `100.0`; so this holds exactly of the doubles in `[0, 100]`.
pub open spec fn spec_accuracy_ok(bits: u64) -> bool {
    bits <= ACCURACY_MAX_BITS || bits == NEGATIVE_ZERO_BITS
}

/// Whether the double with bit pattern `bits` is an accuracy from 0 to 100.
pub fn accuracy_ok(bits: u64) -> (r: bool)
    ensures
        r == spec_accuracy_ok(bits),
{
    bits <= ACCURACY_MAX_BITS || bits == NEGATIVE_ZERO_BITS
}

/// The five values that only the Relax calculator reads. `arc_bits` is the
/// bit pattern of a double.
#[derive(Clone, Copy, Debug, PartialEq, Eq, Structural)]
pub struct RelaxTuning {
    pub ac: u32,
    pub arc_bits: u64,
    pub hdr: bool,
    pub tw: u32,
    pub cs: bool,
}

/// What a calculator is configured with for one play.
///
/// `accuracy_bits` is the bit pattern of the accuracy as a double; `scope`,
/// when present, limits the calculation to the first objects of the chart;
/// `tuning` is present only for the Relax family, and only when the caller
/// supplied the tuning values.
#[derive(Clone, Copy, Debug, PartialEq, Eq, Structural)]
pub struct ScoreContext {
    pub variant: Variant,
    pub mods: u32,
    pub combo: usize,
    pub misses: usize,
    pub scope: Option<usize>,
    pub tuning: Option<RelaxTuning>,
    pub accuracy_bits: u64,
}

impl ScoreContext {
    /// Tuning values reach no calculator but the Relax one.
    pub open spec fn wf(self) -> bool {
        self.tuning is Some ==> self.variant == Variant::Relax
    }

    /// The same configuration without tuning values.
    pub open spec fn without_tuning(self) -> ScoreContext {
        ScoreContext { tuning: None, ..self }
    }
}

/// The scope as the calculator counts objects.
pub open spec fn spec_scope(scope: Option<u32>) -> Option<usize> {
    match scope {
        Some(n) => Some(n as usize),
        None => None,
    }
}

/// The configuration for a play, or the reason there is none: an unknown
/// mode first, then an accuracy outside 0 to 100. The tuning values are
/// kept for the Relax family and dropped for the generic one.
pub open spec fn spec_context(
    mode: u32,
    mods: u32,
    max_combo: u32,
    accuracy_bits: u64,
    miss_count: u32,
    scope: Option<u32>,
    tuning: Option<RelaxTuning>,
) -> Result<ScoreContext, CalcError> {
    match spec_variant(mode, mods) {
        Err(e) => Err(e),
        Ok(variant) => if !spec_accuracy_ok(accuracy_bits) {
            Err(CalcError::AccuracyOutOfRange)
        } else {
            Ok(
                ScoreContext {
                    variant,
                    mods,
                    combo: max_combo as usize,
                    misses: miss_count as usize,
                    scope: spec_scope(scope),
                    tuning: if variant == Variant::Relax { tuning } else { None },
                    accuracy_bits,
                },
            )
        },
    }
}

fn scope_for_calculator(scope: Option<u32>) -> (r: Option<usize>)
    ensures
        r == spec_scope(scope),
{
    match scope {
        Some(n) => Some(n as usize),
        None => None,
    }
}

fn build_context(
    mode: u32,
    mods: u32,
    max_combo: u32,
    accuracy_bits: u64,
    miss_count: u32,
    scope: Option<u32>,
    tuning: Option<RelaxTuning>,
) -> (r: Result<ScoreContext, CalcError>)
    ensures
        r == spec_context(mode, mods, max_combo, accuracy_bits, miss_count, scope, tuning),
{
    let variant = match select_variant(mode, mods) {
        Ok(v) => v,
        Err(e) => return Err(e),
    };
    if !accuracy_ok(accuracy_bits) {
        return Err(CalcError::AccuracyOutOfRange);
    }
    let tuning = match variant {
        Variant::Relax => tuning,
        Variant::Generic(_) => None,
    };
    Ok(
        ScoreContext {
            variant,
            mods,
            combo: max_combo as usize,
            misses: miss_count as usize,
            scope: scope_for_calculator(scope),
            tuning,
            accuracy_bits,
        },
    )
}

/// The configuration for a play given by a beatmap path, which carries the
/// five Relax tuning values.
///
/// Fails with `InvalidMode` for a mode above 3, else with
/// `AccuracyOutOfRange` for an accuracy outside 0 to 100. Otherwise the
/// family is Relax exactly for mode 0 with the Relax flag, and then the
/// tuning values are kept; the generic family never receives them.
pub fn context_for_path(
    mode: u32,
    mods: u32,
    max_combo: u32,
    accuracy_bits: u64,
    miss_count: u32,
    scope: Option<u32>,
    tuning: RelaxTuning,
) -> (r: Result<ScoreContext, CalcError>)
    ensures
        r == spec_context(mode, mods, max_combo, accuracy_bits, miss_count, scope, Some(tuning)),
        r is Ok <==> (mode < 4 && spec_accuracy_ok(accuracy_bits)),
        mode >= 4 ==> r == Err::<ScoreContext, CalcError>(CalcError::InvalidMode { mode }),
        mode < 4 && !spec_accuracy_ok(accuracy_bits) ==> r == Err::<ScoreContext, CalcError>(
            CalcError::AccuracyOutOfRange,
        ),
        r matches Ok(c) ==> {
            &&& c.wf()
            &&& Ok::<Variant, CalcError>(c.variant) == spec_variant(mode, mods)
            &&& c.mods == mods
            &&& c.combo == max_combo
            &&& c.misses == miss_count
            &&& c.accuracy_bits == accuracy_bits
            &&& c.scope == spec_scope(scope)
            &&& c.tuning == (if c.variant == Variant::Relax {
                Some(tuning)
            } else {
                None
            })
        },
{
    build_context(mode, mods, max_combo, accuracy_bits, miss_count, scope, Some(tuning))
}

/// The configuration for a play given by the beatmap's bytes, which carries
/// no tuning values: the Relax family then runs with its own defaults.
///
/// Fails as `context_for_path` does, on the same inputs.
pub fn context_for_bytes(
    mode: u32,
    mods: u32,
    max_combo: u32,
    accuracy_bits: u64,
    miss_count: u32,
    scope: Option<u32>,
) -> (r: Result<ScoreContext, CalcError>)
    ensures
        r == spec_context(mode, mods, max_combo, accuracy_bits, miss_count, scope, None),
        r is Ok <==> (mode < 4 && spec_accuracy_ok(accuracy_bits)),
        mode >= 4 ==> r == Err::<ScoreContext, CalcError>(CalcError::InvalidMode { mode }),
        mode < 4 && !spec_accuracy_ok(accuracy_bits) ==> r == Err::<ScoreContext, CalcError>(
            CalcError::AccuracyOutOfRange,
        ),
        r matches Ok(c) ==> {
            &&& c.wf()
            &&& c.tuning is None
            &&& Ok::<Variant, CalcError>(c.variant) == spec_variant(mode, mods)
            &&& c.mods == mods
            &&& c.combo == max_combo
            &&& c.misses == miss_count
            &&& c.accuracy_bits == accuracy_bits
            &&& c.scope == spec_scope(scope)
        },
{
    build_context(mode, mods, max_combo, accuracy_bits, miss_count, scope, None)
}

} // verus!
