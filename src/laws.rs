//! Properties that relate several calls of the context builders.
use vstd::prelude::*;

use crate::context::{spec_context, RelaxTuning};
use crate::variant::{spec_has_relax, Variant};

verus! {

/// Outside the Relax family the tuning values are inert: a play given by
/// path gets the same configuration, or the same failure, whatever tuning
/// values come with it.
pub proof fn lemma_generic_ignores_tuning(
    mode: u32,
    mods: u32,
    max_combo: u32,
    accuracy_bits: u64,
    miss_count: u32,
    scope: Option<u32>,
    a: RelaxTuning,
    b: RelaxTuning,
)
    requires
        !(mode == 0 && spec_has_relax(mods)),
    ensures
        spec_context(mode, mods, max_combo, accuracy_bits, miss_count, scope, Some(a))
            == spec_context(mode, mods, max_combo, accuracy_bits, miss_count, scope, Some(b)),
{
}

/// The path and the bytes entry points agree on the same shared inputs:
/// both fail alike or both succeed, with configurations that differ at most
/// in the tuning values, and not at all outside the Relax family.
pub proof fn lemma_entry_points_agree(
    mode: u32,
    mods: u32,
    max_combo: u32,
    accuracy_bits: u64,
    miss_count: u32,
    scope: Option<u32>,
    tuning: RelaxTuning,
)
    ensures
        ({
            let by_path = spec_context(
                mode,
                mods,
                max_combo,
                accuracy_bits,
                miss_count,
                scope,
                Some(tuning),
            );
            let by_bytes = spec_context(mode, mods, max_combo, accuracy_bits, miss_count, scope, None);
            &&& by_path is Ok <==> by_bytes is Ok
            &&& by_path is Err ==> by_path == by_bytes
            &&& by_path matches Ok(p) ==> {
                &&& by_bytes matches Ok(q)
                &&& p.without_tuning() == q
                &&& p.variant != Variant::Relax ==> p == q
            }
        }),
{
}

} // verus!
