//! Choice of the calculator family from a mode number and a mods bitmask.
use vstd::prelude::*;

use crate::error::CalcError;

verus! {

/// The flag of the mods bitmask that marks a Relax play.
pub const RELAX: u32 = 128;

/// The four game modes, numbered 0 to 3 at the boundary.
#[derive(Clone, Copy, Debug, PartialEq, Eq, Structural)]
pub enum GameKind {
    Osu,
    Taiko,
    Catch,
    Mania,
}

/// The game mode that a boundary mode number stands for, if any.
pub open spec fn spec_kind_of(mode: u32) -> Option<GameKind> {
    if mode == 0 {
        Some(GameKind::Osu)
    } else if mode == 1 {
        Some(GameKind::Taiko)
    } else if mode == 2 {
        Some(GameKind::Catch)
    } else if mode == 3 {
        Some(GameKind::Mania)
    } else {
        None
    }
}

impl GameKind {
    /// The boundary number of this mode.
    pub open spec fn spec_number(self) -> u32 {
        match self {
            GameKind::Osu => 0,
            GameKind::Taiko => 1,
            GameKind::Catch => 2,
            GameKind::Mania => 3,
        }
    }

    /// The game mode numbered `mode`, or `None` when `mode` is above 3.
    pub fn from_number(mode: u32) -> (r: Option<GameKind>)
        ensures
            r == spec_kind_of(mode),
            r is Some <==> mode < 4,
            r matches Some(k) ==> k.spec_number() == mode,
    {
        match mode {
            0 => Some(GameKind::Osu),
            1 => Some(GameKind::Taiko),
            2 => Some(GameKind::Catch),
            3 => Some(GameKind::Mania),
            _ => None,
        }
    }

    /// The boundary number of this mode.
    pub fn number(&self) -> (r: u32)
        ensures
            r == self.spec_number(),
            r < 4,
            spec_kind_of(r) == Some(*self),
    {
        match self {
            GameKind::Osu => 0,
            GameKind::Taiko => 1,
            GameKind::Catch => 2,
            GameKind::Mania => 3,
        }
    }
}

/// The calculator family that scores a play.
#[derive(Clone, Copy, Debug, PartialEq, Eq, Structural)]
pub enum Variant {
    /// The calculator for all four modes, in the given mode.
    Generic(GameKind),
    /// The osu!standard Relax calculator, with its five tuning values.
    Relax,
}

/// Whether the Relax flag is set in `mods`.
pub open spec fn spec_has_relax(mods: u32) -> bool {
    mods & RELAX != 0
}

/// The family that scores a play in `mode` with `mods`: Relax exactly for
/// osu!standard with the Relax flag, otherwise the generic calculator in
/// that mode; a mode number above 3 has no family.
pub open spec fn spec_variant(mode: u32, mods: u32) -> Result<Variant, CalcError> {
    if mode == 0 && spec_has_relax(mods) {
        Ok(Variant::Relax)
    } else {
        match spec_kind_of(mode) {
            Some(kind) => Ok(Variant::Generic(kind)),
            None => Err(CalcError::InvalidMode { mode }),
        }
    }
}

/// Whether the Relax flag is set in `mods`.
pub fn has_relax(mods: u32) -> (r: bool)
    ensures
        r == spec_has_relax(mods),
{
    mods & RELAX != 0
}

/// Picks the calculator family for `mode` and `mods`.
///
/// Relax is chosen if and only if `mode` is 0 (osu!standard) and the Relax
/// flag is set; any other known mode gets the generic calculator in that
/// mode, and a mode number above 3 is refused with `InvalidMode`.
pub fn select_variant(mode: u32, mods: u32) -> (r: Result<Variant, CalcError>)
    ensures
        r == spec_variant(mode, mods),
        r is Ok <==> mode < 4,
        r == Ok::<Variant, CalcError>(Variant::Relax) <==> (mode == 0 && spec_has_relax(mods)),
        mode < 4 && !spec_has_relax(mods) ==> (r matches Ok(Variant::Generic(k)) && k.spec_number() == mode),
        mode >= 4 ==> r == Err::<Variant, CalcError>(CalcError::InvalidMode { mode }),
{
    if mode == 0 && has_relax(mods) {
        Ok(Variant::Relax)
    } else {
        match GameKind::from_number(mode) {
            Some(kind) => Ok(Variant::Generic(kind)),
            None => Err(CalcError::InvalidMode { mode }),
        }
    }
}

} // verus!
