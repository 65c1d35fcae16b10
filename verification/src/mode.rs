//! The unit-granularity setting: the caller's enumeration and the engine's.

use vstd::prelude::*;
use vstd::std_specs::convert::FromSpecImpl;

verus! {

/// The granularity a caller asks for: `A` short units, `B` medium units (the
/// default), `C` long units.
#[derive(Debug, Clone, Copy, PartialEq, Eq, Structural, Hash)]
pub enum SudachiTokenMode {
    A,
    B,
    C,
}

/// The granularity as the analysis engine names it.
#[derive(Debug, Clone, Copy, PartialEq, Eq, Structural, Hash)]
pub enum Mode {
    A,
    B,
    C,
}

/// The engine mode that stands for a caller's mode.
pub open spec fn engine_mode(mode: SudachiTokenMode) -> Mode {
    match mode {
        SudachiTokenMode::A => Mode::A,
        SudachiTokenMode::B => Mode::B,
        SudachiTokenMode::C => Mode::C,
    }
}

/// The caller's mode that an engine mode stands for.
pub open spec fn caller_mode(mode: Mode) -> SudachiTokenMode {
    match mode {
        Mode::A => SudachiTokenMode::A,
        Mode::B => SudachiTokenMode::B,
        Mode::C => SudachiTokenMode::C,
    }
}

impl From<SudachiTokenMode> for Mode {
    fn from(mode: SudachiTokenMode) -> (mapped: Self) {
        match mode {
            SudachiTokenMode::A => Mode::A,
            SudachiTokenMode::B => Mode::B,
            SudachiTokenMode::C => Mode::C,
        }
    }
}

impl FromSpecImpl<SudachiTokenMode> for Mode {
    open spec fn obeys_from_spec() -> bool {
        true
    }

    open spec fn from_spec(mode: SudachiTokenMode) -> Mode {
        engine_mode(mode)
    }
}

impl Default for SudachiTokenMode {
    fn default() -> (mode: Self)
        ensures
            mode == SudachiTokenMode::B,
    {
        SudachiTokenMode::B
    }
}

/// The mapping from caller modes to engine modes is one-to-one and onto: two
/// caller modes with the same engine mode are the same mode, and every engine
/// mode stands for exactly one caller mode.
pub proof fn lemma_mode_mapping_is_bijective(a: SudachiTokenMode, b: SudachiTokenMode, m: Mode)
    ensures
        engine_mode(a) == engine_mode(b) <==> a == b,
        caller_mode(engine_mode(a)) == a,
        engine_mode(caller_mode(m)) == m,
        engine_mode(a) == m <==> a == caller_mode(m),
{
}

} // verus!
