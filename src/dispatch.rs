//! Which performance algorithm handles a score, and which inputs each
//! algorithm and the difficulty engine receive.
use vstd::prelude::*;

use crate::params::{GameMode, PyCalculator, Real};

verus! {

/// The legacy-scoring (ScoreV2) bit of a mod mask.
pub const LEGACY_SCORING_BIT: u32 = 0x2000_0000;

/// The relax bit of a mod mask.
pub const RELAX_BIT: u32 = 0x80;

/// Whether the mod mask is given and has `bit` set.
pub open spec fn has_bit(mods: Option<u32>, bit: u32) -> bool {
    mods matches Some(m) && m & bit != 0
}

/// Whether the mod mask is given and has `bit` set.
pub fn mods_have(mods: Option<u32>, bit: u32) -> (r: bool)
    ensures
        r == has_bit(mods, bit),
{
    match mods {
        Some(m) => m & bit != 0,
        None => false,
    }
}

/// Whether a calculation runs under osu!standard rules: the mode is given as
/// osu!standard, or it is not given and the beatmap's own mode is osu!standard.
pub open spec fn standard_in_effect(mode: Option<GameMode>, native: GameMode) -> bool {
    mode == Some(GameMode::Osu) || (mode is None && native == GameMode::Osu)
}

/// Whether a calculation converts an osu!standard beatmap to another mode.
pub open spec fn is_conversion(mode: Option<GameMode>, native: GameMode) -> bool {
    mode matches Some(m) && m != native && native == GameMode::Osu
}

fn standard_rules(mode: Option<GameMode>, native: GameMode) -> (r: bool)
    ensures
        r == standard_in_effect(mode, native),
{
    match mode {
        Some(GameMode::Osu) => true,
        Some(_) => false,
        None => native == GameMode::Osu,
    }
}

fn converts(mode: Option<GameMode>, native: GameMode) -> (r: bool)
    ensures
        r == is_conversion(mode, native),
{
    match mode {
        Some(m) => m != native && native == GameMode::Osu,
        None => false,
    }
}

/// The performance algorithms.
#[derive(Clone, Copy, Debug, PartialEq, Eq, Structural)]
pub enum Route {
    /// The legacy-client algorithm.
    Legacy,
    /// The relax (alternate-input) algorithm.
    Relax,
    /// The general algorithm, for every mode.
    General,
}

/// The inputs handed to the selected performance algorithm; `None` where the
/// algorithm receives nothing for an input.
#[derive(Clone, Copy, Debug, PartialEq, Eq, Structural)]
pub struct Plan {
    pub route: Route,
    pub mode: Option<GameMode>,
    pub mods: Option<u32>,
    pub n_geki: Option<usize>,
    pub n_katu: Option<usize>,
    pub n300: Option<usize>,
    pub n100: Option<usize>,
    pub n50: Option<usize>,
    pub n_misses: Option<usize>,
    pub combo: Option<usize>,
    pub acc: Option<Real>,
    pub ac: Option<usize>,
    pub arc: Option<Real>,
    pub hdr: Option<bool>,
    pub tw: Option<usize>,
    pub cs: Option<bool>,
    pub passed_objects: Option<usize>,
    pub clock_rate: Option<Real>,
    /// Whether the precomputed difficulty attributes are handed over, so that
    /// the algorithm does not compute them again.
    pub with_difficulty: bool,
}

/// The inputs of the beatmap-attribute builder.
#[derive(Clone, Copy, Debug, PartialEq, Eq, Structural)]
pub struct AttributesRequest {
    pub mode: Option<GameMode>,
    pub converted: bool,
    pub mods: Option<u32>,
    pub clock_rate: Option<Real>,
}

/// The inputs of the difficulty engine, for difficulty attributes and strains.
#[derive(Clone, Copy, Debug, PartialEq, Eq, Structural)]
pub struct DifficultyRequest {
    pub mode: Option<GameMode>,
    pub converted: bool,
    pub mods: Option<u32>,
    pub passed_objects: Option<usize>,
    pub clock_rate: Option<Real>,
}

impl<D> PyCalculator<D> {
    /// The algorithm for a beatmap whose own mode is `native`. The legacy
    /// algorithm is tried first, then relax; each needs its mod bit or its
    /// flag, and osu!standard rules. Everything else takes the general one.
    pub open spec fn route_spec(&self, native: GameMode) -> Route {
        if (has_bit(self.mods, LEGACY_SCORING_BIT) || self.notrefx) && standard_in_effect(
            self.mode,
            native,
        ) {
            Route::Legacy
        } else if (has_bit(self.mods, RELAX_BIT) || self.shaymi_mode) && standard_in_effect(
            self.mode,
            native,
        ) {
            Route::Relax
        } else {
            Route::General
        }
    }

    /// Selects the performance algorithm for a beatmap whose own mode is `native`.
    pub fn route(&self, native: GameMode) -> (r: Route)
        ensures
            r == self.route_spec(native),
    {
        let standard = standard_rules(self.mode, native);
        if (mods_have(self.mods, LEGACY_SCORING_BIT) || self.notrefx) && standard {
            Route::Legacy
        } else if (mods_have(self.mods, RELAX_BIT) || self.shaymi_mode) && standard {
            Route::Relax
        } else {
            Route::General
        }
    }

    /// What the selected algorithm receives. Both osu!standard alternatives
    /// receive the mods, hit counts, combo, misses, accuracy and the number of
    /// passed objects; the relax one receives the assist overrides as well.
    /// The general algorithm receives the mode, the mods, every hit count,
    /// combo, accuracy, every assist override, passed objects, clock rate and
    /// any precomputed difficulty.
    pub open spec fn plan_spec(&self, native: GameMode) -> Plan {
        let route = self.route_spec(native);
        let general = route == Route::General;
        Plan {
            route,
            mode: if general { self.mode } else { None },
            mods: self.mods,
            n_geki: if general { self.n_geki } else { None },
            n_katu: if general { self.n_katu } else { None },
            n300: self.n300,
            n100: self.n100,
            n50: self.n50,
            n_misses: self.n_misses,
            combo: self.combo,
            acc: self.acc,
            ac: if route != Route::Legacy { self.ac } else { None },
            arc: if route != Route::Legacy { self.arc } else { None },
            hdr: if route != Route::Legacy { self.hdr } else { None },
            tw: if route != Route::Legacy { self.tw } else { None },
            cs: if route != Route::Legacy { self.cs } else { None },
            passed_objects: self.passed_objects,
            clock_rate: if general { self.clock_rate } else { None },
            with_difficulty: general && self.attributes is Some,
        }
    }

    /// The algorithm and its inputs for a beatmap whose own mode is `native`.
    pub fn plan(&self, native: GameMode) -> (r: Plan)
        ensures
            r == self.plan_spec(native),
    {
        let route = self.route(native);
        let general = route == Route::General;
        let legacy = route == Route::Legacy;
        Plan {
            route,
            mode: if general { self.mode } else { None },
            mods: self.mods,
            n_geki: if general { self.n_geki } else { None },
            n_katu: if general { self.n_katu } else { None },
            n300: self.n300,
            n100: self.n100,
            n50: self.n50,
            n_misses: self.n_misses,
            combo: self.combo,
            acc: self.acc,
            ac: if !legacy { self.ac } else { None },
            arc: if !legacy { self.arc } else { None },
            hdr: if !legacy { self.hdr } else { None },
            tw: if !legacy { self.tw } else { None },
            cs: if !legacy { self.cs } else { None },
            passed_objects: self.passed_objects,
            clock_rate: if general { self.clock_rate } else { None },
            with_difficulty: general && self.attributes.is_some(),
        }
    }

    pub open spec fn attributes_request_spec(&self, native: GameMode) -> AttributesRequest {
        AttributesRequest {
            mode: self.mode,
            converted: is_conversion(self.mode, native),
            mods: self.mods,
            clock_rate: self.clock_rate,
        }
    }

    /// The inputs of the beatmap-attribute builder for a beatmap whose own
    /// mode is `native`; a mode other than that of an osu!standard beatmap
    /// marks a conversion.
    pub fn attributes_request(&self, native: GameMode) -> (r: AttributesRequest)
        ensures
            r == self.attributes_request_spec(native),
    {
        AttributesRequest {
            mode: self.mode,
            converted: converts(self.mode, native),
            mods: self.mods,
            clock_rate: self.clock_rate,
        }
    }

    pub open spec fn difficulty_request_spec(&self, native: GameMode) -> DifficultyRequest {
        DifficultyRequest {
            mode: self.mode,
            converted: is_conversion(self.mode, native),
            mods: self.mods,
            passed_objects: self.passed_objects,
            clock_rate: self.clock_rate,
        }
    }

    /// The inputs of the difficulty engine for a beatmap whose own mode is
    /// `native`; used for the difficulty attributes and for the strains alike.
    pub fn difficulty_request(&self, native: GameMode) -> (r: DifficultyRequest)
        ensures
            r == self.difficulty_request_spec(native),
    {
        DifficultyRequest {
            mode: self.mode,
            converted: converts(self.mode, native),
            mods: self.mods,
            passed_objects: self.passed_objects,
            clock_rate: self.clock_rate,
        }
    }
}

/// The choice of algorithm depends on the mode, the mods, the two flags and
/// the beatmap's own mode, and on nothing else.
pub proof fn lemma_route_is_determined<D>(a: PyCalculator<D>, b: PyCalculator<D>, native: GameMode)
    requires
        a.mode == b.mode,
        a.mods == b.mods,
        a.notrefx == b.notrefx,
        a.shaymi_mode == b.shaymi_mode,
    ensures
        a.route_spec(native) == b.route_spec(native),
{
}

/// Without the legacy-scoring bit, the relax bit and both flags, every score
/// takes the general algorithm, in every mode.
pub proof fn lemma_plain_mods_take_general_route<D>(c: PyCalculator<D>, native: GameMode)
    requires
        !has_bit(c.mods, LEGACY_SCORING_BIT),
        !has_bit(c.mods, RELAX_BIT),
        !c.notrefx,
        !c.shaymi_mode,
    ensures
        c.route_spec(native) == Route::General,
        c.plan_spec(native).route == Route::General,
{
}

/// A mode given as anything but osu!standard takes the general algorithm,
/// whatever the mod bits and flags.
pub proof fn lemma_other_modes_take_general_route<D>(c: PyCalculator<D>, native: GameMode)
    requires
        c.mode is Some,
        c.mode != Some(GameMode::Osu),
    ensures
        c.route_spec(native) == Route::General,
{
}

/// Giving precomputed difficulty attributes changes nothing in what the
/// general algorithm receives but that it receives them, so that it skips
/// computing them; the difficulty engine's inputs stay as they were.
pub proof fn lemma_precomputed_difficulty_is_handed_over<D>(
    c: PyCalculator<D>,
    d: D,
    native: GameMode,
)
    requires
        c.route_spec(native) == Route::General,
    ensures
        (PyCalculator { attributes: Some(d), ..c }).plan_spec(native) == (Plan {
            with_difficulty: true,
            ..c.plan_spec(native)
        }),
        (PyCalculator { attributes: Some(d), ..c }).difficulty_request_spec(native)
            == c.difficulty_request_spec(native),
{
}

/// The inputs of the difficulty engine depend on the mode, the mods, the
/// number of passed objects, the clock rate and the beatmap's own mode, and
/// on nothing else, so two calculations that agree on them ask for the same
/// computation.
pub proof fn lemma_difficulty_request_is_determined<D>(
    a: PyCalculator<D>,
    b: PyCalculator<D>,
    native: GameMode,
)
    requires
        a.mode == b.mode,
        a.mods == b.mods,
        a.passed_objects == b.passed_objects,
        a.clock_rate == b.clock_rate,
    ensures
        a.difficulty_request_spec(native) == b.difficulty_request_spec(native),
{
}

} // verus!
