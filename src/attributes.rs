//! The canonical osu!standard performance record, and its construction from
//! the result shape of the legacy-client and relax algorithms.
use vstd::prelude::*;

use crate::params::Real;

verus! {

/// Difficulty facts as the legacy-client and relax algorithms report them.
#[derive(Clone, Copy, Debug, PartialEq, Eq, Structural)]
pub struct LegacyDifficulty {
    pub aim_strain: Real,
    pub speed_strain: Real,
    pub ar: Real,
    pub od: Real,
    pub hp: Real,
    pub cs: Real,
    pub n_circles: usize,
    pub n_sliders: usize,
    pub n_spinners: usize,
    pub stars: Real,
    pub max_combo: usize,
}

/// The result of the legacy-client and relax algorithms.
#[derive(Clone, Copy, Debug, PartialEq, Eq, Structural)]
pub struct LegacyPerformance {
    pub difficulty: LegacyDifficulty,
    pub pp: Real,
    pub pp_acc: Real,
    pub pp_aim: Real,
    pub pp_flashlight: Real,
    pub pp_speed: Real,
    pub effective_miss_count: Real,
}

/// Canonical osu!standard difficulty attributes.
#[derive(Clone, Copy, Debug, PartialEq, Eq, Structural)]
pub struct OsuDifficultyAttributes {
    pub aim: Real,
    pub speed: Real,
    pub flashlight: Real,
    pub slider_factor: Real,
    pub speed_note_count: Real,
    pub ar: Real,
    pub od: Real,
    pub hp: Real,
    pub cs: Real,
    pub n_circles: usize,
    pub n_sliders: usize,
    pub n_spinners: usize,
    pub stars: Real,
    pub max_combo: usize,
    pub aim_difficult_strain_count: Real,
    pub speed_difficult_strain_count: Real,
}

/// Canonical osu!standard performance attributes.
#[derive(Clone, Copy, Debug, PartialEq, Eq, Structural)]
pub struct OsuPerformanceAttributes {
    pub difficulty: OsuDifficultyAttributes,
    pub pp: Real,
    pub pp_acc: Real,
    pub pp_aim: Real,
    pub pp_flashlight: Real,
    pub pp_speed: Real,
    pub effective_miss_count: Real,
}

impl OsuPerformanceAttributes {
    /// The canonical record of a legacy-shaped result. The flashlight
    /// difficulty, slider factor, speed note count and both difficult-strain
    /// counts are not computed by those algorithms: they are zero, which here
    /// means "not computed", not "negligible". Every other field is copied.
    pub fn from_legacy(r: &LegacyPerformance) -> (o: OsuPerformanceAttributes)
        ensures
            o.difficulty.flashlight.is_zero(),
            o.difficulty.slider_factor.is_zero(),
            o.difficulty.speed_note_count.is_zero(),
            o.difficulty.aim_difficult_strain_count.is_zero(),
            o.difficulty.speed_difficult_strain_count.is_zero(),
            o.difficulty.aim == r.difficulty.aim_strain,
            o.difficulty.speed == r.difficulty.speed_strain,
            o.difficulty.ar == r.difficulty.ar,
            o.difficulty.od == r.difficulty.od,
            o.difficulty.hp == r.difficulty.hp,
            o.difficulty.cs == r.difficulty.cs,
            o.difficulty.n_circles == r.difficulty.n_circles,
            o.difficulty.n_sliders == r.difficulty.n_sliders,
            o.difficulty.n_spinners == r.difficulty.n_spinners,
            o.difficulty.stars == r.difficulty.stars,
            o.difficulty.max_combo == r.difficulty.max_combo,
            o.pp == r.pp,
            o.pp_acc == r.pp_acc,
            o.pp_aim == r.pp_aim,
            o.pp_flashlight == r.pp_flashlight,
            o.pp_speed == r.pp_speed,
            o.effective_miss_count == r.effective_miss_count,
    {
        let d = &r.difficulty;
        OsuPerformanceAttributes {
            difficulty: OsuDifficultyAttributes {
                aim: d.aim_strain,
                speed: d.speed_strain,
                flashlight: Real::zero(),
                slider_factor: Real::zero(),
                speed_note_count: Real::zero(),
                ar: d.ar,
                od: d.od,
                hp: d.hp,
                cs: d.cs,
                n_circles: d.n_circles,
                n_sliders: d.n_sliders,
                n_spinners: d.n_spinners,
                stars: d.stars,
                max_combo: d.max_combo,
                aim_difficult_strain_count: Real::zero(),
                speed_difficult_strain_count: Real::zero(),
            },
            pp: r.pp,
            pp_acc: r.pp_acc,
            pp_aim: r.pp_aim,
            pp_flashlight: r.pp_flashlight,
            pp_speed: r.pp_speed,
            effective_miss_count: r.effective_miss_count,
        }
    }
}

} // verus!
