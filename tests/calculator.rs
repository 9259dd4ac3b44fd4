use refx_pp_py::attributes::{LegacyDifficulty, LegacyPerformance, OsuPerformanceAttributes};
use refx_pp_py::dispatch::{Route, LEGACY_SCORING_BIT, RELAX_BIT};
use refx_pp_py::params::{ArgValue, GameMode, KwargsError, Param, PyCalculator, Real};

fn num(x: f64) -> Real {
    Real { bits: x.to_bits() }
}

fn whole(n: i128) -> ArgValue<u32> {
    ArgValue::Int { value: n, as_real: num(n as f64) }
}

fn named(pairs: Vec<(&str, ArgValue<u32>)>) -> Vec<(String, ArgValue<u32>)> {
    pairs.into_iter().map(|(k, v)| (k.to_string(), v)).collect()
}

fn build(pairs: Vec<(&str, ArgValue<u32>)>) -> Result<PyCalculator<u32>, KwargsError> {
    PyCalculator::new(named(pairs))
}

#[test]
fn empty_construction_gives_nothing() {
    let c = build(vec![]).ok().unwrap();
    assert!(c.mode.is_none() && c.mods.is_none() && c.acc.is_none());
    assert!(!c.notrefx && !c.shaymi_mode);
    assert!(c.attributes.is_none());
}

#[test]
fn plain_mods_take_general_route_in_every_mode() {
    for mods in [0u32, 8, 16, 64, 1024] {
        for mode in [None, Some(GameMode::Osu), Some(GameMode::Taiko), Some(GameMode::Catch), Some(GameMode::Mania)] {
            for native in [GameMode::Osu, GameMode::Taiko, GameMode::Mania] {
                let mut c = PyCalculator::<u32>::empty();
                c.set_mods(mods);
                c.mode = mode;
                assert_eq!(c.route(native), Route::General);
            }
        }
    }
}

#[test]
fn legacy_bit_with_taiko_mode_takes_general_route() {
    let c = build(vec![("mode", whole(1)), ("mods", whole(LEGACY_SCORING_BIT as i128))]).ok().unwrap();
    let plan = c.plan(GameMode::Osu);
    assert_eq!(plan.route, Route::General);
    assert_eq!(plan.mode, Some(GameMode::Taiko));
    assert_eq!(plan.mods, Some(LEGACY_SCORING_BIT));
}

#[test]
fn legacy_bit_needs_standard_rules_on_unset_mode() {
    let mut c = PyCalculator::<u32>::empty();
    c.set_mods(LEGACY_SCORING_BIT);
    assert_eq!(c.route(GameMode::Taiko), Route::General);
    assert_eq!(c.route(GameMode::Osu), Route::Legacy);
    c.notrefx = false;
    c.set_mods(0);
    c.notrefx = true;
    assert_eq!(c.route(GameMode::Catch), Route::General);
    assert_eq!(c.route(GameMode::Osu), Route::Legacy);
}

#[test]
fn legacy_route_is_tried_before_relax() {
    let mut c = PyCalculator::<u32>::empty();
    c.set_mods(LEGACY_SCORING_BIT | RELAX_BIT);
    assert_eq!(c.route(GameMode::Osu), Route::Legacy);
    c.set_mods(RELAX_BIT);
    assert_eq!(c.route(GameMode::Osu), Route::Relax);
    c.set_mods(0);
    c.shaymi_mode = true;
    assert_eq!(c.route(GameMode::Osu), Route::Relax);
    c.set_mode(GameMode::Mania);
    assert_eq!(c.route(GameMode::Osu), Route::General);
}

#[test]
fn standard_score_takes_general_route() {
    let c = build(vec![
        ("mode", whole(0)),
        ("mods", whole(0)),
        ("n300", whole(500)),
        ("n100", whole(10)),
        ("n50", whole(0)),
        ("n_misses", whole(0)),
        ("combo", whole(1000)),
    ])
    .ok()
    .unwrap();
    let plan = c.plan(GameMode::Osu);
    assert_eq!(plan.route, Route::General);
    assert_eq!(plan.mode, Some(GameMode::Osu));
    assert_eq!(plan.n300, Some(500));
    assert_eq!(plan.n100, Some(10));
    assert_eq!(plan.n50, Some(0));
    assert_eq!(plan.n_misses, Some(0));
    assert_eq!(plan.combo, Some(1000));
    assert!(!plan.with_difficulty);
}

#[test]
fn relax_route_receives_assist_overrides() {
    let c = build(vec![("mods", whole(RELAX_BIT as i128)), ("ac", whole(2)), ("tw", whole(3)), ("cs", ArgValue::Bool(true))])
        .ok()
        .unwrap();
    let plan = c.plan(GameMode::Osu);
    assert_eq!(plan.route, Route::Relax);
    assert_eq!(plan.ac, Some(2));
    assert_eq!(plan.tw, Some(3));
    assert_eq!(plan.cs, Some(true));
    assert_eq!(plan.mode, None);
    assert_eq!(plan.clock_rate, None);
}

#[test]
fn legacy_route_drops_assist_overrides() {
    let mut c = PyCalculator::<u32>::empty();
    c.set_mods(LEGACY_SCORING_BIT);
    c.cheat_ac(2);
    c.cheat_arc(num(9.5));
    c.cheat_hdr(true);
    c.cheat_tw(4);
    c.cheat_cs(true);
    c.set_n300(300);
    c.set_acc(num(98.5));
    c.set_passed_objects(40);
    let plan = c.plan(GameMode::Osu);
    assert_eq!(plan.route, Route::Legacy);
    assert_eq!((plan.ac, plan.arc, plan.hdr, plan.tw, plan.cs), (None, None, None, None, None));
    assert_eq!(plan.n300, Some(300));
    assert_eq!(plan.acc, Some(num(98.5)));
    assert_eq!(plan.passed_objects, Some(40));
}

#[test]
fn general_route_receives_every_assist_override() {
    let mut c = PyCalculator::<u32>::empty();
    c.set_mode(GameMode::Mania);
    c.set_n_geki(7);
    c.set_n_katu(8);
    c.set_clock_rate(num(1.5));
    c.cheat_ac(1);
    c.cheat_tw(2);
    c.cheat_cs(false);
    let plan = c.plan(GameMode::Osu);
    assert_eq!(plan.route, Route::General);
    assert_eq!((plan.n_geki, plan.n_katu), (Some(7), Some(8)));
    assert_eq!(plan.clock_rate, Some(num(1.5)));
    assert_eq!(plan.ac, Some(1));
    assert_eq!((plan.tw, plan.cs), (Some(2), Some(false)));
}

#[test]
fn difficulty_request_is_repeatable() {
    let mut c = PyCalculator::<u32>::empty();
    c.set_mode(GameMode::Taiko);
    c.set_mods(64);
    c.set_passed_objects(100);
    c.set_clock_rate(num(1.5));
    let first = c.difficulty_request(GameMode::Osu);
    let second = c.difficulty_request(GameMode::Osu);
    assert_eq!(first, second);
    assert!(first.converted);
    assert_eq!(first.passed_objects, Some(100));
}

#[test]
fn conversion_only_from_standard_beatmaps() {
    let mut c = PyCalculator::<u32>::empty();
    assert!(!c.attributes_request(GameMode::Osu).converted);
    c.set_mode(GameMode::Catch);
    assert!(c.attributes_request(GameMode::Osu).converted);
    assert!(!c.attributes_request(GameMode::Catch).converted);
    assert!(!c.attributes_request(GameMode::Taiko).converted);
    c.set_mode(GameMode::Osu);
    assert!(!c.attributes_request(GameMode::Osu).converted);
}

#[test]
fn precomputed_difficulty_is_handed_to_general_route() {
    let mut c = build(vec![("n300", whole(500)), ("combo", whole(1000))]).ok().unwrap();
    let fresh = c.plan(GameMode::Osu);
    c.set_difficulty(77);
    let reused = c.plan(GameMode::Osu);
    assert!(!fresh.with_difficulty);
    assert!(reused.with_difficulty);
    assert_eq!(reused.n300, fresh.n300);
    assert_eq!(reused.combo, fresh.combo);
    assert_eq!(c.attributes, Some(77));
    let d = build(vec![("difficulty", ArgValue::Difficulty(5))]).ok().unwrap();
    assert_eq!(d.attributes, Some(5));
    let e = build(vec![("attributes", ArgValue::Difficulty(6))]).ok().unwrap();
    assert!(e.plan(GameMode::Taiko).with_difficulty);
}

#[test]
fn precomputed_difficulty_is_not_handed_to_relax_route() {
    let mut c = PyCalculator::<u32>::empty();
    c.set_difficulty(1);
    c.set_mods(RELAX_BIT);
    assert!(!c.plan(GameMode::Osu).with_difficulty);
}

#[test]
fn legacy_result_is_zero_filled() {
    let r = LegacyPerformance {
        difficulty: LegacyDifficulty {
            aim_strain: num(2.5),
            speed_strain: num(2.25),
            ar: num(9.0),
            od: num(8.0),
            hp: num(5.0),
            cs: num(4.0),
            n_circles: 300,
            n_sliders: 200,
            n_spinners: 2,
            stars: num(5.75),
            max_combo: 700,
        },
        pp: num(250.5),
        pp_acc: num(60.0),
        pp_aim: num(100.0),
        pp_flashlight: num(1.0),
        pp_speed: num(90.0),
        effective_miss_count: num(0.5),
    };
    let o = OsuPerformanceAttributes::from_legacy(&r);
    assert_eq!(o.difficulty.flashlight, num(0.0));
    assert_eq!(o.difficulty.slider_factor, num(0.0));
    assert_eq!(o.difficulty.speed_note_count, num(0.0));
    assert_eq!(o.difficulty.aim_difficult_strain_count, num(0.0));
    assert_eq!(o.difficulty.speed_difficult_strain_count, num(0.0));
    assert_eq!(o.difficulty.aim, num(2.5));
    assert_eq!(o.difficulty.speed, num(2.25));
    assert_eq!(o.difficulty.stars, num(5.75));
    assert_eq!(o.difficulty.max_combo, 700);
    assert_eq!(o.difficulty.n_circles, 300);
    assert_eq!(o.pp, num(250.5));
    assert_eq!(o.pp_flashlight, num(1.0));
    assert_eq!(o.effective_miss_count, num(0.5));
}

#[test]
fn unknown_name_lists_accepted_names() {
    match build(vec![("nmiss", whole(1))]) {
        Err(e) => {
            assert!(matches!(e, KwargsError::UnrecognizedParameter(ref n) if n == "nmiss"));
            let m = e.message();
            assert!(m.starts_with("unexpected kwarg 'nmiss': expected "));
            for name in ["'mode'", "'mods'", "'n_misses'", "'acc'", "'accuracy'", "'combo'", "'tw'", "'cs'", "'clock_rate'", "'difficulty'", "'attributes'", "'notrefx'"] {
                assert!(m.contains(name), "{}", name);
            }
        }
        Ok(_) => panic!("an unknown name was accepted"),
    }
}

#[test]
fn type_mismatch_names_the_parameter() {
    match build(vec![("mode", ArgValue::Bool(true))]) {
        Err(e) => {
            assert!(matches!(e, KwargsError::TypeMismatch(Param::Mode)));
            assert_eq!(e.message(), "kwarg 'mode': must be an int");
        }
        Ok(_) => panic!("a boolean mode was accepted"),
    }
    match build(vec![("n300", whole(-1))]) {
        Err(e) => assert!(matches!(e, KwargsError::TypeMismatch(Param::N300))),
        Ok(_) => panic!("a negative count was accepted"),
    }
    match build(vec![("mods", whole(1 << 40))]) {
        Err(e) => assert!(matches!(e, KwargsError::TypeMismatch(Param::Mods))),
        Ok(_) => panic!("a mask out of range was accepted"),
    }
    match build(vec![("hdr", whole(1))]) {
        Err(e) => assert_eq!(e.message(), "kwarg 'hdr': must be a boolean"),
        Ok(_) => panic!("an integer flag was accepted"),
    }
    match build(vec![("clock_rate", ArgValue::Other)]) {
        Err(e) => assert_eq!(e.message(), "kwarg 'clock_rate': must be a real number"),
        Ok(_) => panic!("a value of another kind was accepted"),
    }
    match build(vec![("difficulty", whole(3))]) {
        Err(e) => assert_eq!(e.message(), "kwarg 'difficulty': must be DifficultyAttributes"),
        Ok(_) => panic!("an integer difficulty was accepted"),
    }
}

#[test]
fn mode_out_of_range_is_invalid() {
    match build(vec![("mode", whole(4))]) {
        Err(e) => {
            assert!(matches!(e, KwargsError::InvalidEnumValue(4)));
            assert_eq!(e.message(), "invalid mode integer");
        }
        Ok(_) => panic!("mode 4 was accepted"),
    }
    let c = build(vec![("mode", whole(3))]).ok().unwrap();
    assert_eq!(c.mode, Some(GameMode::Mania));
}

#[test]
fn first_failure_stops_construction() {
    match build(vec![("n300", whole(5)), ("nope", whole(1)), ("mode", whole(9))]) {
        Err(e) => assert!(matches!(e, KwargsError::UnrecognizedParameter(_))),
        Ok(_) => panic!("construction went on"),
    }
}

#[test]
fn later_values_overwrite_and_null_clears() {
    let c = build(vec![
        ("combo", whole(10)),
        ("combo", whole(20)),
        ("acc", ArgValue::Float(num(97.0))),
        ("accuracy", whole(99)),
        ("n50", whole(3)),
        ("n50", ArgValue::Null),
        ("tw", whole(6)),
        ("cs", ArgValue::Bool(false)),
        ("shaymi_mode", ArgValue::Bool(true)),
    ])
    .ok()
    .unwrap();
    assert_eq!(c.combo, Some(20));
    assert_eq!(c.acc, Some(num(99.0)));
    assert_eq!(c.n50, None);
    assert_eq!(c.tw, Some(6));
    assert_eq!(c.cs, Some(false));
    assert_eq!(c.hdr, None);
    assert!(c.shaymi_mode);
}

#[test]
fn setters_overwrite() {
    let mut c = PyCalculator::<u32>::empty();
    c.set_combo(5);
    c.set_combo(6);
    c.set_n_misses(2);
    c.set_n_misses(1);
    assert_eq!(c.combo, Some(6));
    assert_eq!(c.n_misses, Some(1));
    assert_eq!(Real::zero(), num(0.0));
}
