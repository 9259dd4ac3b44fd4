//! The parameter set of a calculation and its construction from named values.
use vstd::prelude::*;
use vstd::string::*;

verus! {

/// The four game modes.
#[derive(Clone, Copy, Debug, PartialEq, Eq, Structural)]
pub enum GameMode {
    Osu,
    Taiko,
    Catch,
    Mania,
}

/// A real number, carried as the bit pattern of an IEEE-754 double.
///
/// The library never computes with real numbers: it stores, forwards and
/// zero-fills them. The pattern `0` is the real number zero.
#[derive(Clone, Copy, Debug, PartialEq, Eq, Structural)]
pub struct Real {
    pub bits: u64,
}

impl Real {
    /// The real number zero.
    pub fn zero() -> (r: Real)
        ensures
            r.bits == 0,
    {
        Real { bits: 0 }
    }

    pub open spec fn is_zero(self) -> bool {
        self.bits == 0
    }
}

/// The accumulated inputs of a calculation. Every input is optional; the two
/// flags choose alternative algorithms (see `crate::dispatch`).
///
/// `D` is the type of precomputed difficulty attributes.
pub struct PyCalculator<D> {
    pub attributes: Option<D>,
    pub mode: Option<GameMode>,
    pub mods: Option<u32>,
    pub acc: Option<Real>,
    pub n_geki: Option<usize>,
    pub n_katu: Option<usize>,
    pub n300: Option<usize>,
    pub n100: Option<usize>,
    pub n50: Option<usize>,
    pub n_misses: Option<usize>,
    pub combo: Option<usize>,
    pub passed_objects: Option<usize>,
    pub clock_rate: Option<Real>,
    /// Selects the relax algorithm for osu!standard, whatever the mods.
    pub shaymi_mode: bool,
    /// Assist override: auto-correction count.
    pub ac: Option<usize>,
    /// Assist override: approach rate.
    pub arc: Option<Real>,
    /// Assist override: hidden-rate flag.
    pub hdr: Option<bool>,
    /// Assist override: time-warp factor.
    pub tw: Option<usize>,
    /// Assist override: circle-size lock.
    pub cs: Option<bool>,
    /// Selects the legacy-client algorithm for osu!standard, whatever the mods.
    pub notrefx: bool,
}

impl<D> PyCalculator<D> {
    /// The parameter set with nothing given.
    pub open spec fn empty_spec() -> PyCalculator<D> {
        PyCalculator {
            attributes: None,
            mode: None,
            mods: None,
            acc: None,
            n_geki: None,
            n_katu: None,
            n300: None,
            n100: None,
            n50: None,
            n_misses: None,
            combo: None,
            passed_objects: None,
            clock_rate: None,
            shaymi_mode: false,
            ac: None,
            arc: None,
            hdr: None,
            tw: None,
            cs: None,
            notrefx: false,
        }
    }

    /// A parameter set with nothing given.
    pub fn empty() -> (r: Self)
        ensures
            r == Self::empty_spec(),
    {
        PyCalculator {
            attributes: None,
            mode: None,
            mods: None,
            acc: None,
            n_geki: None,
            n_katu: None,
            n300: None,
            n100: None,
            n50: None,
            n_misses: None,
            combo: None,
            passed_objects: None,
            clock_rate: None,
            shaymi_mode: false,
            ac: None,
            arc: None,
            hdr: None,
            tw: None,
            cs: None,
            notrefx: false,
        }
    }

    pub fn set_mode(&mut self, mode: GameMode)
        ensures
            *final(self) == (PyCalculator { mode: Some(mode), ..*old(self) }),
    {
        self.mode = Some(mode);
    }

    pub fn set_mods(&mut self, mods: u32)
        ensures
            *final(self) == (PyCalculator { mods: Some(mods), ..*old(self) }),
    {
        self.mods = Some(mods);
    }

    pub fn set_acc(&mut self, acc: Real)
        ensures
            *final(self) == (PyCalculator { acc: Some(acc), ..*old(self) }),
    {
        self.acc = Some(acc);
    }

    pub fn set_n_geki(&mut self, n_geki: usize)
        ensures
            *final(self) == (PyCalculator { n_geki: Some(n_geki), ..*old(self) }),
    {
        self.n_geki = Some(n_geki);
    }

    pub fn set_n_katu(&mut self, n_katu: usize)
        ensures
            *final(self) == (PyCalculator { n_katu: Some(n_katu), ..*old(self) }),
    {
        self.n_katu = Some(n_katu);
    }

    pub fn set_n300(&mut self, n300: usize)
        ensures
            *final(self) == (PyCalculator { n300: Some(n300), ..*old(self) }),
    {
        self.n300 = Some(n300);
    }

    pub fn set_n100(&mut self, n100: usize)
        ensures
            *final(self) == (PyCalculator { n100: Some(n100), ..*old(self) }),
    {
        self.n100 = Some(n100);
    }

    pub fn set_n50(&mut self, n50: usize)
        ensures
            *final(self) == (PyCalculator { n50: Some(n50), ..*old(self) }),
    {
        self.n50 = Some(n50);
    }

    pub fn set_n_misses(&mut self, n_misses: usize)
        ensures
            *final(self) == (PyCalculator { n_misses: Some(n_misses), ..*old(self) }),
    {
        self.n_misses = Some(n_misses);
    }

    pub fn set_combo(&mut self, combo: usize)
        ensures
            *final(self) == (PyCalculator { combo: Some(combo), ..*old(self) }),
    {
        self.combo = Some(combo);
    }

    pub fn cheat_ac(&mut self, ac: usize)
        ensures
            *final(self) == (PyCalculator { ac: Some(ac), ..*old(self) }),
    {
        self.ac = Some(ac);
    }

    pub fn cheat_arc(&mut self, arc: Real)
        ensures
            *final(self) == (PyCalculator { arc: Some(arc), ..*old(self) }),
    {
        self.arc = Some(arc);
    }

    pub fn cheat_hdr(&mut self, hdr: bool)
        ensures
            *final(self) == (PyCalculator { hdr: Some(hdr), ..*old(self) }),
    {
        self.hdr = Some(hdr);
    }

    pub fn cheat_tw(&mut self, tw: usize)
        ensures
            *final(self) == (PyCalculator { tw: Some(tw), ..*old(self) }),
    {
        self.tw = Some(tw);
    }

    pub fn cheat_cs(&mut self, cs: bool)
        ensures
            *final(self) == (PyCalculator { cs: Some(cs), ..*old(self) }),
    {
        self.cs = Some(cs);
    }

    pub fn set_passed_objects(&mut self, passed_objects: usize)
        ensures
            *final(self) == (PyCalculator { passed_objects: Some(passed_objects), ..*old(self) }),
    {
        self.passed_objects = Some(passed_objects);
    }

    pub fn set_clock_rate(&mut self, clock_rate: Real)
        ensures
            *final(self) == (PyCalculator { clock_rate: Some(clock_rate), ..*old(self) }),
    {
        self.clock_rate = Some(clock_rate);
    }

    pub fn set_difficulty(&mut self, difficulty: D)
        ensures
            *final(self) == (PyCalculator { attributes: Some(difficulty), ..*old(self) }),
    {
        self.attributes = Some(difficulty);
    }
}

/// An untyped value handed to construction under a parameter name.
pub enum ArgValue<D> {
    /// No value: clears an optional parameter.
    Null,
    /// An integer, together with its value as a real number for the
    /// parameters that take one.
    Int { value: i128, as_real: Real },
    /// A real number.
    Float(Real),
    Bool(bool),
    /// Precomputed difficulty attributes.
    Difficulty(D),
    /// Any other kind of value.
    Other,
}

/// The parameters that construction accepts by name.
#[derive(Clone, Copy, Debug, PartialEq, Eq, Structural)]
pub enum Param {
    Mode,
    ShaymiMode,
    Mods,
    N300,
    N100,
    N50,
    NMisses,
    NGeki,
    NKatu,
    Acc,
    Combo,
    Ac,
    Arc,
    Hdr,
    Tw,
    Cs,
    PassedObjects,
    ClockRate,
    Difficulty,
    Notrefx,
}

/// Why construction from named values failed.
pub enum KwargsError {
    /// The value's type does not fit the named parameter.
    TypeMismatch(Param),
    /// No parameter has this name.
    UnrecognizedParameter(String),
    /// An integer names no game mode.
    InvalidEnumValue(i128),
}

/// What a `KwargsError` says, with names as character sequences.
pub enum Failure {
    TypeMismatch(Param),
    UnrecognizedParameter(Seq<char>),
    InvalidEnumValue(int),
}

impl View for KwargsError {
    type V = Failure;

    open spec fn view(&self) -> Failure {
        match self {
            KwargsError::TypeMismatch(p) => Failure::TypeMismatch(*p),
            KwargsError::UnrecognizedParameter(n) => Failure::UnrecognizedParameter(n@),
            KwargsError::InvalidEnumValue(v) => Failure::InvalidEnumValue(*v as int),
        }
    }
}

/// The parameter that a name stands for; two names are accepted for the
/// accuracy and for the precomputed difficulty.
pub open spec fn param_named(name: Seq<char>) -> Option<Param> {
    if name == "mode"@ {
        Some(Param::Mode)
    } else if name == "shaymi_mode"@ {
        Some(Param::ShaymiMode)
    } else if name == "mods"@ {
        Some(Param::Mods)
    } else if name == "n300"@ {
        Some(Param::N300)
    } else if name == "n100"@ {
        Some(Param::N100)
    } else if name == "n50"@ {
        Some(Param::N50)
    } else if name == "n_misses"@ {
        Some(Param::NMisses)
    } else if name == "n_geki"@ {
        Some(Param::NGeki)
    } else if name == "n_katu"@ {
        Some(Param::NKatu)
    } else if name == "acc"@ || name == "accuracy"@ {
        Some(Param::Acc)
    } else if name == "combo"@ {
        Some(Param::Combo)
    } else if name == "ac"@ {
        Some(Param::Ac)
    } else if name == "arc"@ {
        Some(Param::Arc)
    } else if name == "hdr"@ {
        Some(Param::Hdr)
    } else if name == "tw"@ {
        Some(Param::Tw)
    } else if name == "cs"@ {
        Some(Param::Cs)
    } else if name == "passed_objects"@ {
        Some(Param::PassedObjects)
    } else if name == "clock_rate"@ {
        Some(Param::ClockRate)
    } else if name == "difficulty"@ || name == "attributes"@ {
        Some(Param::Difficulty)
    } else if name == "notrefx"@ {
        Some(Param::Notrefx)
    } else {
        None
    }
}

/// An optional count: `None` on a type mismatch, `Some(None)` to clear.
pub open spec fn count_of<D>(v: ArgValue<D>) -> Option<Option<usize>> {
    match v {
        ArgValue::Null => Some(None),
        ArgValue::Int { value, .. } => if 0 <= value <= usize::MAX {
            Some(Some(value as usize))
        } else {
            None
        },
        _ => None,
    }
}

/// An optional mod mask: `None` on a type mismatch, `Some(None)` to clear.
pub open spec fn mask_of<D>(v: ArgValue<D>) -> Option<Option<u32>> {
    match v {
        ArgValue::Null => Some(None),
        ArgValue::Int { value, .. } => if 0 <= value <= u32::MAX {
            Some(Some(value as u32))
        } else {
            None
        },
        _ => None,
    }
}

/// An optional real number: `None` on a type mismatch, `Some(None)` to clear.
pub open spec fn real_of<D>(v: ArgValue<D>) -> Option<Option<Real>> {
    match v {
        ArgValue::Null => Some(None),
        ArgValue::Int { as_real, .. } => Some(Some(as_real)),
        ArgValue::Float(r) => Some(Some(r)),
        _ => None,
    }
}

/// An optional flag: `None` on a type mismatch, `Some(None)` to clear.
pub open spec fn flag_of<D>(v: ArgValue<D>) -> Option<Option<bool>> {
    match v {
        ArgValue::Null => Some(None),
        ArgValue::Bool(b) => Some(Some(b)),
        _ => None,
    }
}

/// The game mode with the given number, in the order Osu, Taiko, Catch, Mania.
pub open spec fn mode_numbered(n: int) -> Option<GameMode> {
    if n == 0 {
        Some(GameMode::Osu)
    } else if n == 1 {
        Some(GameMode::Taiko)
    } else if n == 2 {
        Some(GameMode::Catch)
    } else if n == 3 {
        Some(GameMode::Mania)
    } else {
        None
    }
}

/// Stores an extracted optional value, or fails with a type mismatch.
pub open spec fn stored<D, T>(
    c: PyCalculator<D>,
    p: Param,
    x: Option<Option<T>>,
    put: spec_fn(PyCalculator<D>, Option<T>) -> PyCalculator<D>,
) -> Result<PyCalculator<D>, Failure> {
    match x {
        Some(o) => Ok(put(c, o)),
        None => Err(Failure::TypeMismatch(p)),
    }
}

impl<D> PyCalculator<D> {
    /// The outcome of giving the value `v` under the name `name` to `self`.
    pub open spec fn given(self, name: Seq<char>, v: ArgValue<D>) -> Result<PyCalculator<D>, Failure> {
        match param_named(name) {
            None => Err(Failure::UnrecognizedParameter(name)),
            Some(Param::Mode) => match v {
                ArgValue::Int { value, .. } => match mode_numbered(value as int) {
                    Some(m) => Ok(PyCalculator { mode: Some(m), ..self }),
                    None => Err(Failure::InvalidEnumValue(value as int)),
                },
                _ => Err(Failure::TypeMismatch(Param::Mode)),
            },
            Some(Param::ShaymiMode) => match v {
                ArgValue::Bool(b) => Ok(PyCalculator { shaymi_mode: b, ..self }),
                _ => Err(Failure::TypeMismatch(Param::ShaymiMode)),
            },
            Some(Param::Notrefx) => match v {
                ArgValue::Bool(b) => Ok(PyCalculator { notrefx: b, ..self }),
                _ => Err(Failure::TypeMismatch(Param::Notrefx)),
            },
            Some(Param::Difficulty) => match v {
                ArgValue::Difficulty(d) => Ok(PyCalculator { attributes: Some(d), ..self }),
                _ => Err(Failure::TypeMismatch(Param::Difficulty)),
            },
            Some(Param::Mods) => stored(self, Param::Mods, mask_of(v),
                |c: PyCalculator<D>, o| PyCalculator { mods: o, ..c }),
            Some(Param::N300) => stored(self, Param::N300, count_of(v),
                |c: PyCalculator<D>, o| PyCalculator { n300: o, ..c }),
            Some(Param::N100) => stored(self, Param::N100, count_of(v),
                |c: PyCalculator<D>, o| PyCalculator { n100: o, ..c }),
            Some(Param::N50) => stored(self, Param::N50, count_of(v),
                |c: PyCalculator<D>, o| PyCalculator { n50: o, ..c }),
            Some(Param::NMisses) => stored(self, Param::NMisses, count_of(v),
                |c: PyCalculator<D>, o| PyCalculator { n_misses: o, ..c }),
            Some(Param::NGeki) => stored(self, Param::NGeki, count_of(v),
                |c: PyCalculator<D>, o| PyCalculator { n_geki: o, ..c }),
            Some(Param::NKatu) => stored(self, Param::NKatu, count_of(v),
                |c: PyCalculator<D>, o| PyCalculator { n_katu: o, ..c }),
            Some(Param::Combo) => stored(self, Param::Combo, count_of(v),
                |c: PyCalculator<D>, o| PyCalculator { combo: o, ..c }),
            Some(Param::Ac) => stored(self, Param::Ac, count_of(v),
                |c: PyCalculator<D>, o| PyCalculator { ac: o, ..c }),
            Some(Param::Tw) => stored(self, Param::Tw, count_of(v),
                |c: PyCalculator<D>, o| PyCalculator { tw: o, ..c }),
            Some(Param::PassedObjects) => stored(self, Param::PassedObjects, count_of(v),
                |c: PyCalculator<D>, o| PyCalculator { passed_objects: o, ..c }),
            Some(Param::Acc) => stored(self, Param::Acc, real_of(v),
                |c: PyCalculator<D>, o| PyCalculator { acc: o, ..c }),
            Some(Param::Arc) => stored(self, Param::Arc, real_of(v),
                |c: PyCalculator<D>, o| PyCalculator { arc: o, ..c }),
            Some(Param::ClockRate) => stored(self, Param::ClockRate, real_of(v),
                |c: PyCalculator<D>, o| PyCalculator { clock_rate: o, ..c }),
            Some(Param::Hdr) => stored(self, Param::Hdr, flag_of(v),
                |c: PyCalculator<D>, o| PyCalculator { hdr: o, ..c }),
            Some(Param::Cs) => stored(self, Param::Cs, flag_of(v),
                |c: PyCalculator<D>, o| PyCalculator { cs: o, ..c }),
        }
    }

    /// The outcome of giving the named values, in order, to an empty set:
    /// the first failure stops construction, and a later value under the
    /// same parameter overwrites an earlier one.
    pub open spec fn built(args: Seq<(Seq<char>, ArgValue<D>)>) -> Result<PyCalculator<D>, Failure>
        decreases args.len(),
    {
        if args.len() == 0 {
            Ok(Self::empty_spec())
        } else {
            match Self::built(args.drop_last()) {
                Ok(c) => c.given(args.last().0, args.last().1),
                Err(e) => Err(e),
            }
        }
    }
}

/// Whether `name` spells the literal `lit`.
fn is_named(name: &String, lit: &str) -> (r: bool)
    ensures
        r == (name@ == lit@),
{
    let l = String::from_str(lit);
    name.eq(&l)
}

/// The parameter that `name` stands for, if any.
pub fn param_of(name: &String) -> (r: Option<Param>)
    ensures
        r == param_named(name@),
{
    if is_named(name, "mode") {
        Some(Param::Mode)
    } else if is_named(name, "shaymi_mode") {
        Some(Param::ShaymiMode)
    } else if is_named(name, "mods") {
        Some(Param::Mods)
    } else if is_named(name, "n300") {
        Some(Param::N300)
    } else if is_named(name, "n100") {
        Some(Param::N100)
    } else if is_named(name, "n50") {
        Some(Param::N50)
    } else if is_named(name, "n_misses") {
        Some(Param::NMisses)
    } else if is_named(name, "n_geki") {
        Some(Param::NGeki)
    } else if is_named(name, "n_katu") {
        Some(Param::NKatu)
    } else if is_named(name, "acc") || is_named(name, "accuracy") {
        Some(Param::Acc)
    } else if is_named(name, "combo") {
        Some(Param::Combo)
    } else if is_named(name, "ac") {
        Some(Param::Ac)
    } else if is_named(name, "arc") {
        Some(Param::Arc)
    } else if is_named(name, "hdr") {
        Some(Param::Hdr)
    } else if is_named(name, "tw") {
        Some(Param::Tw)
    } else if is_named(name, "cs") {
        Some(Param::Cs)
    } else if is_named(name, "passed_objects") {
        Some(Param::PassedObjects)
    } else if is_named(name, "clock_rate") {
        Some(Param::ClockRate)
    } else if is_named(name, "difficulty") || is_named(name, "attributes") {
        Some(Param::Difficulty)
    } else if is_named(name, "notrefx") {
        Some(Param::Notrefx)
    } else {
        None
    }
}

fn count_arg<D>(v: ArgValue<D>) -> (r: Option<Option<usize>>)
    ensures
        r == count_of(v),
{
    match v {
        ArgValue::Null => Some(None),
        ArgValue::Int { value, .. } => if 0 <= value && value <= usize::MAX as i128 {
            Some(Some(value as usize))
        } else {
            None
        },
        _ => None,
    }
}

fn mask_arg<D>(v: ArgValue<D>) -> (r: Option<Option<u32>>)
    ensures
        r == mask_of(v),
{
    match v {
        ArgValue::Null => Some(None),
        ArgValue::Int { value, .. } => if 0 <= value && value <= u32::MAX as i128 {
            Some(Some(value as u32))
        } else {
            None
        },
        _ => None,
    }
}

fn real_arg<D>(v: ArgValue<D>) -> (r: Option<Option<Real>>)
    ensures
        r == real_of(v),
{
    match v {
        ArgValue::Null => Some(None),
        ArgValue::Int { as_real, .. } => Some(Some(as_real)),
        ArgValue::Float(r) => Some(Some(r)),
        _ => None,
    }
}

fn flag_arg<D>(v: ArgValue<D>) -> (r: Option<Option<bool>>)
    ensures
        r == flag_of(v),
{
    match v {
        ArgValue::Null => Some(None),
        ArgValue::Bool(b) => Some(Some(b)),
        _ => None,
    }
}

/// The game mode numbered `n` (0 to 3), if any.
pub fn mode_of_number(n: i128) -> (r: Option<GameMode>)
    ensures
        r == mode_numbered(n as int),
{
    if n == 0 {
        Some(GameMode::Osu)
    } else if n == 1 {
        Some(GameMode::Taiko)
    } else if n == 2 {
        Some(GameMode::Catch)
    } else if n == 3 {
        Some(GameMode::Mania)
    } else {
        None
    }
}

/// The named values with their names as character sequences.
pub open spec fn named<D>(args: Seq<(String, ArgValue<D>)>) -> Seq<(Seq<char>, ArgValue<D>)> {
    args.map_values(|p: (String, ArgValue<D>)| (p.0@, p.1))
}

/// Once construction has failed on a prefix, it fails the same way on the whole.
proof fn lemma_failure_persists<D>(args: Seq<(Seq<char>, ArgValue<D>)>, k: int)
    requires
        0 <= k <= args.len(),
        PyCalculator::<D>::built(args.take(k)) is Err,
    ensures
        PyCalculator::<D>::built(args) == PyCalculator::<D>::built(args.take(k)),
    decreases args.len() - k,
{
    if k < args.len() {
        let shorter = args.drop_last();
        assert(shorter.take(k) =~= args.take(k));
        lemma_failure_persists(shorter, k);
    } else {
        assert(args.take(k) =~= args);
    }
}

impl<D> PyCalculator<D> {
    /// Gives the value `v` under the name `name`.
    pub fn give(self, name: String, v: ArgValue<D>) -> (r: Result<Self, KwargsError>)
        ensures
            match r {
                Ok(c) => self.given(name@, v) == Ok::<PyCalculator<D>, Failure>(c),
                Err(e) => self.given(name@, v) == Err::<PyCalculator<D>, Failure>(e@),
            },
    {
        let mut c = self;
        match param_of(&name) {
            None => Err(KwargsError::UnrecognizedParameter(name)),
            Some(Param::Mode) => match v {
                ArgValue::Int { value, .. } => match mode_of_number(value) {
                    Some(m) => {
                        c.mode = Some(m);
                        Ok(c)
                    },
                    None => Err(KwargsError::InvalidEnumValue(value)),
                },
                _ => Err(KwargsError::TypeMismatch(Param::Mode)),
            },
            Some(Param::ShaymiMode) => match v {
                ArgValue::Bool(b) => {
                    c.shaymi_mode = b;
                    Ok(c)
                },
                _ => Err(KwargsError::TypeMismatch(Param::ShaymiMode)),
            },
            Some(Param::Notrefx) => match v {
                ArgValue::Bool(b) => {
                    c.notrefx = b;
                    Ok(c)
                },
                _ => Err(KwargsError::TypeMismatch(Param::Notrefx)),
            },
            Some(Param::Difficulty) => match v {
                ArgValue::Difficulty(d) => {
                    c.attributes = Some(d);
                    Ok(c)
                },
                _ => Err(KwargsError::TypeMismatch(Param::Difficulty)),
            },
            Some(Param::Mods) => match mask_arg(v) {
                Some(o) => {
                    c.mods = o;
                    Ok(c)
                },
                None => Err(KwargsError::TypeMismatch(Param::Mods)),
            },
            Some(p) => {
                let is_count = match p {
                    Param::N300 | Param::N100 | Param::N50 | Param::NMisses | Param::NGeki
                    | Param::NKatu | Param::Combo | Param::Ac | Param::Tw
                    | Param::PassedObjects => true,
                    _ => false,
                };
                if is_count {
                    match count_arg(v) {
                        Some(o) => {
                            match p {
                                Param::N300 => c.n300 = o,
                                Param::N100 => c.n100 = o,
                                Param::N50 => c.n50 = o,
                                Param::NMisses => c.n_misses = o,
                                Param::NGeki => c.n_geki = o,
                                Param::NKatu => c.n_katu = o,
                                Param::Combo => c.combo = o,
                                Param::Ac => c.ac = o,
                                Param::Tw => c.tw = o,
                                _ => c.passed_objects = o,
                            }
                            Ok(c)
                        },
                        None => Err(KwargsError::TypeMismatch(p)),
                    }
                } else if p == Param::Acc || p == Param::Arc || p == Param::ClockRate {
                    match real_arg(v) {
                        Some(o) => {
                            match p {
                                Param::Acc => c.acc = o,
                                Param::Arc => c.arc = o,
                                _ => c.clock_rate = o,
                            }
                            Ok(c)
                        },
                        None => Err(KwargsError::TypeMismatch(p)),
                    }
                } else {
                    match flag_arg(v) {
                        Some(o) => {
                            match p {
                                Param::Hdr => c.hdr = o,
                                _ => c.cs = o,
                            }
                            Ok(c)
                        },
                        None => Err(KwargsError::TypeMismatch(p)),
                    }
                }
            },
        }
    }

    /// Builds a parameter set from named values, in order. An unknown name,
    /// a value of the wrong type or a mode number out of range fails.
    pub fn new(args: Vec<(String, ArgValue<D>)>) -> (r: Result<Self, KwargsError>)
        ensures
            match r {
                Ok(c) => Self::built(named(args@)) == Ok::<PyCalculator<D>, Failure>(c),
                Err(e) => Self::built(named(args@)) == Err::<PyCalculator<D>, Failure>(e@),
            },
    {
        let ghost orig = args@;
        let ghost all = named(orig);
        let ghost mut i: int = 0;
        let mut rest = args;
        let mut this = Self::empty();
        assert(all.take(0) =~= Seq::<(Seq<char>, ArgValue<D>)>::empty());
        while rest.len() > 0
            invariant
                orig == args@,
                all == named(orig),
                0 <= i <= all.len(),
                named(rest@) == all.skip(i),
                Self::built(all.take(i)) == Ok::<PyCalculator<D>, Failure>(this),
            decreases rest.len(),
        {
            let ghost before = rest@;
            assert(named(before).len() == before.len());
            assert(all.skip(i).len() == all.len() - i);
            let (name, value) = rest.remove(0);
            let ghost gname = name@;
            let ghost gvalue = value;
            proof {
                assert(named(before)[0] == all.skip(i)[0]);
                assert(named(before)[0] == all[i]);
                assert(all.take(i + 1).drop_last() =~= all.take(i));
                assert(rest@.len() == before.len() - 1);
                assert forall|j: int| 0 <= j < rest@.len() implies named(rest@)[j] == all.skip(
                    i + 1,
                )[j] by {
                    assert(rest@[j] == before[j + 1]);
                    assert(named(before)[j + 1] == all.skip(i)[j + 1]);
                }
                assert(named(rest@) =~= all.skip(i + 1));
                assert(all.take(i + 1).last() == all[i]);
                assert(all[i] == (name@, value));
            }
            match this.give(name, value) {
                Ok(c) => {
                    assert(Self::built(all.take(i + 1)) == this.given(gname, gvalue));
                    this = c;
                },
                Err(e) => {
                    proof {
                        assert(Self::built(all.take(i + 1)) == this.given(gname, gvalue));
                        lemma_failure_persists(all, i + 1);
                    }
                    return Err(e);
                },
            }
            proof {
                i = i + 1;
            }
        }
        assert(all.take(i) =~= all);
        Ok(this)
    }
}

/// Every accepted parameter name, as the error on an unknown name lists them.
pub open spec fn accepted_names() -> Seq<char> {
    "'mode', 'shaymi_mode', 'mods', 'n300', 'n100', 'n50', 'n_misses', 'n_geki', 'n_katu', 'acc', 'accuracy', 'combo', 'ac', 'arc', 'hdr', 'tw', 'cs', 'passed_objects', 'clock_rate', 'difficulty', 'attributes' or 'notrefx'"@
}

impl Param {
    /// The name under which construction accepts the parameter.
    pub open spec fn name_spec(self) -> Seq<char> {
        match self {
            Param::Mode => "mode"@,
            Param::ShaymiMode => "shaymi_mode"@,
            Param::Mods => "mods"@,
            Param::N300 => "n300"@,
            Param::N100 => "n100"@,
            Param::N50 => "n50"@,
            Param::NMisses => "n_misses"@,
            Param::NGeki => "n_geki"@,
            Param::NKatu => "n_katu"@,
            Param::Acc => "acc"@,
            Param::Combo => "combo"@,
            Param::Ac => "ac"@,
            Param::Arc => "arc"@,
            Param::Hdr => "hdr"@,
            Param::Tw => "tw"@,
            Param::Cs => "cs"@,
            Param::PassedObjects => "passed_objects"@,
            Param::ClockRate => "clock_rate"@,
            Param::Difficulty => "difficulty"@,
            Param::Notrefx => "notrefx"@,
        }
    }

    /// The name under which construction accepts the parameter.
    pub fn name(self) -> (r: &'static str)
        ensures
            r@ == self.name_spec(),
    {
        match self {
            Param::Mode => "mode",
            Param::ShaymiMode => "shaymi_mode",
            Param::Mods => "mods",
            Param::N300 => "n300",
            Param::N100 => "n100",
            Param::N50 => "n50",
            Param::NMisses => "n_misses",
            Param::NGeki => "n_geki",
            Param::NKatu => "n_katu",
            Param::Acc => "acc",
            Param::Combo => "combo",
            Param::Ac => "ac",
            Param::Arc => "arc",
            Param::Hdr => "hdr",
            Param::Tw => "tw",
            Param::Cs => "cs",
            Param::PassedObjects => "passed_objects",
            Param::ClockRate => "clock_rate",
            Param::Difficulty => "difficulty",
            Param::Notrefx => "notrefx",
        }
    }

    /// The kind of value the parameter takes.
    pub open spec fn expected_spec(self) -> Seq<char> {
        match self {
            Param::Mode => "an int"@,
            Param::ShaymiMode => "a boolean"@,
            Param::Mods => "an int"@,
            Param::N300 => "an int"@,
            Param::N100 => "an int"@,
            Param::N50 => "an int"@,
            Param::NMisses => "an int"@,
            Param::NGeki => "an int"@,
            Param::NKatu => "an int"@,
            Param::Acc => "a real number"@,
            Param::Combo => "an int"@,
            Param::Ac => "an int"@,
            Param::Arc => "a real number"@,
            Param::Hdr => "a boolean"@,
            Param::Tw => "an int"@,
            Param::Cs => "a boolean"@,
            Param::PassedObjects => "an int"@,
            Param::ClockRate => "a real number"@,
            Param::Difficulty => "DifficultyAttributes"@,
            Param::Notrefx => "a boolean"@,
        }
    }

    /// The kind of value the parameter takes.
    pub fn expected(self) -> (r: &'static str)
        ensures
            r@ == self.expected_spec(),
    {
        match self {
            Param::Mode => "an int",
            Param::ShaymiMode => "a boolean",
            Param::Mods => "an int",
            Param::N300 => "an int",
            Param::N100 => "an int",
            Param::N50 => "an int",
            Param::NMisses => "an int",
            Param::NGeki => "an int",
            Param::NKatu => "an int",
            Param::Acc => "a real number",
            Param::Combo => "an int",
            Param::Ac => "an int",
            Param::Arc => "a real number",
            Param::Hdr => "a boolean",
            Param::Tw => "an int",
            Param::Cs => "a boolean",
            Param::PassedObjects => "an int",
            Param::ClockRate => "a real number",
            Param::Difficulty => "DifficultyAttributes",
            Param::Notrefx => "a boolean",
        }
    }
}

impl KwargsError {
    pub open spec fn message_spec(&self) -> Seq<char> {
        match self {
            KwargsError::TypeMismatch(p) => "kwarg '"@ + p.name_spec() + "': must be "@
                + p.expected_spec(),
            KwargsError::UnrecognizedParameter(n) => "unexpected kwarg '"@ + n@ + "': expected "@
                + accepted_names(),
            KwargsError::InvalidEnumValue(_) => "invalid mode integer"@,
        }
    }

    /// The error's text: the parameter and the kind of value it takes on a
    /// type mismatch, and every accepted name on an unknown one.
    pub fn message(&self) -> (r: String)
        ensures
            r@ == self.message_spec(),
    {
        match self {
            KwargsError::TypeMismatch(p) => {
                let s = String::from_str("kwarg '").concat(p.name());
                s.concat("': must be ").concat(p.expected())
            },
            KwargsError::UnrecognizedParameter(n) => {
                let s = String::from_str("unexpected kwarg '").concat(n.as_str());
                s.concat("': expected ").concat(
                    "'mode', 'shaymi_mode', 'mods', 'n300', 'n100', 'n50', 'n_misses', 'n_geki', 'n_katu', 'acc', 'accuracy', 'combo', 'ac', 'arc', 'hdr', 'tw', 'cs', 'passed_objects', 'clock_rate', 'difficulty', 'attributes' or 'notrefx'",
                )
            },
            KwargsError::InvalidEnumValue(_) => String::from_str("invalid mode integer"),
        }
    }
}

} // verus!
