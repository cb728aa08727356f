//! The processing parameters: their identifiers, the one table that binds
//! them to the engine's numeric indices, their defaults, and the record that
//! is persisted between runs.
//!
//! A parameter value is carried as the bit pattern of an IEEE-754 single
//! precision number (`u32`): the library moves values and never computes
//! with them, so the pattern is kept exactly.

use vstd::prelude::*;

verus! {

/// Number of parameters the processing engine exposes.
pub const PARAM_COUNT: usize = 11;

/// Name of the device selection that binds to the platform default.
pub const DEFAULT_DEVICE: &'static str = "Default";

/// Bit patterns of the default values.
pub const BITS_ZERO: u32 = 0x0000_0000;
pub const BITS_ONE: u32 = 0x3f80_0000;
pub const BITS_TWENTY: u32 = 0x41a0_0000;
/// 0.48333332
pub const BITS_SENSITIVITY: u32 = 0x3ef7_7777;
/// 0.09090909
pub const BITS_RELEASE: u32 = 0x3dba_2e8c;
/// 0.33333334
pub const BITS_MAKEUP: u32 = 0x3eaa_aaab;

/// The engine's parameters, in the engine's index order.
#[derive(Clone, Copy, Debug, PartialEq, Eq, Structural)]
pub enum ParamId {
    SidechainHpf,
    InputLevel,
    Sensitivity,
    Ratio,
    Attack,
    Release,
    Makeup,
    Mix,
    OutputLevel,
    Sidechain,
    FullBandwidth,
}

impl ParamId {
    /// The engine's numeric index of this parameter.
    pub open spec fn spec_index(self) -> int {
        match self {
            ParamId::SidechainHpf => 0,
            ParamId::InputLevel => 1,
            ParamId::Sensitivity => 2,
            ParamId::Ratio => 3,
            ParamId::Attack => 4,
            ParamId::Release => 5,
            ParamId::Makeup => 6,
            ParamId::Mix => 7,
            ParamId::OutputLevel => 8,
            ParamId::Sidechain => 9,
            ParamId::FullBandwidth => 10,
        }
    }

    /// The parameter bound to an engine index, if the index is known.
    pub open spec fn spec_from_index(i: int) -> Option<ParamId> {
        if i == 0 {
            Some(ParamId::SidechainHpf)
        } else if i == 1 {
            Some(ParamId::InputLevel)
        } else if i == 2 {
            Some(ParamId::Sensitivity)
        } else if i == 3 {
            Some(ParamId::Ratio)
        } else if i == 4 {
            Some(ParamId::Attack)
        } else if i == 5 {
            Some(ParamId::Release)
        } else if i == 6 {
            Some(ParamId::Makeup)
        } else if i == 7 {
            Some(ParamId::Mix)
        } else if i == 8 {
            Some(ParamId::OutputLevel)
        } else if i == 9 {
            Some(ParamId::Sidechain)
        } else if i == 10 {
            Some(ParamId::FullBandwidth)
        } else {
            None
        }
    }

    /// Bit pattern of the parameter's default value.
    pub open spec fn spec_default_bits(self) -> u32 {
        match self {
            ParamId::SidechainHpf => BITS_TWENTY,
            ParamId::InputLevel => BITS_ONE,
            ParamId::Sensitivity => BITS_SENSITIVITY,
            ParamId::Ratio => BITS_ONE,
            ParamId::Attack => BITS_ZERO,
            ParamId::Release => BITS_RELEASE,
            ParamId::Makeup => BITS_MAKEUP,
            ParamId::Mix => BITS_ONE,
            ParamId::OutputLevel => BITS_ONE,
            ParamId::Sidechain => BITS_ZERO,
            ParamId::FullBandwidth => BITS_ONE,
        }
    }

    pub fn index(&self) -> (r: usize)
        ensures
            r == self.spec_index(),
    {
        match self {
            ParamId::SidechainHpf => 0,
            ParamId::InputLevel => 1,
            ParamId::Sensitivity => 2,
            ParamId::Ratio => 3,
            ParamId::Attack => 4,
            ParamId::Release => 5,
            ParamId::Makeup => 6,
            ParamId::Mix => 7,
            ParamId::OutputLevel => 8,
            ParamId::Sidechain => 9,
            ParamId::FullBandwidth => 10,
        }
    }

    /// Looks an engine index up; unknown indices give `None`.
    pub fn from_index(i: usize) -> (r: Option<ParamId>)
        ensures
            r == Self::spec_from_index(i as int),
    {
        match i {
            0 => Some(ParamId::SidechainHpf),
            1 => Some(ParamId::InputLevel),
            2 => Some(ParamId::Sensitivity),
            3 => Some(ParamId::Ratio),
            4 => Some(ParamId::Attack),
            5 => Some(ParamId::Release),
            6 => Some(ParamId::Makeup),
            7 => Some(ParamId::Mix),
            8 => Some(ParamId::OutputLevel),
            9 => Some(ParamId::Sidechain),
            10 => Some(ParamId::FullBandwidth),
            _ => None,
        }
    }

    pub fn default_bits(&self) -> (r: u32)
        ensures
            r == self.spec_default_bits(),
    {
        match self {
            ParamId::SidechainHpf => BITS_TWENTY,
            ParamId::InputLevel => BITS_ONE,
            ParamId::Sensitivity => BITS_SENSITIVITY,
            ParamId::Ratio => BITS_ONE,
            ParamId::Attack => BITS_ZERO,
            ParamId::Release => BITS_RELEASE,
            ParamId::Makeup => BITS_MAKEUP,
            ParamId::Mix => BITS_ONE,
            ParamId::OutputLevel => BITS_ONE,
            ParamId::Sidechain => BITS_ZERO,
            ParamId::FullBandwidth => BITS_ONE,
        }
    }
}

/// The index table is a bijection between the parameters and `[0, PARAM_COUNT)`:
/// every parameter has an index in range, and looking that index up gives the
/// parameter back; every index in range names exactly one parameter.
pub proof fn lemma_index_table_bijective()
    ensures
        forall|p: ParamId|
            0 <= #[trigger] p.spec_index() < PARAM_COUNT && ParamId::spec_from_index(p.spec_index())
                == Some(p),
        forall|i: int|
            0 <= i < PARAM_COUNT <==> (#[trigger] ParamId::spec_from_index(i)) is Some,
        forall|i: int|
            #[trigger] ParamId::spec_from_index(i) is Some ==> ParamId::spec_from_index(
                i,
            )->0.spec_index() == i,
{
}

/// The default value of the parameter at index `i`.
pub open spec fn default_value_at(i: int) -> u32 {
    ParamId::spec_from_index(i)->0.spec_default_bits()
}

/// The default values, in index order.
pub open spec fn default_values() -> Seq<u32> {
    Seq::new(PARAM_COUNT as nat, |i: int| default_value_at(i))
}

/// Mathematical value of a [`ParameterSet`].
pub struct ParameterSetView {
    pub values: Seq<u32>,
    pub input_device: Seq<char>,
    pub output_device: Seq<char>,
}

impl ParameterSetView {
    pub open spec fn wf(self) -> bool {
        self.values.len() == PARAM_COUNT
    }
}

/// A full set of parameter values, indexed by engine index, with the two
/// device selections.
pub struct ParameterSet {
    pub values: Vec<u32>,
    pub input_device: String,
    pub output_device: String,
}

impl View for ParameterSet {
    type V = ParameterSetView;

    open spec fn view(&self) -> ParameterSetView {
        ParameterSetView {
            values: self.values@,
            input_device: self.input_device@,
            output_device: self.output_device@,
        }
    }
}

impl ParameterSet {
    pub open spec fn wf(&self) -> bool {
        self@.wf()
    }

    /// The default set: every parameter at its default, both devices "Default".
    pub fn defaults() -> (r: ParameterSet)
        ensures
            r.wf(),
            r@.values == default_values(),
            r@.input_device == DEFAULT_DEVICE@,
            r@.output_device == DEFAULT_DEVICE@,
    {
        let mut values: Vec<u32> = Vec::new();
        let mut i: usize = 0;
        while i < PARAM_COUNT
            invariant
                i <= PARAM_COUNT,
                values@ == default_values().take(i as int),
            decreases PARAM_COUNT - i,
        {
            let id = ParamId::from_index(i);
            let bits = id.unwrap().default_bits();
            values.push(bits);
            assert(values@ =~= default_values().take(i + 1));
            i = i + 1;
        }
        assert(values@ =~= default_values());
        ParameterSet {
            values,
            input_device: String::from_str(DEFAULT_DEVICE),
            output_device: String::from_str(DEFAULT_DEVICE),
        }
    }

    /// Value of one parameter.
    pub fn value(&self, id: ParamId) -> (r: u32)
        requires
            self.wf(),
        ensures
            r == self@.values[id.spec_index()],
    {
        self.values[id.index()]
    }
}

/// The record persisted between runs: one named field per parameter, as the
/// settings file holds it, and the two device selections.
pub struct SavedParameters {
    pub sidechain_hpf: u32,
    pub input_level: u32,
    pub sensitivity: u32,
    pub ratio: u32,
    pub attack: u32,
    pub release: u32,
    pub makeup: u32,
    pub mix: u32,
    pub output_level: u32,
    pub sidechain: u32,
    pub full_bandwidth: u32,
    pub input_device: String,
    pub output_device: String,
}

/// Mathematical value of a [`SavedParameters`].
pub struct SavedView {
    pub sidechain_hpf: u32,
    pub input_level: u32,
    pub sensitivity: u32,
    pub ratio: u32,
    pub attack: u32,
    pub release: u32,
    pub makeup: u32,
    pub mix: u32,
    pub output_level: u32,
    pub sidechain: u32,
    pub full_bandwidth: u32,
    pub input_device: Seq<char>,
    pub output_device: Seq<char>,
}

impl View for SavedParameters {
    type V = SavedView;

    open spec fn view(&self) -> SavedView {
        SavedView {
            sidechain_hpf: self.sidechain_hpf,
            input_level: self.input_level,
            sensitivity: self.sensitivity,
            ratio: self.ratio,
            attack: self.attack,
            release: self.release,
            makeup: self.makeup,
            mix: self.mix,
            output_level: self.output_level,
            sidechain: self.sidechain,
            full_bandwidth: self.full_bandwidth,
            input_device: self.input_device@,
            output_device: self.output_device@,
        }
    }
}

/// The record that persists a set: each named field takes the value at the
/// index the table binds to that parameter.
pub open spec fn saved_of(p: ParameterSetView) -> SavedView {
    SavedView {
        sidechain_hpf: p.values[0],
        input_level: p.values[1],
        sensitivity: p.values[2],
        ratio: p.values[3],
        attack: p.values[4],
        release: p.values[5],
        makeup: p.values[6],
        mix: p.values[7],
        output_level: p.values[8],
        sidechain: p.values[9],
        full_bandwidth: p.values[10],
        input_device: p.input_device,
        output_device: p.output_device,
    }
}

/// The set a record describes.
pub open spec fn set_of(r: SavedView) -> ParameterSetView {
    ParameterSetView {
        values: seq![
            r.sidechain_hpf,
            r.input_level,
            r.sensitivity,
            r.ratio,
            r.attack,
            r.release,
            r.makeup,
            r.mix,
            r.output_level,
            r.sidechain,
            r.full_bandwidth,
        ],
        input_device: r.input_device,
        output_device: r.output_device,
    }
}

/// Persisting a set and reading the record back gives the same set; reading
/// a record and persisting the set gives the same record.
pub proof fn lemma_saved_round_trip(p: ParameterSetView, r: SavedView)
    requires
        p.wf(),
    ensures
        set_of(saved_of(p)) == p,
        saved_of(set_of(r)) == r,
        set_of(r).wf(),
{
    assert(set_of(saved_of(p)).values =~= p.values);
}

impl ParameterSet {
    /// The record that persists this set.
    pub fn to_saved(&self) -> (r: SavedParameters)
        requires
            self.wf(),
        ensures
            r@ == saved_of(self@),
    {
        SavedParameters {
            sidechain_hpf: self.values[0],
            input_level: self.values[1],
            sensitivity: self.values[2],
            ratio: self.values[3],
            attack: self.values[4],
            release: self.values[5],
            makeup: self.values[6],
            mix: self.values[7],
            output_level: self.values[8],
            sidechain: self.values[9],
            full_bandwidth: self.values[10],
            input_device: self.input_device.clone(),
            output_device: self.output_device.clone(),
        }
    }

    /// The set to start with: the persisted record when one could be read,
    /// else the defaults (a record that could not be read destroys nothing:
    /// the defaults simply take over).
    pub fn from_saved_or_defaults(saved: Option<SavedParameters>) -> (r: ParameterSet)
        ensures
            r.wf(),
            saved matches Some(rec) ==> r@ == set_of(rec@),
            saved is None ==> r@.values == default_values() && r@.input_device == DEFAULT_DEVICE@
                && r@.output_device == DEFAULT_DEVICE@,
    {
        match saved {
            Some(rec) => ParameterSet::from_saved(rec),
            None => ParameterSet::defaults(),
        }
    }

    /// The set that a persisted record describes.
    pub fn from_saved(saved: SavedParameters) -> (r: ParameterSet)
        ensures
            r.wf(),
            r@ == set_of(saved@),
    {
        let mut values: Vec<u32> = Vec::new();
        values.push(saved.sidechain_hpf);
        values.push(saved.input_level);
        values.push(saved.sensitivity);
        values.push(saved.ratio);
        values.push(saved.attack);
        values.push(saved.release);
        values.push(saved.makeup);
        values.push(saved.mix);
        values.push(saved.output_level);
        values.push(saved.sidechain);
        values.push(saved.full_bandwidth);
        assert(values@ =~= set_of(saved@).values);
        ParameterSet {
            values,
            input_device: saved.input_device,
            output_device: saved.output_device,
        }
    }
}

} // verus!
