//! Effect chain types and the catalogue of effect types.

use vstd::prelude::*;

verus! {

/// Maximum number of effect slots per chain.
pub const MAX_EFFECT_SLOTS: usize = 4;

/// Effect chain types of the three-layer FX architecture.
#[derive(Debug, Clone, Copy, PartialEq, Eq, Structural)]
pub enum EffectChainType {
    /// Applied before recording (affects recorded audio).
    InputFX,
    /// Applied to individual track playback.
    TrackFX,
    /// Applied to the final output.
    MasterFX,
}

/// Core effect types available in the system.
#[derive(Debug, Clone, Copy, PartialEq, Eq, Structural)]
pub enum EffectType {
    Slicer,
    BeatRepeat,
    Reverse,
    TapeEcho,
    SpaceReverb,
    T3Delay,
    Chorus,
    Flanger,
    Compressor,
    NoiseSuppressor,
    Limiter,
    MultibandCompressor,
    AutoWah,
    Isolator,
    DJFilter,
    MasteringEQ,
    PitchShift,
    PitchCorrect,
    JC120,
    Tweed,
    Metal,
    Mixer,
    Sidechain,
}

/// Display name of each effect type.
pub open spec fn spec_effect_name(e: EffectType) -> Seq<char> {
    match e {
        EffectType::Slicer => "SLICER"@,
        EffectType::BeatRepeat => "BEAT REPEAT"@,
        EffectType::Reverse => "REVERSE"@,
        EffectType::TapeEcho => "TAPE ECHO"@,
        EffectType::SpaceReverb => "SPACE REVERB"@,
        EffectType::T3Delay => "T3 DELAY"@,
        EffectType::Chorus => "CHORUS"@,
        EffectType::Flanger => "FLANGER"@,
        EffectType::Compressor => "COMPRESSOR"@,
        EffectType::NoiseSuppressor => "NOISE SUPPRESSOR"@,
        EffectType::Limiter => "LIMITER"@,
        EffectType::MultibandCompressor => "MULTIBAND COMP"@,
        EffectType::AutoWah => "AUTO WAH"@,
        EffectType::Isolator => "ISOLATOR"@,
        EffectType::DJFilter => "DJ FILTER"@,
        EffectType::MasteringEQ => "MASTERING EQ"@,
        EffectType::PitchShift => "PITCH SHIFT"@,
        EffectType::PitchCorrect => "PITCH CORRECT"@,
        EffectType::JC120 => "JC-120"@,
        EffectType::Tweed => "TWEED"@,
        EffectType::Metal => "METAL"@,
        EffectType::Mixer => "MIXER"@,
        EffectType::Sidechain => "SIDECHAIN"@,
    }
}

/// The effects that follow the MIDI tempo: the delays, the loop effects
/// Slicer and Beat Repeat, and the modulation effects Chorus and Flanger.
pub open spec fn spec_supports_tempo_sync(e: EffectType) -> bool {
    e is TapeEcho || e is T3Delay || e is BeatRepeat || e is Slicer || e is Chorus || e is Flanger
}

/// Number of parameters of each effect type.
pub open spec fn spec_parameter_count(e: EffectType) -> nat {
    match e {
        EffectType::Reverse => 2,
        EffectType::NoiseSuppressor => 2,
        EffectType::DJFilter => 2,
        EffectType::Limiter => 3,
        EffectType::Isolator => 3,
        EffectType::PitchShift => 3,
        EffectType::PitchCorrect => 3,
        EffectType::Sidechain => 3,
        _ => 4,
    }
}

impl EffectType {
    /// The display name for this effect type.
    pub fn name(&self) -> (r: &'static str)
        ensures
            r@ == spec_effect_name(*self),
    {
        match self {
            EffectType::Slicer => "SLICER",
            EffectType::BeatRepeat => "BEAT REPEAT",
            EffectType::Reverse => "REVERSE",
            EffectType::TapeEcho => "TAPE ECHO",
            EffectType::SpaceReverb => "SPACE REVERB",
            EffectType::T3Delay => "T3 DELAY",
            EffectType::Chorus => "CHORUS",
            EffectType::Flanger => "FLANGER",
            EffectType::Compressor => "COMPRESSOR",
            EffectType::NoiseSuppressor => "NOISE SUPPRESSOR",
            EffectType::Limiter => "LIMITER",
            EffectType::MultibandCompressor => "MULTIBAND COMP",
            EffectType::AutoWah => "AUTO WAH",
            EffectType::Isolator => "ISOLATOR",
            EffectType::DJFilter => "DJ FILTER",
            EffectType::MasteringEQ => "MASTERING EQ",
            EffectType::PitchShift => "PITCH SHIFT",
            EffectType::PitchCorrect => "PITCH CORRECT",
            EffectType::JC120 => "JC-120",
            EffectType::Tweed => "TWEED",
            EffectType::Metal => "METAL",
            EffectType::Mixer => "MIXER",
            EffectType::Sidechain => "SIDECHAIN",
        }
    }

    /// Whether this effect supports MIDI tempo synchronisation.
    pub fn supports_tempo_sync(&self) -> (r: bool)
        ensures
            r == spec_supports_tempo_sync(*self),
    {
        match self {
            EffectType::TapeEcho | EffectType::T3Delay | EffectType::BeatRepeat | EffectType::Slicer
            | EffectType::Chorus | EffectType::Flanger => true,
            _ => false,
        }
    }

    /// The default parameter count for this effect.
    pub fn parameter_count(&self) -> (r: usize)
        ensures
            r == spec_parameter_count(*self),
    {
        match self {
            EffectType::Slicer => 4,
            EffectType::BeatRepeat => 4,
            EffectType::Reverse => 2,
            EffectType::TapeEcho => 4,
            EffectType::SpaceReverb => 4,
            EffectType::T3Delay => 4,
            EffectType::Chorus => 4,
            EffectType::Flanger => 4,
            EffectType::Compressor => 4,
            EffectType::NoiseSuppressor => 2,
            EffectType::Limiter => 3,
            EffectType::MultibandCompressor => 4,
            EffectType::AutoWah => 4,
            EffectType::Isolator => 3,
            EffectType::DJFilter => 2,
            EffectType::MasteringEQ => 4,
            EffectType::PitchShift => 3,
            EffectType::PitchCorrect => 3,
            EffectType::JC120 => 4,
            EffectType::Tweed => 4,
            EffectType::Metal => 4,
            EffectType::Mixer => 4,
            EffectType::Sidechain => 3,
        }
    }
}

/// A character of a display name: an upper-case letter, a digit, a space
/// or a hyphen.
pub open spec fn spec_name_char(c: char) -> bool {
    ('A' <= c && c <= 'Z') || ('0' <= c && c <= '9') || c == ' ' || c == '-'
}

proof fn lemma_effect_name_shape(e: EffectType)
    ensures
        spec_effect_name(e).len() >= 5,
        forall|i: int| 0 <= i < spec_effect_name(e).len() ==> #[trigger] spec_name_char(spec_effect_name(e)[i]),
{
    reveal_strlit("SLICER");
    reveal_strlit("BEAT REPEAT");
    reveal_strlit("REVERSE");
    reveal_strlit("TAPE ECHO");
    reveal_strlit("SPACE REVERB");
    reveal_strlit("T3 DELAY");
    reveal_strlit("CHORUS");
    reveal_strlit("FLANGER");
    reveal_strlit("COMPRESSOR");
    reveal_strlit("NOISE SUPPRESSOR");
    reveal_strlit("LIMITER");
    reveal_strlit("MULTIBAND COMP");
    reveal_strlit("AUTO WAH");
    reveal_strlit("ISOLATOR");
    reveal_strlit("DJ FILTER");
    reveal_strlit("MASTERING EQ");
    reveal_strlit("PITCH SHIFT");
    reveal_strlit("PITCH CORRECT");
    reveal_strlit("JC-120");
    reveal_strlit("TWEED");
    reveal_strlit("METAL");
    reveal_strlit("MIXER");
    reveal_strlit("SIDECHAIN");
}

/// Every effect type has its own display name: names are non-empty, made
/// of upper-case letters, digits, spaces and hyphens, and two different
/// effect types never share one (length and first two characters already
/// tell them apart).
pub proof fn lemma_effect_names_distinct(a: EffectType, b: EffectType)
    ensures
        spec_effect_name(a).len() > 0,
        forall|i: int| 0 <= i < spec_effect_name(a).len() ==> #[trigger] spec_name_char(spec_effect_name(a)[i]),
        a != b ==> spec_effect_name(a) != spec_effect_name(b),
{
    lemma_effect_name_shape(a);
    lemma_effect_name_shape(b);
    reveal_strlit("SLICER");
    reveal_strlit("BEAT REPEAT");
    reveal_strlit("REVERSE");
    reveal_strlit("TAPE ECHO");
    reveal_strlit("SPACE REVERB");
    reveal_strlit("T3 DELAY");
    reveal_strlit("CHORUS");
    reveal_strlit("FLANGER");
    reveal_strlit("COMPRESSOR");
    reveal_strlit("NOISE SUPPRESSOR");
    reveal_strlit("LIMITER");
    reveal_strlit("MULTIBAND COMP");
    reveal_strlit("AUTO WAH");
    reveal_strlit("ISOLATOR");
    reveal_strlit("DJ FILTER");
    reveal_strlit("MASTERING EQ");
    reveal_strlit("PITCH SHIFT");
    reveal_strlit("PITCH CORRECT");
    reveal_strlit("JC-120");
    reveal_strlit("TWEED");
    reveal_strlit("METAL");
    reveal_strlit("MIXER");
    reveal_strlit("SIDECHAIN");
    if a != b && spec_effect_name(a) == spec_effect_name(b) {
        let na = spec_effect_name(a);
        assert(na.len() == spec_effect_name(b).len());
        assert(na[0] == spec_effect_name(b)[0]);
        assert(na[1] == spec_effect_name(b)[1]);
    }
}

/// Every effect type takes between two and four parameters, which fits the
/// eight parameter slots of an effect.
pub proof fn lemma_parameter_count_range(e: EffectType)
    ensures
        2 <= spec_parameter_count(e) <= 4,
{
}

/// The four effect slots of an effect chain, holding effects of any type.
#[derive(Debug, Clone)]
pub struct EffectSlots<E> {
    /// Effect slots.
    pub slots: [Option<E>; 4],
}

/// The number of occupied slots among the first `n`.
pub open spec fn spec_occupied<E>(s: Seq<Option<E>>, n: int) -> nat
    decreases n,
{
    if n <= 0 {
        0
    } else {
        spec_occupied(s, n - 1) + if s[n - 1] is Some { 1nat } else { 0nat }
    }
}

/// The first free slot among the first `n`, if any.
pub open spec fn spec_first_free<E>(s: Seq<Option<E>>, n: int) -> Option<int>
    decreases n,
{
    if n <= 0 {
        None
    } else {
        match spec_first_free(s, n - 1) {
            Some(i) => Some(i),
            None => if s[n - 1] is None { Some(n - 1) } else { None },
        }
    }
}

impl<E> EffectSlots<E> {
    /// Four empty slots.
    pub fn new() -> (r: Self)
        ensures
            forall|i: int| 0 <= i < 4 ==> r.slots[i] is None,
    {
        EffectSlots { slots: [None, None, None, None] }
    }

    /// Put an effect in the first free slot and return its index; when every
    /// slot is taken the effect is dropped and an error returned.
    pub fn add_effect(&mut self, effect: E) -> (r: Result<usize, ()>)
        ensures
            match spec_first_free(old(self).slots@, 4) {
                Some(i) => r == Ok::<usize, ()>(i as usize) && final(self).slots@ == old(self).slots@.update(i, Some(effect)),
                None => r is Err && final(self).slots@ == old(self).slots@,
            },
    {
        let mut i: usize = 0;
        while i < MAX_EFFECT_SLOTS
            invariant
                i <= MAX_EFFECT_SLOTS,
                self.slots@ == old(self).slots@,
                spec_first_free(self.slots@, i as int) is None,
            decreases MAX_EFFECT_SLOTS - i,
        {
            if self.slots[i].is_none() {
                proof {
                    lemma_first_free_stable(self.slots@, i as int + 1, 4);
                }
                self.slots[i] = Some(effect);
                return Ok(i);
            }
            i = i + 1;
        }
        Err(())
    }

    /// Put an effect (or nothing) in a slot; indices past the slots are
    /// refused.
    pub fn set_effect(&mut self, slot_index: usize, effect: Option<E>) -> (r: Result<(), ()>)
        ensures
            slot_index < MAX_EFFECT_SLOTS ==> r is Ok && final(self).slots@ == old(self).slots@.update(slot_index as int, effect),
            slot_index >= MAX_EFFECT_SLOTS ==> r is Err && final(self).slots@ == old(self).slots@,
    {
        if slot_index < MAX_EFFECT_SLOTS {
            self.slots[slot_index] = effect;
            Ok(())
        } else {
            Err(())
        }
    }

    /// The effect in a slot, if any.
    pub fn get_effect(&self, slot_index: usize) -> (r: Option<&E>)
        ensures
            slot_index >= MAX_EFFECT_SLOTS ==> r is None,
            slot_index < MAX_EFFECT_SLOTS ==> match self.slots[slot_index as int] {
                Some(e) => r == Some(&e),
                None => r is None,
            },
    {
        if slot_index < MAX_EFFECT_SLOTS {
            match &self.slots[slot_index] {
                Some(e) => Some(e),
                None => None,
            }
        } else {
            None
        }
    }

    /// Take the effect out of a slot, leaving it empty.
    pub fn remove_effect(&mut self, slot_index: usize) -> (r: Option<E>)
        ensures
            slot_index < MAX_EFFECT_SLOTS ==> r == old(self).slots[slot_index as int]
                && final(self).slots@ == old(self).slots@.update(slot_index as int, None),
            slot_index >= MAX_EFFECT_SLOTS ==> r is None && final(self).slots@ == old(self).slots@,
    {
        if slot_index < MAX_EFFECT_SLOTS {
            let mut taken: Option<E> = None;
            std::mem::swap(&mut taken, &mut self.slots[slot_index]);
            taken
        } else {
            None
        }
    }

    /// Empty every slot.
    pub fn clear(&mut self)
        ensures
            forall|i: int| 0 <= i < 4 ==> final(self).slots[i] is None,
    {
        self.slots = [None, None, None, None];
    }

    /// The number of occupied slots.
    pub fn active_effect_count(&self) -> (r: usize)
        ensures
            r == spec_occupied(self.slots@, 4),
            r <= MAX_EFFECT_SLOTS,
    {
        let mut count: usize = 0;
        let mut i: usize = 0;
        while i < MAX_EFFECT_SLOTS
            invariant
                i <= MAX_EFFECT_SLOTS,
                count == spec_occupied(self.slots@, i as int),
                count <= i,
            decreases MAX_EFFECT_SLOTS - i,
        {
            if self.slots[i].is_some() {
                count = count + 1;
            }
            i = i + 1;
        }
        count
    }

    /// Whether any slot holds an effect.
    pub fn has_effects(&self) -> (r: bool)
        ensures
            r == (spec_occupied(self.slots@, 4) > 0),
    {
        self.active_effect_count() > 0
    }
}

/// The FX bank number clamped to the banks 1-4.
pub fn clamp_fx_bank(bank: u8) -> (r: u8)
    ensures
        r == if bank < 1 { 1 } else if bank > 4 { 4 } else { bank },
{
    if bank < 1 {
        1
    } else if bank > 4 {
        4
    } else {
        bank
    }
}

/// Adding to slots fails exactly when all four are taken; a successful add
/// puts the effect in the lowest free slot, which a read of that slot gives
/// back, and adds one to the count.
pub proof fn lemma_add_then_get<E>(s: Seq<Option<E>>, e: E)
    requires
        s.len() == 4,
    ensures
        spec_first_free(s, 4) is None <==> spec_occupied(s, 4) == 4,
        spec_first_free(s, 4) matches Some(i) ==> {
            &&& 0 <= i < 4
            &&& s[i] is None
            &&& forall|j: int| 0 <= j < i ==> s[j] is Some
            &&& s.update(i, Some(e))[i] == Some(e)
            &&& spec_occupied(s.update(i, Some(e)), 4) == spec_occupied(s, 4) + 1
        },
{
    lemma_first_free(s, 4);
    lemma_occupied_bound(s, 4);
    if let Some(i) = spec_first_free(s, 4) {
        lemma_occupied_update(s, i, e, 4);
    }
}

proof fn lemma_first_free_stable<E>(s: Seq<Option<E>>, m: int, n: int)
    requires
        0 <= m <= n,
        spec_first_free(s, m) is Some,
    ensures
        spec_first_free(s, n) == spec_first_free(s, m),
    decreases n - m,
{
    if n > m {
        lemma_first_free_stable(s, m, n - 1);
    }
}

proof fn lemma_first_free<E>(s: Seq<Option<E>>, n: int)
    requires
        0 <= n <= s.len(),
    ensures
        spec_first_free(s, n) is None <==> forall|j: int| 0 <= j < n ==> s[j] is Some,
        spec_first_free(s, n) matches Some(i) ==> 0 <= i < n && s[i] is None && forall|j: int| 0 <= j < i ==> s[j] is Some,
        spec_first_free(s, n) is None <==> spec_occupied(s, n) == n,
    decreases n,
{
    if n > 0 {
        lemma_first_free(s, n - 1);
        lemma_occupied_bound(s, n - 1);
    }
}

proof fn lemma_occupied_bound<E>(s: Seq<Option<E>>, n: int)
    requires
        0 <= n <= s.len(),
    ensures
        spec_occupied(s, n) <= n,
    decreases n,
{
    if n > 0 {
        lemma_occupied_bound(s, n - 1);
    }
}

proof fn lemma_occupied_update<E>(s: Seq<Option<E>>, i: int, e: E, n: int)
    requires
        0 <= i < s.len(),
        0 <= n <= s.len(),
        s[i] is None,
    ensures
        spec_occupied(s.update(i, Some(e)), n) == spec_occupied(s, n) + if i < n { 1nat } else { 0nat },
    decreases n,
{
    if n > 0 {
        lemma_occupied_update(s, i, e, n - 1);
    }
}

} // verus!
