//! `mimik live [voice]`: which pipeline runs. Without a voice, audio passes
//! through unmodified; with a voice, its preset's effect chain runs, in the
//! order that the voice pack format defines: the effects listed before
//! `pitch_shift` first, then the pitch shifter (which also applies
//! `formant_shift`, wherever that is listed), then the effects listed after
//! `pitch_shift`.

use vstd::prelude::*;
use crate::voice::VoiceManifest;

verus! {

/// The kind of one entry of a preset's `[[effects]]` array.
#[derive(Clone, Copy, Debug, PartialEq, Eq, Structural)]
pub enum EffectKind {
    NoiseGate,
    PitchShift,
    FormantShift,
    HighPass,
    Equalizer,
    Compressor,
    Limiter,
    Vibrato,
    DeEsser,
    Chorus,
    Reverb,
}

/// The effect is carried out by the pitch shifter rather than run as a
/// stage of its own.
pub open spec fn is_shifter_effect(k: EffectKind) -> bool {
    k == EffectKind::PitchShift || k == EffectKind::FormantShift
}

/// The index of the first effect of kind `k` at or after `i`, or the number
/// of effects when there is none.
pub open spec fn first_from(kinds: Seq<EffectKind>, k: EffectKind, i: int) -> int
    decreases kinds.len() - i,
{
    if i >= kinds.len() {
        kinds.len() as int
    } else if kinds[i] == k {
        i
    } else {
        first_from(kinds, k, i + 1)
    }
}

/// The index of the first effect of kind `k`, or the number of effects when
/// there is none.
pub open spec fn first_of(kinds: Seq<EffectKind>, k: EffectKind) -> int {
    first_from(kinds, k, 0)
}

/// The positions in `from..to` of the effects that run as stages of their
/// own, in list order.
pub open spec fn stage(kinds: Seq<EffectKind>, from: int, to: int) -> Seq<usize>
    decreases to - from,
{
    if to <= from {
        seq![]
    } else if is_shifter_effect(kinds[to - 1]) {
        stage(kinds, from, to - 1)
    } else {
        stage(kinds, from, to - 1).push((to - 1) as usize)
    }
}

/// How a preset's effects are arranged: positions (in the preset's list) of
/// the stages before the pitch shifter, of the `pitch_shift` and
/// `formant_shift` entries that configure it, and of the stages after it.
#[derive(Debug)]
pub struct ChainPlan {
    pub pre: Vec<usize>,
    pub pitch: Option<usize>,
    pub formant: Option<usize>,
    pub post: Vec<usize>,
}

/// The plan is the arrangement of `kinds`: the first `pitch_shift` splits the
/// list; the first `formant_shift`, wherever it stands, goes to the shifter;
/// every other effect, except further `pitch_shift` and `formant_shift`
/// entries, runs before or after the shifter as its position says.
pub open spec fn arranges(p: ChainPlan, kinds: Seq<EffectKind>) -> bool {
    let split = first_of(kinds, EffectKind::PitchShift);
    &&& (if split < kinds.len() { p.pitch == Some(split as usize) } else { p.pitch is None })
    &&& (if first_of(kinds, EffectKind::FormantShift) < kinds.len() {
        p.formant == Some(first_of(kinds, EffectKind::FormantShift) as usize)
    } else {
        p.formant is None
    })
    &&& p.pre@ == stage(kinds, 0, split)
    &&& p.post@ == (if split < kinds.len() {
        stage(kinds, split + 1, kinds.len() as int)
    } else {
        Seq::<usize>::empty()
    })
}

pub proof fn lemma_stage_members(kinds: Seq<EffectKind>, from: int, to: int)
    requires
        0 <= from,
        to <= kinds.len(),
        kinds.len() <= usize::MAX,
    ensures
        forall|j: int|
            0 <= j < stage(kinds, from, to).len() ==> from <= #[trigger] stage(kinds, from, to)[j]
                < to && !is_shifter_effect(kinds[stage(kinds, from, to)[j] as int]),
        forall|i: int|
            from <= i < to && !is_shifter_effect(kinds[i]) ==> stage(kinds, from, to).contains(
                i as usize,
            ),
        forall|j: int, l: int|
            0 <= j < l < stage(kinds, from, to).len() ==> stage(kinds, from, to)[j] < stage(
                kinds,
                from,
                to,
            )[l],
    decreases to - from,
{
    if to > from {
        lemma_stage_members(kinds, from, to - 1);
        let prev = stage(kinds, from, to - 1);
        let cur = stage(kinds, from, to);
        if !is_shifter_effect(kinds[to - 1]) {
            assert(cur == prev.push((to - 1) as usize));
            assert(cur[prev.len() as int] == (to - 1) as usize);
            assert forall|j: int| 0 <= j < cur.len() implies from <= #[trigger] cur[j] < to
                && !is_shifter_effect(kinds[cur[j] as int]) by {
                if j < prev.len() {
                    assert(cur[j] == prev[j]);
                }
            }
            assert forall|j: int, l: int| 0 <= j < l < cur.len() implies cur[j] < cur[l] by {
                assert(cur[j] == prev[j]);
                if l < prev.len() {
                    assert(cur[l] == prev[l]);
                }
            }
            assert forall|i: int| from <= i < to && !is_shifter_effect(kinds[i]) implies cur.contains(
                i as usize,
            ) by {
                if i < to - 1 {
                    let j = choose|j: int| 0 <= j < prev.len() && prev[j] == i as usize;
                    assert(cur[j] == i as usize);
                }
            }
        }
    }
}

/// The arrangement keeps the order that the voice pack format defines: the
/// stages before the shifter are exactly the effects listed before the first
/// `pitch_shift`, in list order, and the stages after it exactly those
/// listed after it; no `pitch_shift` or `formant_shift` runs as a stage.
pub proof fn lemma_chain_order(kinds: Seq<EffectKind>, p: ChainPlan)
    requires
        arranges(p, kinds),
        kinds.len() <= usize::MAX,
    ensures
        forall|j: int|
            0 <= j < p.pre@.len() ==> #[trigger] p.pre@[j] < first_of(kinds, EffectKind::PitchShift)
                && !is_shifter_effect(kinds[p.pre@[j] as int]),
        forall|j: int|
            0 <= j < p.post@.len() ==> first_of(kinds, EffectKind::PitchShift) < #[trigger] p.post@[j]
                < kinds.len() && !is_shifter_effect(kinds[p.post@[j] as int]),
        forall|i: int|
            0 <= i < kinds.len() && !is_shifter_effect(kinds[i]) ==> (i < first_of(
                kinds,
                EffectKind::PitchShift,
            ) ==> p.pre@.contains(i as usize)) && (i > first_of(kinds, EffectKind::PitchShift)
                ==> p.post@.contains(i as usize)),
        forall|j: int, l: int| 0 <= j < l < p.pre@.len() ==> p.pre@[j] < p.pre@[l],
        forall|j: int, l: int| 0 <= j < l < p.post@.len() ==> p.post@[j] < p.post@[l],
{
    let split = first_of(kinds, EffectKind::PitchShift);
    lemma_first_from_bounds(kinds, EffectKind::PitchShift, 0);
    lemma_stage_members(kinds, 0, split);
    if split < kinds.len() {
        lemma_stage_members(kinds, split + 1, kinds.len() as int);
    }
}

proof fn lemma_first_from_bounds(kinds: Seq<EffectKind>, k: EffectKind, i: int)
    requires
        0 <= i,
    ensures
        i <= first_from(kinds, k, i) <= kinds.len() || (i > kinds.len() && first_from(kinds, k, i)
            == kinds.len()),
        first_from(kinds, k, i) < kinds.len() ==> kinds[first_from(kinds, k, i)] == k,
    decreases kinds.len() - i,
{
    if i < kinds.len() && kinds[i] != k {
        lemma_first_from_bounds(kinds, k, i + 1);
    }
}

proof fn lemma_first_from_is_first(kinds: Seq<EffectKind>, k: EffectKind, i: int)
    requires
        0 <= i <= kinds.len(),
    ensures
        i <= first_from(kinds, k, i) <= kinds.len(),
        first_from(kinds, k, i) < kinds.len() ==> kinds[first_from(kinds, k, i)] == k,
        forall|j: int| i <= j < first_from(kinds, k, i) ==> kinds[j] != k,
    decreases kinds.len() - i,
{
    if i < kinds.len() && kinds[i] != k {
        lemma_first_from_is_first(kinds, k, i + 1);
    }
}

/// `first_of` finds the first effect of a kind wherever it is listed, the
/// last entry included: it is the position of an effect of that kind with no
/// such effect before it, or the number of effects when none is listed.
pub proof fn lemma_first_of_finds_first(kinds: Seq<EffectKind>, k: EffectKind)
    ensures
        0 <= first_of(kinds, k) <= kinds.len(),
        first_of(kinds, k) < kinds.len() ==> kinds[first_of(kinds, k)] == k,
        forall|i: int| 0 <= i < kinds.len() && kinds[i] == k ==> first_of(kinds, k) <= i,
        (first_of(kinds, k) == kinds.len()) <==> (forall|i: int|
            0 <= i < kinds.len() ==> kinds[i] != k),
{
    lemma_first_from_is_first(kinds, k, 0);
}

/// The plan's shifter takes the first `pitch_shift` and the first
/// `formant_shift` of the list, wherever they are listed: `pitch` is `Some`
/// exactly when a `pitch_shift` is listed, and names the first one; the same
/// holds of `formant`.
pub proof fn lemma_arrange_finds_shifter_effects(kinds: Seq<EffectKind>, p: ChainPlan)
    requires
        arranges(p, kinds),
        kinds.len() <= usize::MAX,
    ensures
        (p.pitch is Some) <==> (exists|i: int| 0 <= i < kinds.len() && kinds[i] == EffectKind::PitchShift),
        p.pitch matches Some(j) ==> j < kinds.len() && kinds[j as int] == EffectKind::PitchShift
            && forall|i: int| 0 <= i < j ==> kinds[i] != EffectKind::PitchShift,
        (p.formant is Some) <==> (exists|i: int|
            0 <= i < kinds.len() && kinds[i] == EffectKind::FormantShift),
        p.formant matches Some(j) ==> j < kinds.len() && kinds[j as int] == EffectKind::FormantShift
            && forall|i: int| 0 <= i < j ==> kinds[i] != EffectKind::FormantShift,
{
    lemma_first_of_finds_first(kinds, EffectKind::PitchShift);
    lemma_first_of_finds_first(kinds, EffectKind::FormantShift);
    lemma_first_from_is_first(kinds, EffectKind::PitchShift, 0);
    lemma_first_from_is_first(kinds, EffectKind::FormantShift, 0);
}

fn first_index(kinds: &Vec<EffectKind>, k: EffectKind) -> (r: usize)
    ensures
        r as int == first_of(kinds@, k),
        r <= kinds.len(),
{
    let mut i: usize = 0;
    while i < kinds.len()
        invariant
            i <= kinds.len(),
            first_of(kinds@, k) == first_from(kinds@, k, i as int),
        decreases kinds.len() - i,
    {
        if kinds[i] == k {
            return i;
        }
        i = i + 1;
    }
    i
}

fn stage_positions(kinds: &Vec<EffectKind>, from: usize, to: usize) -> (r: Vec<usize>)
    requires
        from <= to <= kinds.len(),
    ensures
        r@ == stage(kinds@, from as int, to as int),
{
    let mut out: Vec<usize> = Vec::new();
    let mut i = from;
    while i < to
        invariant
            from <= i <= to <= kinds.len(),
            out@ == stage(kinds@, from as int, i as int),
        decreases to - i,
    {
        let k = kinds[i];
        if !(k == EffectKind::PitchShift || k == EffectKind::FormantShift) {
            out.push(i);
        }
        i = i + 1;
    }
    out
}

/// Arranges a preset's effects around the pitch shifter.
pub fn arrange(kinds: &Vec<EffectKind>) -> (r: ChainPlan)
    ensures
        arranges(r, kinds@),
{
    let split = first_index(kinds, EffectKind::PitchShift);
    let formant_at = first_index(kinds, EffectKind::FormantShift);
    let pre = stage_positions(kinds, 0, split);
    let (pitch, post) = if split < kinds.len() {
        (Some(split), stage_positions(kinds, split + 1, kinds.len()))
    } else {
        (None, Vec::new())
    };
    let formant = if formant_at < kinds.len() {
        Some(formant_at)
    } else {
        None
    };
    ChainPlan { pre, pitch, formant, post }
}

/// How `mimik live` starts.
#[derive(Debug)]
pub enum LiveStart {
    /// Pass the microphone through unmodified.
    Passthrough,
    /// Load this voice and run its effect chain.
    Voice { voice: String },
}

/// What `mimik live [voice]` runs: plain passthrough without a voice, the
/// voice's effect chain with one.
pub fn run(voice: &Option<String>) -> (r: LiveStart)
    ensures
        voice is None ==> r is Passthrough,
        voice matches Some(v) ==> (r matches LiveStart::Voice { voice: w } && w@ == v@),
{
    match voice {
        None => LiveStart::Passthrough,
        Some(v) => LiveStart::Voice { voice: v.clone() },
    }
}

/// Why a voice could not be started.
#[derive(Debug)]
pub enum LiveError {
    /// No installed voice has this name.
    UnknownVoice { voice: String },
    /// The voice's `preset.toml` is missing or malformed.
    InvalidPreset { voice: String },
}

pub open spec fn spec_live_message(e: LiveError) -> Seq<char> {
    match e {
        LiveError::UnknownVoice { voice } => "Unknown voice: '"@ + voice@
            + "'\nRun 'mimik list' to see installed voices."@,
        LiveError::InvalidPreset { voice } => "Voice '"@ + voice@
            + "' has no valid preset.toml"@,
    }
}

impl LiveError {
    /// The text that reports the error.
    pub fn message(&self) -> (r: String)
        ensures
            r@ == spec_live_message(*self),
    {
        match self {
            LiveError::UnknownVoice { voice } => {
                let mut s = String::from_str("Unknown voice: '");
                s.append(voice.as_str());
                s.append("'\nRun 'mimik list' to see installed voices.");
                s
            },
            LiveError::InvalidPreset { voice } => {
                let mut s = String::from_str("Voice '");
                s.append(voice.as_str());
                s.append("' has no valid preset.toml");
                s
            },
        }
    }
}

/// The chain for a voice, once its manifest (`None`: not installed) and the
/// kinds of its preset's effects (`None`: no valid preset) are known.
pub fn plan(voice: &str, manifest: Option<&VoiceManifest>, effects: Option<&Vec<EffectKind>>) -> (r:
    Result<ChainPlan, LiveError>)
    ensures
        manifest is None ==> (r matches Err(LiveError::UnknownVoice { voice: v }) && v@ == voice@),
        manifest is Some && effects is None ==> (r matches Err(LiveError::InvalidPreset { voice: v })
            && v@ == voice@),
        manifest is Some ==> (effects matches Some(k) ==> (r matches Ok(p) && arranges(p, k@))),
{
    match manifest {
        None => Err(LiveError::UnknownVoice { voice: String::from_str(voice) }),
        Some(_) => match effects {
            None => Err(LiveError::InvalidPreset { voice: String::from_str(voice) }),
            Some(k) => Ok(arrange(k)),
        },
    }
}

} // verus!
