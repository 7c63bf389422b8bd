use vstd::prelude::*;

use crate::dispatch::Articulation;

verus! {

/// Release time, in milliseconds, that a trigger sets before any note-off.
pub const DEFAULT_RELEASE_MS: u32 = 90;

/// Stage of the amplitude envelope.
#[derive(Debug, Clone, Copy, PartialEq, Eq, Structural)]
pub enum EnvelopeStage {
    Idle,
    Attack,
    Decay,
    Sustain,
    Release,
}

/// Attack and decay times and sustain level chosen when a note starts.
#[derive(Debug, Clone, Copy, PartialEq, Eq, Structural)]
pub struct EnvelopeProfile {
    pub attack_ms: u32,
    pub decay_ms: u32,
    /// Sustain level in hundredths (85 stands for 0.85).
    pub sustain_centi: u32,
}

/// Profile of a note: the soft legato shape overrides every articulation.
pub open spec fn profile_of(articulation: Articulation, legato: bool) -> EnvelopeProfile {
    if legato {
        EnvelopeProfile { attack_ms: 30, decay_ms: 160, sustain_centi: 85 }
    } else {
        match articulation {
            Articulation::Staccato => EnvelopeProfile { attack_ms: 2, decay_ms: 45, sustain_centi: 35 },
            Articulation::Marcato => EnvelopeProfile { attack_ms: 10, decay_ms: 90, sustain_centi: 60 },
            Articulation::Sustain => EnvelopeProfile { attack_ms: 20, decay_ms: 160, sustain_centi: 82 },
        }
    }
}

/// Release time, in milliseconds, that a note-off uses for an articulation.
pub open spec fn release_ms_of(articulation: Articulation) -> u32 {
    match articulation {
        Articulation::Staccato => 45,
        Articulation::Marcato => 100,
        Articulation::Sustain => 180,
    }
}

/// Stage after one sample: `reached` tells whether the value met the bound of
/// the current stage (full level in attack, sustain level in decay, the
/// silence threshold in release).
pub open spec fn advance_of(stage: EnvelopeStage, reached: bool) -> EnvelopeStage {
    match stage {
        EnvelopeStage::Attack => if reached { EnvelopeStage::Decay } else { EnvelopeStage::Attack },
        EnvelopeStage::Decay => if reached { EnvelopeStage::Sustain } else { EnvelopeStage::Decay },
        EnvelopeStage::Release => if reached { EnvelopeStage::Idle } else { EnvelopeStage::Release },
        other => other,
    }
}

/// Whether a stage belongs to the sounding part of a note, before its release.
pub open spec fn is_held(stage: EnvelopeStage) -> bool {
    stage == EnvelopeStage::Attack || stage == EnvelopeStage::Decay || stage
        == EnvelopeStage::Sustain
}

/// Whether a stage belongs to the tail of a note, after its release.
pub open spec fn is_fading(stage: EnvelopeStage) -> bool {
    stage == EnvelopeStage::Release || stage == EnvelopeStage::Idle
}

/// Stage reached from `stage` after one sample per entry of `reached`.
pub open spec fn run_of(stage: EnvelopeStage, reached: Seq<bool>) -> EnvelopeStage
    decreases reached.len(),
{
    if reached.len() == 0 {
        stage
    } else {
        run_of(advance_of(stage, reached[0]), reached.drop_first())
    }
}

/// Picks the attack, decay and sustain of a note from its articulation, or
/// the legato shape when it glides.
pub fn envelope_profile(articulation: Articulation, legato: bool) -> (r: EnvelopeProfile)
    ensures
        r == profile_of(articulation, legato),
{
    if legato {
        EnvelopeProfile { attack_ms: 30, decay_ms: 160, sustain_centi: 85 }
    } else {
        match articulation {
            Articulation::Staccato => EnvelopeProfile { attack_ms: 2, decay_ms: 45, sustain_centi: 35 },
            Articulation::Marcato => EnvelopeProfile { attack_ms: 10, decay_ms: 90, sustain_centi: 60 },
            Articulation::Sustain => EnvelopeProfile { attack_ms: 20, decay_ms: 160, sustain_centi: 82 },
        }
    }
}

/// Release time of a note-off for an articulation.
pub fn release_ms_for(articulation: Articulation) -> (r: u32)
    ensures
        r == release_ms_of(articulation),
{
    match articulation {
        Articulation::Staccato => 45,
        Articulation::Marcato => 100,
        Articulation::Sustain => 180,
    }
}

impl EnvelopeStage {
    /// Stage after a trigger: every note starts in attack.
    pub fn on_trigger(&self) -> (r: EnvelopeStage)
        ensures
            r == EnvelopeStage::Attack,
    {
        EnvelopeStage::Attack
    }

    /// Stage after a release: every sounding stage moves to release; an idle
    /// envelope stays idle.
    pub fn on_release(&self) -> (r: EnvelopeStage)
        ensures
            r == (if *self == EnvelopeStage::Idle { EnvelopeStage::Idle } else { EnvelopeStage::Release }),
    {
        match self {
            EnvelopeStage::Idle => EnvelopeStage::Idle,
            _ => EnvelopeStage::Release,
        }
    }

    /// Stage after one sample, given whether the value met the bound of the
    /// current stage.
    pub fn advance(&self, reached: bool) -> (r: EnvelopeStage)
        ensures
            r == advance_of(*self, reached),
    {
        match self {
            EnvelopeStage::Attack => if reached { EnvelopeStage::Decay } else { EnvelopeStage::Attack },
            EnvelopeStage::Decay => if reached { EnvelopeStage::Sustain } else { EnvelopeStage::Decay },
            EnvelopeStage::Release => if reached { EnvelopeStage::Idle } else { EnvelopeStage::Release },
            EnvelopeStage::Sustain => EnvelopeStage::Sustain,
            EnvelopeStage::Idle => EnvelopeStage::Idle,
        }
    }

    pub fn is_idle(&self) -> (r: bool)
        ensures
            r == (*self == EnvelopeStage::Idle),
    {
        match self {
            EnvelopeStage::Idle => true,
            _ => false,
        }
    }
}

/// Without a release, samples alone never take a triggered note out of its
/// attack, decay and sustain stages, and a released note never comes back
/// from its release and idle stages.
pub proof fn lemma_stages_keep_phase(stage: EnvelopeStage, reached: Seq<bool>)
    ensures
        is_held(stage) ==> is_held(run_of(stage, reached)),
        is_fading(stage) ==> is_fading(run_of(stage, reached)),
    decreases reached.len(),
{
    if reached.len() > 0 {
        lemma_stages_keep_phase(advance_of(stage, reached[0]), reached.drop_first());
    }
}

/// Once the value has met the bound in attack, then in decay, a triggered
/// note holds at its sustain stage until released; a released note is idle
/// as soon as its value meets the silence threshold.
pub proof fn lemma_stage_order()
    ensures
        run_of(EnvelopeStage::Attack, seq![true, true]) == EnvelopeStage::Sustain,
        forall|reached: Seq<bool>| run_of(EnvelopeStage::Sustain, reached) == EnvelopeStage::Sustain,
        forall|reached: Seq<bool>| run_of(EnvelopeStage::Idle, reached) == EnvelopeStage::Idle,
        advance_of(EnvelopeStage::Release, true) == EnvelopeStage::Idle,
{
    reveal_with_fuel(run_of, 3);
    assert forall|reached: Seq<bool>| run_of(EnvelopeStage::Sustain, reached) == EnvelopeStage::Sustain by {
        lemma_rest_stays(EnvelopeStage::Sustain, reached);
    }
    assert forall|reached: Seq<bool>| run_of(EnvelopeStage::Idle, reached) == EnvelopeStage::Idle by {
        lemma_rest_stays(EnvelopeStage::Idle, reached);
    }
}

proof fn lemma_rest_stays(stage: EnvelopeStage, reached: Seq<bool>)
    requires
        stage == EnvelopeStage::Sustain || stage == EnvelopeStage::Idle,
    ensures
        run_of(stage, reached) == stage,
    decreases reached.len(),
{
    if reached.len() > 0 {
        lemma_rest_stays(stage, reached.drop_first());
    }
}

} // verus!
