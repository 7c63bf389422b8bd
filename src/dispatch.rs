use vstd::prelude::*;

use crate::legato::{legato_at, LegatoEngine};

verus! {

/// Number of positions the round-robin counter cycles through.
pub const ROUND_ROBIN_SIZE: usize = 4;

/// Playing style, inferred from how long a note is held.
#[derive(Debug, Clone, Copy, PartialEq, Eq, Structural)]
pub enum Articulation {
    Staccato,
    Marcato,
    Sustain,
}

/// Velocity band of a note, from softest to loudest.
#[derive(Debug, Clone, Copy, PartialEq, Eq, Structural)]
pub enum DynamicLayer {
    Pp,
    P,
    Mp,
    Mf,
    F,
    Ff,
}

/// The band that a MIDI velocity falls into.
pub open spec fn layer_of(velocity: int) -> DynamicLayer {
    if velocity <= 29 {
        DynamicLayer::Pp
    } else if velocity <= 49 {
        DynamicLayer::P
    } else if velocity <= 69 {
        DynamicLayer::Mp
    } else if velocity <= 89 {
        DynamicLayer::Mf
    } else if velocity <= 109 {
        DynamicLayer::F
    } else {
        DynamicLayer::Ff
    }
}

/// Gain of each band, in hundredths.
pub open spec fn gain_centi_of(layer: DynamicLayer) -> u32 {
    match layer {
        DynamicLayer::Pp => 20,
        DynamicLayer::P => 32,
        DynamicLayer::Mp => 45,
        DynamicLayer::Mf => 60,
        DynamicLayer::F => 78,
        DynamicLayer::Ff => 95,
    }
}

/// Articulation of a note held `samples` samples at `rate` samples per second:
/// under 120 ms is staccato, up to 400 ms marcato, longer is sustain.
pub open spec fn articulation_of(samples: int, rate: int) -> Articulation {
    if samples * 1000 < 120 * rate {
        Articulation::Staccato
    } else if samples * 1000 <= 400 * rate {
        Articulation::Marcato
    } else {
        Articulation::Sustain
    }
}

impl DynamicLayer {
    /// Gain of this band, in hundredths (78 stands for 0.78).
    pub fn gain_centi(&self) -> (r: u32)
        ensures
            r == gain_centi_of(*self),
    {
        match self {
            DynamicLayer::Pp => 20,
            DynamicLayer::P => 32,
            DynamicLayer::Mp => 45,
            DynamicLayer::Mf => 60,
            DynamicLayer::F => 78,
            DynamicLayer::Ff => 95,
        }
    }
}

/// Continuous controller that drives the global dynamics.
pub const CC_DYNAMICS: u8 = 1;

/// Continuous controller that drives the global expression.
pub const CC_EXPRESSION: u8 = 11;

/// How long, in milliseconds, a note is assumed to last when it starts and its
/// note-off is not known yet.
pub const ASSUMED_NOTE_MS: u64 = 500;

/// A duration in milliseconds is a count of samples at this rate.
pub const MS_PER_SECOND: u32 = 1000;

/// Global smoother that a controller drives.
#[derive(Debug, Clone, Copy, PartialEq, Eq, Structural)]
pub enum CcTarget {
    Dynamics,
    Expression,
}

/// What a note-on decides before a voice is started for it.
#[derive(Debug, Clone, Copy, PartialEq, Eq, Structural)]
pub struct NoteOnPlan {
    pub layer: DynamicLayer,
    /// Gain of the layer in hundredths.
    pub gain_centi: u32,
    pub legato: bool,
    pub articulation: Articulation,
    /// Round-robin position after this note stepped it.
    pub round_robin: usize,
}

/// Smoother that controller `cc` drives, if any: every other controller is
/// ignored.
pub open spec fn cc_target_of(cc: u8) -> Option<CcTarget> {
    if cc == CC_DYNAMICS {
        Some(CcTarget::Dynamics)
    } else if cc == CC_EXPRESSION {
        Some(CcTarget::Expression)
    } else {
        None
    }
}

/// Routes a controller number to the smoother it drives.
pub fn cc_target(cc: u8) -> (r: Option<CcTarget>)
    ensures
        r == cc_target_of(cc),
{
    if cc == CC_DYNAMICS {
        Some(CcTarget::Dynamics)
    } else if cc == CC_EXPRESSION {
        Some(CcTarget::Expression)
    } else {
        None
    }
}

/// Classifies incoming notes and keeps the state that spans notes: the shared
/// legato memory and the round-robin position.
#[derive(Debug, Clone, Copy)]
pub struct MidiProcessor {
    pub legato_engine: LegatoEngine,
    pub round_robin: usize,
}

impl MidiProcessor {
    pub fn new() -> (r: Self)
        ensures
            r.round_robin == 0,
            r.legato_engine == LegatoEngine::initial(),
            r.legato_engine.end_marker() == -1,
            r.legato_engine.last_off() == -1000,
            r.legato_engine.last_note_spec() == -1,
            !r.legato_engine.flag(),
    {
        MidiProcessor { legato_engine: LegatoEngine::new(), round_robin: 0 }
    }

    /// Velocity band of `velocity` and its gain in hundredths.
    pub fn detect_layer(&self, velocity: u8) -> (r: (DynamicLayer, u32))
        ensures
            r.0 == layer_of(velocity as int),
            r.1 == gain_centi_of(r.0),
    {
        let layer = if velocity <= 29 {
            DynamicLayer::Pp
        } else if velocity <= 49 {
            DynamicLayer::P
        } else if velocity <= 69 {
            DynamicLayer::Mp
        } else if velocity <= 89 {
            DynamicLayer::Mf
        } else if velocity <= 109 {
            DynamicLayer::F
        } else {
            DynamicLayer::Ff
        };
        (layer, layer.gain_centi())
    }

    /// Articulation of a note held `duration_samples` samples at `sample_rate`
    /// samples per second.
    pub fn detect_articulation(&self, duration_samples: u64, sample_rate: u32) -> (r: Articulation)
        ensures
            r == articulation_of(duration_samples as int, sample_rate as int),
    {
        let scaled = (duration_samples as u128) * 1000;
        if scaled < 120 * (sample_rate as u128) {
            Articulation::Staccato
        } else if scaled <= 400 * (sample_rate as u128) {
            Articulation::Marcato
        } else {
            Articulation::Sustain
        }
    }

    /// Decides how a note-on at `global_sample` sounds: its layer and gain from
    /// the velocity, whether it glides (recorded in the legato memory), and its
    /// articulation, which is sustain for a glide and otherwise the one of a
    /// note of the assumed length (also sustain). Steps the round-robin
    /// counter.
    pub fn plan_note_on(&mut self, note: u8, velocity: u8, global_sample: i64) -> (r: NoteOnPlan)
        ensures
            r.layer == layer_of(velocity as int),
            r.gain_centi == gain_centi_of(r.layer),
            r.legato == legato_at(
                old(self).legato_engine.end_marker(),
                old(self).legato_engine.last_off(),
                global_sample as int,
            ),
            r.articulation == Articulation::Sustain,
            r.round_robin as int == (old(self).round_robin as int + 1) % (ROUND_ROBIN_SIZE as int),
            final(self).round_robin == r.round_robin,
            final(self).legato_engine.flag() == r.legato,
            final(self).legato_engine.last_note_spec() == note as int,
            final(self).legato_engine.end_marker() == i64::MAX as int,
            final(self).legato_engine.last_off() == old(self).legato_engine.last_off(),
    {
        let (layer, gain_centi) = self.detect_layer(velocity);
        let legato = self.legato_engine.note_on(note as i32, global_sample);
        let articulation = if legato {
            Articulation::Sustain
        } else {
            self.detect_articulation(ASSUMED_NOTE_MS, MS_PER_SECOND)
        };
        self.step_round_robin();
        NoteOnPlan { layer, gain_centi, legato, articulation, round_robin: self.round_robin }
    }

    /// Articulation of a voice that started at `start_sample` and is released
    /// at `now`, from how long it was held.
    pub fn note_off_articulation(&self, start_sample: i64, now: i64, sample_rate: u32) -> (r:
        Articulation)
        requires
            start_sample <= now,
        ensures
            r == articulation_of(now - start_sample, sample_rate as int),
    {
        let held = ((now as i128) - (start_sample as i128)) as u64;
        self.detect_articulation(held, sample_rate)
    }

    /// Moves the round-robin counter one position forward, wrapping after the
    /// last position.
    pub fn step_round_robin(&mut self)
        ensures
            final(self).round_robin as int == (old(self).round_robin as int + 1) % (
            ROUND_ROBIN_SIZE as int),
            final(self).legato_engine == old(self).legato_engine,
    {
        self.round_robin = ((self.round_robin as u128 + 1) % (ROUND_ROBIN_SIZE as u128)) as usize;
    }
}

} // verus!
