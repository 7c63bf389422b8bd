use smart_orchestra::dispatch::{cc_target, Articulation, CcTarget, DynamicLayer, MidiProcessor};
use smart_orchestra::driver::events_due;
use smart_orchestra::envelope::{envelope_profile, release_ms_for, EnvelopeProfile, EnvelopeStage};
use smart_orchestra::legato::LegatoEngine;
use smart_orchestra::pool::{VoicePool, MAX_VOICES};
use smart_orchestra::smoothing::{ramp_samples, RampCounter, RampStep};

#[test]
fn legato_fresh_engine_is_not_legato() {
    let mut e = LegatoEngine::new();
    assert!(!e.note_on(60, 0));
    assert!(!e.is_legato);
}

#[test]
fn legato_overlap_at_end_marker() {
    let mut e = LegatoEngine::new();
    e.note_off(1000);
    // at and before the marker: overlap
    assert!(e.note_on(62, 1000));
    assert!(e.note_on(62, 900));
}

#[test]
fn legato_gap_window() {
    let mut e = LegatoEngine::new();
    e.note_off(1000);
    assert!(e.note_on(62, 1029));
    // the note started at 1029 is still held, so the next one overlaps it
    assert!(e.note_on(62, 1030));
    assert!(e.is_legato);

    let mut fresh = LegatoEngine::new();
    fresh.note_off(1000);
    assert!(!fresh.note_on(62, 1030));
    assert!(!fresh.is_legato);
}

#[test]
fn legato_held_note_overlaps_until_note_off() {
    let mut e = LegatoEngine::new();
    assert!(!e.note_on(60, 0));
    assert!(e.note_on(62, 48000));
    e.note_off(48000);
    assert!(e.note_on(64, 48029));
    e.note_off(50000);
    assert!(!e.note_on(65, 50030));
}


#[test]
fn legato_extreme_samples_do_not_overflow() {
    let mut e = LegatoEngine::new();
    assert!(!e.note_on(1, i64::MAX));
    assert!(e.note_on(1, i64::MIN));
    e.note_off(i64::MIN);
    assert!(!e.note_on(1, i64::MAX));
}

#[test]
fn layer_bands_and_gains() {
    let m = MidiProcessor::new();
    let cases: [(u8, DynamicLayer, u32); 12] = [
        (0, DynamicLayer::Pp, 20),
        (29, DynamicLayer::Pp, 20),
        (30, DynamicLayer::P, 32),
        (49, DynamicLayer::P, 32),
        (50, DynamicLayer::Mp, 45),
        (69, DynamicLayer::Mp, 45),
        (70, DynamicLayer::Mf, 60),
        (89, DynamicLayer::Mf, 60),
        (90, DynamicLayer::F, 78),
        (109, DynamicLayer::F, 78),
        (110, DynamicLayer::Ff, 95),
        (127, DynamicLayer::Ff, 95),
    ];
    for (v, layer, gain) in cases {
        assert_eq!(m.detect_layer(v), (layer, gain));
    }
}

#[test]
fn articulation_thresholds() {
    let m = MidiProcessor::new();
    // 48 samples per millisecond
    assert_eq!(m.detect_articulation(0, 48000), Articulation::Staccato);
    assert_eq!(m.detect_articulation(120 * 48 - 1, 48000), Articulation::Staccato);
    assert_eq!(m.detect_articulation(120 * 48, 48000), Articulation::Marcato);
    assert_eq!(m.detect_articulation(400 * 48, 48000), Articulation::Marcato);
    assert_eq!(m.detect_articulation(400 * 48 + 1, 48000), Articulation::Sustain);
    assert_eq!(m.detect_articulation(500 * 48, 48000), Articulation::Sustain);
}

#[test]
fn note_off_articulation_from_held_time() {
    let m = MidiProcessor::new();
    assert_eq!(m.note_off_articulation(1000, 1000 + 44100 / 10, 44100), Articulation::Staccato);
    assert_eq!(m.note_off_articulation(1000, 1000 + 44100 / 4, 44100), Articulation::Marcato);
    assert_eq!(m.note_off_articulation(-5, 44100, 44100), Articulation::Sustain);
}

#[test]
fn round_robin_cycles_four() {
    let mut m = MidiProcessor::new();
    let mut seen = Vec::new();
    for _ in 0..6 {
        m.step_round_robin();
        seen.push(m.round_robin);
    }
    assert_eq!(seen, vec![1, 2, 3, 0, 1, 2]);
}

#[test]
fn cc_routing() {
    assert_eq!(cc_target(1), Some(CcTarget::Dynamics));
    assert_eq!(cc_target(11), Some(CcTarget::Expression));
    assert_eq!(cc_target(0), None);
    assert_eq!(cc_target(7), None);
    assert_eq!(cc_target(127), None);
}

#[test]
fn note_on_middle_c_forte() {
    let mut m = MidiProcessor::new();
    let plan = m.plan_note_on(60, 100, 0);
    assert_eq!(plan.layer, DynamicLayer::F);
    assert_eq!(plan.gain_centi, 78);
    assert!(!plan.legato);
    assert_eq!(plan.articulation, Articulation::Sustain);
    assert_eq!(plan.round_robin, 1);
    assert_eq!(m.round_robin, 1);
}

#[test]
fn note_on_repeat_after_ten_samples_glides() {
    let mut m = MidiProcessor::new();
    let first = m.plan_note_on(69, 100, 0);
    let second = m.plan_note_on(69, 100, 10);
    assert!(!first.legato);
    assert!(second.legato);
    assert!(m.legato_engine.is_legato);
    assert_eq!(second.articulation, Articulation::Sustain);
    assert_eq!(second.round_robin, 2);
}

#[test]
fn envelope_profiles() {
    assert_eq!(
        envelope_profile(Articulation::Staccato, false),
        EnvelopeProfile { attack_ms: 2, decay_ms: 45, sustain_centi: 35 }
    );
    assert_eq!(
        envelope_profile(Articulation::Marcato, false),
        EnvelopeProfile { attack_ms: 10, decay_ms: 90, sustain_centi: 60 }
    );
    assert_eq!(
        envelope_profile(Articulation::Sustain, false),
        EnvelopeProfile { attack_ms: 20, decay_ms: 160, sustain_centi: 82 }
    );
    for a in [Articulation::Staccato, Articulation::Marcato, Articulation::Sustain] {
        assert_eq!(
            envelope_profile(a, true),
            EnvelopeProfile { attack_ms: 30, decay_ms: 160, sustain_centi: 85 }
        );
    }
}

#[test]
fn release_times() {
    assert_eq!(release_ms_for(Articulation::Staccato), 45);
    assert_eq!(release_ms_for(Articulation::Marcato), 100);
    assert_eq!(release_ms_for(Articulation::Sustain), 180);
}

#[test]
fn envelope_stage_walk() {
    let s = EnvelopeStage::Idle.on_trigger();
    assert_eq!(s, EnvelopeStage::Attack);
    assert_eq!(s.advance(false), EnvelopeStage::Attack);
    let s = s.advance(true);
    assert_eq!(s, EnvelopeStage::Decay);
    let s = s.advance(true);
    assert_eq!(s, EnvelopeStage::Sustain);
    assert_eq!(s.advance(true), EnvelopeStage::Sustain);
    let s = s.on_release();
    assert_eq!(s, EnvelopeStage::Release);
    assert_eq!(s.advance(false), EnvelopeStage::Release);
    let s = s.advance(true);
    assert!(s.is_idle());
    assert_eq!(s.on_release(), EnvelopeStage::Idle);
    assert_eq!(EnvelopeStage::Attack.on_release(), EnvelopeStage::Release);
    assert_eq!(EnvelopeStage::Decay.on_release(), EnvelopeStage::Release);
}

#[test]
fn ramp_length_rounds_and_floors_at_one() {
    assert_eq!(ramp_samples(5, 48000), 240);
    assert_eq!(ramp_samples(5, 44100), 221);
    assert_eq!(ramp_samples(0, 48000), 1);
    assert_eq!(ramp_samples(1, 100), 1);
    assert_eq!(ramp_samples(u32::MAX, u32::MAX), (u32::MAX as u64 * u32::MAX as u64 + 500) / 1000);
}

#[test]
fn ramp_counter_lands_on_last_sample() {
    let mut c = RampCounter::new();
    assert_eq!(c.tick(), RampStep::Hold);
    c.start(ramp_samples(5, 48000));
    for _ in 0..239 {
        assert_eq!(c.tick(), RampStep::Step);
    }
    assert_eq!(c.tick(), RampStep::Land);
    assert_eq!(c.tick(), RampStep::Hold);
    assert_eq!(c.samples_left, 0);
}

#[test]
fn ramp_counter_restart_and_stop() {
    let mut c = RampCounter::new();
    c.start(3);
    assert_eq!(c.tick(), RampStep::Step);
    c.start(1);
    assert_eq!(c.tick(), RampStep::Land);
    c.start(5);
    c.stop();
    assert_eq!(c.tick(), RampStep::Hold);
}

#[test]
fn pool_drops_note_when_full() {
    let mut pool = VoicePool::new();
    assert_eq!(pool.capacity(), MAX_VOICES);
    for i in 0..64 {
        assert_eq!(pool.allocate(60 + (i % 4) as u8), Some(i));
    }
    assert_eq!(pool.allocate(72), None);
    assert!(pool.slots_playing(72).is_empty());
    for i in 0..64 {
        assert!(pool.is_active(i));
    }
}

#[test]
fn pool_reuses_first_freed_slot() {
    let mut pool = VoicePool::new();
    for _ in 0..10 {
        pool.allocate(60);
    }
    pool.free(7);
    pool.free(3);
    assert!(!pool.is_active(3));
    assert_eq!(pool.allocate(61), Some(3));
    assert_eq!(pool.allocate(62), Some(7));
    assert_eq!(pool.allocate(63), Some(10));
    pool.clear();
    for i in 0..64 {
        assert!(!pool.is_active(i));
    }
    assert_eq!(pool.allocate(64), Some(0));
}

#[test]
fn pool_finds_voices_of_a_note() {
    let mut pool = VoicePool::new();
    for note in [60u8, 64, 60, 67, 60] {
        pool.allocate(note);
    }
    assert_eq!(pool.slots_playing(60), vec![0, 2, 4]);
    assert_eq!(pool.slots_playing(67), vec![3]);
    assert!(pool.slots_playing(0).is_empty());
    pool.free(2);
    assert_eq!(pool.slots_playing(60), vec![0, 4]);
    pool.clear();
    assert!(pool.slots_playing(60).is_empty());
}

#[test]
fn due_events_stop_at_first_later_stamp() {
    let stamps: Vec<u64> = vec![0, 0, 5, 5, 9];
    assert_eq!(events_due(&stamps, 0, 0), 2);
    assert_eq!(events_due(&stamps, 2, 4), 2);
    assert_eq!(events_due(&stamps, 2, 5), 4);
    assert_eq!(events_due(&stamps, 4, 100), 5);
    assert_eq!(events_due(&stamps, 5, 100), 5);
    assert_eq!(events_due(&Vec::new(), 0, 7), 0);
}
