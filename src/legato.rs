use vstd::prelude::*;

verus! {

/// Widest gap, in samples, between a note-off and the next note-on that still
/// counts as a legato retrigger (the gap must be strictly smaller).
pub const RETRIGGER_WINDOW: i64 = 30;

/// Shared legato memory of the whole voice pool: remembers when the last
/// sounding note ended and whether the most recent note-on glides. A note-on
/// opens the active-note window, which stays open while the note is held; a
/// note-off collapses it to the instant of the note-off.
#[derive(Debug, Clone, Copy)]
pub struct LegatoEngine {
    active_note_end_sample: i64,
    last_note_off_sample: i64,
    last_note: i32,
    pub is_legato: bool,
}

/// Whether a note-on at `sample` glides from the previous note: it arrives no
/// later than the active-note end marker, or less than the retrigger window
/// after the last note-off.
pub open spec fn legato_at(end_marker: int, last_off: int, sample: int) -> bool {
    sample <= end_marker || sample - last_off < RETRIGGER_WINDOW as int
}

impl LegatoEngine {
    pub closed spec fn end_marker(&self) -> int {
        self.active_note_end_sample as int
    }

    pub closed spec fn last_off(&self) -> int {
        self.last_note_off_sample as int
    }

    pub closed spec fn last_note_spec(&self) -> int {
        self.last_note as int
    }

    pub closed spec fn flag(&self) -> bool {
        self.is_legato
    }

    /// The memory of a pool that has played nothing yet.
    pub closed spec fn initial() -> Self {
        LegatoEngine {
            active_note_end_sample: -1i64,
            last_note_off_sample: -1000i64,
            last_note: -1i32,
            is_legato: false,
        }
    }

    pub fn new() -> (r: Self)
        ensures
            r == Self::initial(),
            r.end_marker() == -1,
            r.last_off() == -1000,
            r.last_note_spec() == -1,
            !r.flag(),
    {
        LegatoEngine {
            active_note_end_sample: -1,
            last_note_off_sample: -1000,
            last_note: -1,
            is_legato: false,
        }
    }

    /// Records a note-on and reports whether it glides from the previous note.
    /// The new note is held from now on, so the active-note window opens.
    pub fn note_on(&mut self, note: i32, global_sample: i64) -> (r: bool)
        ensures
            r == legato_at(old(self).end_marker(), old(self).last_off(), global_sample as int),
            final(self).flag() == r,
            final(self).last_note_spec() == note as int,
            final(self).end_marker() == i64::MAX as int,
            final(self).last_off() == old(self).last_off(),
    {
        let overlap = self.active_note_end_sample >= global_sample;
        let gap = (global_sample as i128) - (self.last_note_off_sample as i128);
        let gap_legato = gap < RETRIGGER_WINDOW as i128;
        self.is_legato = overlap || gap_legato;
        self.last_note = note;
        self.active_note_end_sample = i64::MAX;
        self.is_legato
    }

    /// Records a note-off: both the last note-off and the active-note end
    /// marker move to `global_sample`.
    pub fn note_off(&mut self, global_sample: i64)
        ensures
            final(self).end_marker() == global_sample as int,
            final(self).last_off() == global_sample as int,
            final(self).last_note_spec() == old(self).last_note_spec(),
            final(self).flag() == old(self).flag(),
    {
        self.last_note_off_sample = global_sample;
        self.active_note_end_sample = global_sample;
    }
}

} // verus!
