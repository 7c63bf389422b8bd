use vstd::prelude::*;

verus! {

/// Number of voice slots in a pool.
pub const MAX_VOICES: usize = 64;

/// Which slots of the fixed voice pool hold a sounding voice. A note-on takes
/// the first free slot; with none free it is dropped, and no voice is stolen.
#[derive(Debug)]
pub struct VoicePool {
    active: Vec<bool>,
    notes: Vec<u8>,
}

/// Slot `i` is the first free one of `slots`.
pub open spec fn is_first_free(slots: Seq<bool>, i: int) -> bool {
    &&& 0 <= i < slots.len()
    &&& !slots[i]
    &&& forall|j: int| 0 <= j < i ==> slots[j]
}

/// Every slot of `slots` is taken.
pub open spec fn all_taken(slots: Seq<bool>) -> bool {
    forall|j: int| 0 <= j < slots.len() ==> slots[j]
}

/// Slots of a pool of `n` after `k` note-ons on an empty pool with no
/// voice ending.
pub open spec fn filled(n: nat, k: nat) -> Seq<bool> {
    Seq::new(n, |i: int| i < k)
}

impl View for VoicePool {
    type V = Seq<bool>;

    closed spec fn view(&self) -> Seq<bool> {
        self.active@
    }
}

impl VoicePool {
    pub open spec fn wf(&self) -> bool {
        self@.len() == MAX_VOICES && self.notes_spec().len() == MAX_VOICES
    }

    /// Note that each slot was last started with.
    pub closed spec fn notes_spec(&self) -> Seq<u8> {
        self.notes@
    }

    /// Slot `i` holds a sounding voice of `note`.
    pub open spec fn plays(&self, i: int, note: u8) -> bool {
        0 <= i < self@.len() && self@[i] && self.notes_spec()[i] == note
    }

    /// A pool with every slot free.
    pub fn new() -> (r: Self)
        ensures
            r.wf(),
            r@ == filled(MAX_VOICES as nat, 0),
            r.notes_spec() == Seq::new(MAX_VOICES as nat, |i: int| 0u8),
    {
        let mut active: Vec<bool> = Vec::new();
        let mut notes: Vec<u8> = Vec::new();
        let mut i: usize = 0;
        while i < MAX_VOICES
            invariant
                i <= MAX_VOICES,
                active@ == filled(i as nat, 0),
                notes@ == Seq::new(i as nat, |j: int| 0u8),
            decreases MAX_VOICES - i,
        {
            active.push(false);
            notes.push(0);
            i = i + 1;
            assert(active@ =~= filled(i as nat, 0));
            assert(notes@ =~= Seq::new(i as nat, |j: int| 0u8));
        }
        VoicePool { active, notes }
    }

    /// Number of slots.
    pub fn capacity(&self) -> (r: usize)
        requires
            self.wf(),
        ensures
            r == MAX_VOICES,
            r == self@.len(),
    {
        self.active.len()
    }

    pub fn is_active(&self, slot: usize) -> (r: bool)
        requires
            self.wf(),
            slot < self@.len(),
        ensures
            r == self@[slot as int],
    {
        self.active[slot]
    }

    /// Takes the first free slot for a voice of `note` and returns it; returns
    /// `None`, and changes nothing, when every slot is taken.
    pub fn allocate(&mut self, note: u8) -> (r: Option<usize>)
        requires
            old(self).wf(),
        ensures
            final(self).wf(),
            match r {
                Some(i) => {
                    &&& is_first_free(old(self)@, i as int)
                    &&& final(self)@ == old(self)@.update(i as int, true)
                    &&& final(self).notes_spec() == old(self).notes_spec().update(i as int, note)
                },
                None => {
                    &&& all_taken(old(self)@)
                    &&& final(self)@ == old(self)@
                    &&& final(self).notes_spec() == old(self).notes_spec()
                },
            },
    {
        let mut i: usize = 0;
        while i < self.active.len()
            invariant
                i <= self.active@.len(),
                self@ == old(self)@,
                self.notes_spec() == old(self).notes_spec(),
                self.wf(),
                forall|j: int| 0 <= j < i ==> self@[j],
            decreases self.active@.len() - i,
        {
            if !self.active[i] {
                self.active.set(i, true);
                self.notes.set(i, note);
                return Some(i);
            }
            i = i + 1;
        }
        None
    }

    /// Slots, in increasing order, whose sounding voice plays `note`: the
    /// voices that a note-off of `note` releases.
    pub fn slots_playing(&self, note: u8) -> (r: Vec<usize>)
        requires
            self.wf(),
        ensures
            forall|k: int| 0 <= k < r@.len() ==> self.plays(r@[k] as int, note),
            forall|k: int, m: int| 0 <= k < m < r@.len() ==> r@[k] < r@[m],
            forall|i: int| self.plays(i, note) ==> r@.contains(i as usize),
    {
        let mut out: Vec<usize> = Vec::new();
        let mut i: usize = 0;
        while i < self.active.len()
            invariant
                self.wf(),
                i <= self.active@.len(),
                forall|k: int| 0 <= k < out@.len() ==> self.plays(out@[k] as int, note) && out@[k] < i,
                forall|k: int, m: int| 0 <= k < m < out@.len() ==> out@[k] < out@[m],
                forall|j: int| 0 <= j < i && self.plays(j, note) ==> out@.contains(j as usize),
            decreases self.active@.len() - i,
        {
            let ghost prev = out@;
            if self.active[i] && self.notes[i] == note {
                out.push(i);
                assert(out@[out@.len() - 1] == i);
                assert forall|j: int| 0 <= j < i && self.plays(j, note) implies out@.contains(
                    j as usize,
                ) by {
                    let k = choose|k: int| 0 <= k < prev.len() && prev[k] == j as usize;
                    assert(out@[k] == j as usize);
                }
            }
            i = i + 1;
        }
        out
    }

    /// Frees a slot whose voice has fallen silent.
    pub fn free(&mut self, slot: usize)
        requires
            old(self).wf(),
            slot < old(self)@.len(),
        ensures
            final(self).wf(),
            final(self)@ == old(self)@.update(slot as int, false),
            final(self).notes_spec() == old(self).notes_spec(),
    {
        self.active.set(slot, false);
    }

    /// Frees every slot.
    pub fn clear(&mut self)
        requires
            old(self).wf(),
        ensures
            final(self).wf(),
            final(self)@ == filled(old(self)@.len(), 0),
    {
        let mut i: usize = 0;
        while i < self.active.len()
            invariant
                i <= self.active@.len(),
                self@.len() == old(self)@.len(),
                self.wf(),
                forall|j: int| 0 <= j < i ==> !self@[j],
            decreases self.active@.len() - i,
        {
            self.active.set(i, false);
            i = i + 1;
        }
        assert(self@ =~= filled(old(self)@.len(), 0));
    }
}

/// On an empty pool of `n` slots with no voice ending, note-on `k + 1` takes
/// slot `k` while one is free, so the first `k + 1` slots are then taken; once
/// all `n` slots are taken, every later note-on is dropped and all `n` stay.
pub proof fn lemma_pool_fills_in_order(n: nat, k: nat)
    requires
        k <= n,
    ensures
        k < n ==> is_first_free(filled(n, k), k as int),
        k < n ==> filled(n, k).update(k as int, true) == filled(n, k + 1),
        k == n ==> all_taken(filled(n, k)),
{
    if k < n {
        assert(filled(n, k).update(k as int, true) =~= filled(n, k + 1));
    }
}

} // verus!
