//! Which sound answers each cue: a note for an Orb pickup, a ring for a Gate.
use vstd::prelude::*;

use crate::random::pick_weighted;
use rand_pcg::Mcg128Xsl64;

verus! {

/// Number of notes to pick from.
pub const NOTE_COUNT: usize = 8;

/// Number of ring sounds, played in turn.
pub const RING_COUNT: usize = 3;

/// The base weight of each note: the lowest (A#3) thrice as likely as most,
/// the fifth (F4) twice.
pub open spec fn base_weight(note: int) -> u32 {
    if note == 0 {
        3
    } else if note == 4 {
        2
    } else {
        1
    }
}

/// Picks pickup notes at random by weight, never the same note twice in a row.
pub struct NotePicker {
    pub last_note: usize,
}

impl NotePicker {
    pub open spec fn wf(&self) -> bool {
        self.last_note < NOTE_COUNT
    }

    pub fn new() -> (r: NotePicker)
        ensures
            r.wf(),
            r.last_note == 0,
    {
        NotePicker { last_note: 0 }
    }

    /// The weight of `note` with base weight `base`: zero for the last note played.
    pub fn weight(&self, note: usize, base: u32) -> (r: u32)
        ensures
            r == (if self.last_note == note { 0 } else { base }),
    {
        if self.last_note == note {
            return 0;
        }
        base
    }

    /// Draws the next note from `rng` and remembers it.
    pub fn play(&mut self, rng: &mut Mcg128Xsl64) -> (note: usize)
        requires
            old(self).wf(),
        ensures
            final(self).wf(),
            note < NOTE_COUNT,
            note != old(self).last_note,
            final(self).last_note == note,
    {
        let mut weights: Vec<u32> = Vec::new();
        let mut i: usize = 0;
        while i < NOTE_COUNT
            invariant
                i <= NOTE_COUNT,
                self.wf(),
                weights@.len() == i,
                forall|k: int|
                    0 <= k < i ==> weights@[k] == (if self.last_note == k { 0 } else { base_weight(k) }),
            decreases NOTE_COUNT - i,
        {
            let base: u32 = if i == 0 {
                3
            } else if i == 4 {
                2
            } else {
                1
            };
            let w = self.weight(i, base);
            weights.push(w);
            i = i + 1;
        }
        proof {
            let other: int = if self.last_note == 0 { 1int } else { 0int };
            assert(weights@[other] > 0);
        }
        let note = pick_weighted(rng, &weights);
        self.last_note = note;
        note
    }
}

/// Plays the ring sounds in turn.
pub struct ChordPicker {
    pub next_sound: usize,
}

impl ChordPicker {
    pub open spec fn wf(&self) -> bool {
        self.next_sound < RING_COUNT
    }

    pub fn new() -> (r: ChordPicker)
        ensures
            r.wf(),
            r.next_sound == 0,
    {
        ChordPicker { next_sound: 0 }
    }

    /// The ring to sound now; the next call gives the one after it.
    pub fn play(&mut self) -> (ring: usize)
        requires
            old(self).wf(),
        ensures
            final(self).wf(),
            ring == old(self).next_sound,
            final(self).next_sound == (old(self).next_sound + 1) % (RING_COUNT as int),
    {
        let ring = self.next_sound;
        self.next_sound = (self.next_sound + 1) % RING_COUNT;
        ring
    }
}

} // verus!
