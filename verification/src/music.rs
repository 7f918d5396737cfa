//! Procedural chord-progression music: which notes are consonant with a
//! chord, and the fixed melody, bass and chord loops that the background
//! track cycles through.

use vstd::prelude::*;
use crate::rng::{choose_i32, random_below};
use crate::seq_util::{lemma_filter_push, lemma_filter_subset};

verus! {

/// Pitch-class distance from a chord tone `c` up to `note`, in semitones
/// (always in `0..12`).
pub open spec fn interval_of(note: int, c: int) -> int {
    (note - c) % 12
}

/// The intervals (in semitones above a chord tone) that count as consonant.
/// Thirds (`3` and `4`) are out: a third sounding against the fourth that
/// the scale offers is avoided.
pub open spec fn interval_allowed(iv: int) -> bool {
    iv == 0 || iv == 2 || iv == 5 || iv == 7 || iv == 9 || iv == 10 || iv == 11
}

/// `note` fits over `chord`: some chord tone is at a consonant interval.
pub open spec fn note_allowed(chord: Seq<i32>, note: i32) -> bool {
    exists|i: int| 0 <= i < chord.len() && interval_allowed(interval_of(note as int, chord[i] as int))
}

/// Decides whether `note` is consonant with `chord`.
pub fn allowed_note(chord: &[i32], note: i32) -> (r: bool)
    ensures
        r == note_allowed(chord@, note),
{
    let mut k: usize = 0;
    while k < chord.len()
        invariant
            k <= chord@.len(),
            forall|i: int| 0 <= i < k ==> !interval_allowed(interval_of(note as int, chord@[i] as int)),
        decreases chord@.len() - k,
    {
        let c = chord[k];
        let d: i64 = (note as i64) - (c as i64);
        let iv_opt = d.checked_rem_euclid(12);
        let iv = iv_opt.unwrap();
        assert(iv == interval_of(note as int, c as int));
        if iv == 0 || iv == 2 || iv == 5 || iv == 7 || iv == 9 || iv == 10 || iv == 11 {
            assert(interval_allowed(interval_of(note as int, chord@[k as int] as int)));
            return true;
        }
        k = k + 1;
    }
    false
}

/// `n` lies within a seventh (7 semitones) of the previous note.
pub open spec fn near_prev(n: int, prev: int) -> bool {
    -7 <= n - prev && n - prev <= 7
}

/// A note of the scale that may follow `prev` over `chord`: consonant, and
/// (when leaps are restricted) at most a seventh away.
pub open spec fn candidate_pred(chord: Seq<i32>, prev: i32, restrict_leap: bool) -> spec_fn(i32) -> bool {
    |n: i32| note_allowed(chord, n) && (restrict_leap ==> near_prev(n as int, prev as int))
}

/// Collects the notes of `scale` that may follow `prev` over `chord`.
pub fn candidate_notes(chord: &[i32], scale: &[i32], prev: i32, restrict_leap: bool) -> (r: Vec<
    i32,
>)
    ensures
        r@ == scale@.filter(candidate_pred(chord@, prev, restrict_leap)),
{
    let pred = Ghost(candidate_pred(chord@, prev, restrict_leap));
    let mut r: Vec<i32> = Vec::new();
    let mut k: usize = 0;
    while k < scale.len()
        invariant
            k <= scale@.len(),
            pred@ == candidate_pred(chord@, prev, restrict_leap),
            r@ == scale@.take(k as int).filter(pred@),
        decreases scale@.len() - k,
    {
        let n = scale[k];
        let ok = if allowed_note(chord, n) {
            if restrict_leap {
                let d: i64 = (n as i64) - (prev as i64);
                -7 <= d && d <= 7
            } else {
                true
            }
        } else {
            false
        };
        proof {
            assert(scale@.take(k + 1).drop_last() =~= scale@.take(k as int));
            lemma_filter_push(scale@.take(k as int), scale@[k as int], pred@);
            assert(scale@.take(k + 1) =~= scale@.take(k as int).push(scale@[k as int]));
        }
        if ok {
            assert(pred@(n));
            r.push(n);
        } else {
            assert(!pred@(n));
        }
        k = k + 1;
    }
    proof {
        assert(scale@.take(scale@.len() as int) =~= scale@);
    }
    r
}

/// What `pick_note` promises of its result: a member of the near
/// candidates when there are any, else of the unrestricted candidates,
/// else the previous note unchanged.
pub open spec fn picked_note_ok(chord: Seq<i32>, scale: Seq<i32>, prev: i32, r: i32) -> bool {
    let strict = scale.filter(candidate_pred(chord, prev, true));
    let loose = scale.filter(candidate_pred(chord, prev, false));
    if strict.len() > 0 {
        strict.contains(r)
    } else if loose.len() > 0 {
        loose.contains(r)
    } else {
        r == prev
    }
}

/// Picks, at random, a note of `scale` that fits over `chord`, preferring
/// notes within a seventh of `prev_note`; falls back to `prev_note` when
/// nothing fits.
pub fn pick_note(chord: &[i32], scale: &[i32], prev_note: i32) -> (r: i32)
    ensures
        picked_note_ok(chord@, scale@, prev_note, r),
        scale@.contains(r) || r == prev_note,
{
    proof {
        lemma_filter_subset(scale@, candidate_pred(chord@, prev_note, true));
        lemma_filter_subset(scale@, candidate_pred(chord@, prev_note, false));
    }
    let mut candidates = candidate_notes(chord, scale, prev_note, true);
    if candidates.len() == 0 {
        candidates = candidate_notes(chord, scale, prev_note, false);
    }
    match choose_i32(&candidates) {
        Some(n) => n,
        None => prev_note,
    }
}

/// The bass note a slot calls for: the chord root an octave up when the
/// slot is ornamented, else root and fifth an octave down, alternating.
pub open spec fn bass_slot_spec(chord: Seq<i32>, slot: int, ornament: bool) -> int {
    if ornament {
        chord[0] as int
    } else if slot % 2 == 0 {
        chord[0] - 12
    } else {
        chord[2] - 12
    }
}

/// Notes of `chord` stay far enough from the type's edges for an octave
/// shift.
pub open spec fn chord_in_range(chord: Seq<i32>) -> bool {
    chord.len() >= 3 && i32::MIN + 12 <= chord[0] && i32::MIN + 12 <= chord[2]
}

/// The deterministic half of the bass generator: the note for one slot,
/// once the ornament coin for that slot has been tossed.
pub fn bass_note_for_slot(chord: &[i32], slot: usize, ornament: bool) -> (r: i32)
    requires
        chord_in_range(chord@),
    ensures
        r == bass_slot_spec(chord@, slot as int, ornament),
{
    if ornament {
        chord[0]
    } else if slot % 2 == 0 {
        chord[0] - 12
    } else {
        chord[2] - 12
    }
}

/// Builds a bass line of `slots` notes over `chord`: each slot sounds, and
/// plays either the octave-up root (a random ornament) or the alternating
/// root/fifth an octave down.
pub fn make_bass_for_chord(chord: &[i32], slots: usize) -> (r: Vec<Option<i32>>)
    requires
        chord_in_range(chord@),
    ensures
        r@.len() == slots,
        forall|i: int|
            0 <= i < slots ==> (#[trigger] r@[i] == Some(chord@[0]) || r@[i] == Some(
                bass_slot_spec(chord@, i, false) as i32,
            )),
{
    let mut r: Vec<Option<i32>> = Vec::new();
    let mut k: usize = 0;
    while k < slots
        invariant
            k <= slots,
            chord_in_range(chord@),
            r@.len() == k,
            forall|i: int|
                0 <= i < k ==> (#[trigger] r@[i] == Some(chord@[0]) || r@[i] == Some(
                    bass_slot_spec(chord@, i, false) as i32,
                )),
        decreases slots - k,
    {
        let ornament = random_below(100) < 15;
        let n = bass_note_for_slot(chord, k, ornament);
        r.push(Some(n));
        k = k + 1;
    }
    r
}

/// The note sounded by the last non-rest slot of `voice`, or `default`
/// when every slot rests.
pub open spec fn last_sounded(voice: Seq<Option<i32>>, default: i32) -> i32
    decreases voice.len(),
{
    if voice.len() == 0 {
        default
    } else {
        match voice.last() {
            Some(n) => n,
            None => last_sounded(voice.drop_last(), default),
        }
    }
}

/// Builds a voice of `slots` slots over `chord`: each slot either rests
/// (at random, more often for an accompaniment than for the melody, and
/// preferring to rest where `other_voice` sounds) or picks a scale note
/// that fits the chord. Also returns the last note sounded, for the next
/// call to walk on from.
pub fn make_voice_for_chord(
    chord: &[i32],
    scale: &[i32],
    prev_note: i32,
    slots: usize,
    is_melody: bool,
    other_voice: Option<&[Option<i32>]>,
) -> (r: (Vec<Option<i32>>, i32))
    ensures
        r.0@.len() == slots,
        forall|i: int|
            0 <= i < slots ==> (#[trigger] r.0@[i] matches Some(n) ==> scale@.contains(n) || n
                == prev_note),
        r.1 == last_sounded(r.0@, prev_note),
{
    let mut voice: Vec<Option<i32>> = Vec::new();
    let mut last_note = prev_note;
    let mut k: usize = 0;
    while k < slots
        invariant
            k <= slots,
            voice@.len() == k,
            forall|i: int|
                0 <= i < k ==> (#[trigger] voice@[i] matches Some(n) ==> scale@.contains(n) || n
                    == prev_note),
            last_note == last_sounded(voice@, prev_note),
            scale@.contains(last_note) || last_note == prev_note,
        decreases slots - k,
    {
        let ghost pre = voice@;
        let mut rest = false;
        if let Some(other) = other_voice {
            if k < other.len() && other[k].is_some() && random_below(100) < 50 {
                rest = true;
            }
        }
        let rest_chance: u32 = if is_melody {
            15
        } else {
            25
        };
        if !rest && random_below(100) < rest_chance {
            rest = true;
        }
        if rest {
            voice.push(None);
            proof {
                assert(voice@.drop_last() =~= pre);
            }
        } else {
            let note = pick_note(chord, scale, last_note);
            voice.push(Some(note));
            proof {
                assert(voice@.drop_last() =~= pre);
            }
            last_note = note;
        }
        k = k + 1;
    }
    (voice, last_note)
}

/// The fixed melody loop, twelve slots, `None` being a rest.
pub open spec fn melody_pattern_spec() -> Seq<Option<i32>> {
    seq![
        Some(64i32),
        None,
        Some(66i32),
        Some(68i32),
        None,
        Some(69i32),
        Some(71i32),
        None,
        Some(69i32),
        Some(68i32),
        None,
        Some(66i32),
    ]
}

/// The fixed bass loop, twelve slots.
pub open spec fn bass_pattern_spec() -> Seq<Option<i32>> {
    seq![
        Some(40i32),
        Some(40i32),
        None,
        Some(43i32),
        Some(43i32),
        None,
        Some(45i32),
        Some(45i32),
        None,
        Some(43i32),
        Some(43i32),
        None,
    ]
}

/// The fixed chord-voice loop, twelve slots.
pub open spec fn chord_pattern_spec() -> Seq<Option<i32>> {
    seq![
        Some(52i32),
        None,
        Some(55i32),
        Some(59i32),
        None,
        Some(52i32),
        Some(55i32),
        None,
        Some(59i32),
        Some(52i32),
        None,
        Some(55i32),
    ]
}

/// The melody loop of the background track.
pub fn melody_pattern() -> (r: Vec<Option<i32>>)
    ensures
        r@ == melody_pattern_spec(),
{
    let mut r: Vec<Option<i32>> = Vec::new();
    r.push(Some(64));
    r.push(None);
    r.push(Some(66));
    r.push(Some(68));
    r.push(None);
    r.push(Some(69));
    r.push(Some(71));
    r.push(None);
    r.push(Some(69));
    r.push(Some(68));
    r.push(None);
    r.push(Some(66));
    proof {
        assert(r@ =~= melody_pattern_spec());
    }
    r
}

/// The bass loop of the background track.
pub fn bass_pattern() -> (r: Vec<Option<i32>>)
    ensures
        r@ == bass_pattern_spec(),
{
    let mut r: Vec<Option<i32>> = Vec::new();
    r.push(Some(40));
    r.push(Some(40));
    r.push(None);
    r.push(Some(43));
    r.push(Some(43));
    r.push(None);
    r.push(Some(45));
    r.push(Some(45));
    r.push(None);
    r.push(Some(43));
    r.push(Some(43));
    r.push(None);
    proof {
        assert(r@ =~= bass_pattern_spec());
    }
    r
}

/// The chord-voice loop of the background track.
pub fn chord_pattern() -> (r: Vec<Option<i32>>)
    ensures
        r@ == chord_pattern_spec(),
{
    let mut r: Vec<Option<i32>> = Vec::new();
    r.push(Some(52));
    r.push(None);
    r.push(Some(55));
    r.push(Some(59));
    r.push(None);
    r.push(Some(52));
    r.push(Some(55));
    r.push(None);
    r.push(Some(59));
    r.push(Some(52));
    r.push(None);
    r.push(Some(55));
    proof {
        assert(r@ =~= chord_pattern_spec());
    }
    r
}

/// Advances the loop position: the slot after `i`, wrapping to the start
/// past the last slot.
pub fn next_pattern_index(i: usize, len: usize) -> (r: usize)
    requires
        len > 0,
        i < len,
    ensures
        r == if i + 1 == len {
            0int
        } else {
            i + 1
        },
        r < len,
{
    if i + 1 == len {
        0
    } else {
        i + 1
    }
}

} // verus!
