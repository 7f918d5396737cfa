use shooter_core::music::{
    allowed_note, bass_pattern, candidate_notes, chord_pattern, make_bass_for_chord,
    make_voice_for_chord, melody_pattern, next_pattern_index, pick_note,
};

const C_MAJOR: [i32; 8] = [60, 62, 64, 65, 67, 69, 71, 72];

#[test]
fn allowed_note_accepts_unison() {
    assert!(allowed_note(&[60, 64, 67], 60));
}

#[test]
fn allowed_note_accepts_second_against_single_tone() {
    assert!(allowed_note(&[60], 62));
}

#[test]
fn allowed_note_rejects_bare_third() {
    // Against a single chord tone a major third stands alone, and a
    // third without support is avoided.
    assert!(!allowed_note(&[60], 64));
}

#[test]
fn allowed_note_rejects_semitone_against_single_tone() {
    assert!(!allowed_note(&[60], 61));
}

#[test]
fn allowed_note_accepts_third_through_other_chord_tone() {
    // 63 is a third over 60, but also a major seventh over 64.
    assert!(allowed_note(&[60, 64, 67], 63));
}

#[test]
fn candidate_notes_filters_scale() {
    let r = candidate_notes(&[60], &C_MAJOR, 60, true);
    assert_eq!(r, vec![60, 62, 65, 67]);
}

#[test]
fn candidate_notes_without_leap_restriction() {
    let r = candidate_notes(&[60], &C_MAJOR, 60, false);
    assert_eq!(r, vec![60, 62, 65, 67, 69, 71, 72]);
}

#[test]
fn pick_note_stays_among_candidates() {
    for _ in 0..50 {
        let n = pick_note(&[60], &C_MAJOR, 60);
        assert!([60, 62, 65, 67].contains(&n));
    }
}

#[test]
fn pick_note_falls_back_to_wide_leap() {
    // No candidate lies within a seventh of the previous note, so the
    // unrestricted candidates decide.
    let n = pick_note(&[60], &[62], 0);
    assert_eq!(n, 62);
}

#[test]
fn pick_note_returns_prev_when_nothing_fits() {
    let n = pick_note(&[60], &[61], 99);
    assert_eq!(n, 99);
}

#[test]
fn bass_line_sticks_to_root_and_fifth() {
    let chord = [60, 64, 67];
    let line = make_bass_for_chord(&chord, 8);
    assert_eq!(line.len(), 8);
    for (i, slot) in line.iter().enumerate() {
        let expected_plain = if i % 2 == 0 { 48 } else { 55 };
        match slot {
            Some(n) => assert!(*n == 60 || *n == expected_plain),
            None => panic!("bass slots always sound"),
        }
    }
}

#[test]
fn voice_slots_sound_scale_notes() {
    let chord = [60, 64, 67];
    let (voice, last) = make_voice_for_chord(&chord, &C_MAJOR, 64, 12, true, None);
    assert_eq!(voice.len(), 12);
    let mut expected_last = 64;
    for slot in &voice {
        if let Some(n) = slot {
            assert!(C_MAJOR.contains(n) || *n == 64);
            expected_last = *n;
        }
    }
    assert_eq!(last, expected_last);
}

#[test]
fn voice_respects_other_voice_length() {
    let chord = [60, 64, 67];
    let other: Vec<Option<i32>> = vec![Some(60); 4];
    let (voice, _) = make_voice_for_chord(&chord, &C_MAJOR, 60, 4, false, Some(&other));
    assert_eq!(voice.len(), 4);
}

#[test]
fn melody_pattern_is_the_fixed_loop() {
    assert_eq!(
        melody_pattern(),
        vec![
            Some(64),
            None,
            Some(66),
            Some(68),
            None,
            Some(69),
            Some(71),
            None,
            Some(69),
            Some(68),
            None,
            Some(66),
        ]
    );
}

#[test]
fn bass_pattern_is_the_fixed_loop() {
    assert_eq!(
        bass_pattern(),
        vec![
            Some(40),
            Some(40),
            None,
            Some(43),
            Some(43),
            None,
            Some(45),
            Some(45),
            None,
            Some(43),
            Some(43),
            None,
        ]
    );
}

#[test]
fn chord_pattern_is_the_fixed_loop() {
    assert_eq!(
        chord_pattern(),
        vec![
            Some(52),
            None,
            Some(55),
            Some(59),
            None,
            Some(52),
            Some(55),
            None,
            Some(59),
            Some(52),
            None,
            Some(55),
        ]
    );
}

#[test]
fn pattern_index_advances_and_wraps() {
    assert_eq!(next_pattern_index(0, 12), 1);
    assert_eq!(next_pattern_index(10, 12), 11);
    assert_eq!(next_pattern_index(11, 12), 0);
}
