use rust_music_theory::chord::table::available_chords;
use rust_music_theory::chord::{Chord, ChordError, Inversion, Number, Quality};
use rust_music_theory::note::{Note, Notes, PitchClass};

fn note(pitch_class: PitchClass, octave: u8) -> Note {
    Note { pitch_class, octave }
}

fn steps(chord: &Chord) -> Vec<u8> {
    chord.intervals().iter().map(|i| i.semitone_count()).collect()
}

const ROOTS: [PitchClass; 12] = [
    PitchClass::C,
    PitchClass::Cs,
    PitchClass::D,
    PitchClass::Ds,
    PitchClass::E,
    PitchClass::F,
    PitchClass::Fs,
    PitchClass::G,
    PitchClass::Gs,
    PitchClass::A,
    PitchClass::As,
    PitchClass::B,
];

const QUALITIES: [Quality; 10] = [
    Quality::Major,
    Quality::Minor,
    Quality::Suspended2,
    Quality::Suspended4,
    Quality::Augmented,
    Quality::Diminished,
    Quality::HalfDiminished,
    Quality::MinorMajor,
    Quality::AugmentedMajor,
    Quality::Dominant,
];

const NUMBERS: [Number; 5] =
    [Number::Triad, Number::Seventh, Number::Ninth, Number::Eleventh, Number::Thirteenth];

#[test]
fn chord_from_canonical_text() {
    let chord = Chord::from_regex("C minor").unwrap();
    assert_eq!(chord.root(), PitchClass::C);
    assert_eq!(chord.quality(), Quality::Minor);
    assert_eq!(chord.number(), Number::Triad);
    assert_eq!(chord.inversion(), 0);
    assert_eq!(
        chord.notes(),
        vec![note(PitchClass::C, 4), note(PitchClass::Ds, 4), note(PitchClass::G, 4)]
    );
}

#[test]
fn chord_root_only_first_inversion() {
    let chord = Chord::from_regex("C/1").unwrap();
    assert_eq!(chord.quality(), Quality::Major);
    assert_eq!(chord.number(), Number::Triad);
    assert_eq!(chord.inversion(), 1);
    assert_eq!(
        chord.notes(),
        vec![note(PitchClass::E, 4), note(PitchClass::G, 4), note(PitchClass::C, 5)]
    );
}

#[test]
fn chord_unrecognized_quality_is_an_error() {
    assert_eq!(Chord::from_regex("C zzz").err(), Some(ChordError::QualityFromRegex));
}

#[test]
fn chord_without_pitch_is_an_error() {
    assert_eq!(Chord::from_regex("zzz").err(), Some(ChordError::InvalidPitch));
    assert_eq!(Chord::from_regex("").err(), Some(ChordError::InvalidPitch));
    assert_eq!(Chord::from_regex("/1").err(), Some(ChordError::InvalidPitch));
}

#[test]
fn chord_with_malformed_inversion_is_an_error() {
    assert_eq!(Chord::from_regex("C minor / zz").err(), Some(ChordError::InversionFormat));
    assert_eq!(Chord::from_regex("C/").err(), Some(ChordError::InversionFormat));
    assert_eq!(Chord::from_regex("C/-1").err(), Some(ChordError::InversionFormat));
    assert_eq!(Chord::from_regex("C/300").err(), Some(ChordError::InversionFormat));
}

#[test]
fn chord_quality_error_comes_before_inversion_error() {
    assert_eq!(Chord::from_regex("C zzz / zz").err(), Some(ChordError::QualityFromRegex));
}

#[test]
fn chord_root_alone_is_a_major_triad() {
    let chord = Chord::from_regex("G").unwrap();
    assert_eq!(chord.quality(), Quality::Major);
    assert_eq!(chord.number(), Number::Triad);
    assert_eq!(steps(&chord), vec![4, 3]);
    assert_eq!(
        chord.notes(),
        vec![note(PitchClass::G, 4), note(PitchClass::B, 4), note(PitchClass::D, 5)]
    );
}

#[test]
fn chord_white_space_round_the_clauses_is_ignored() {
    let spaced = Chord::from_regex("C /1").unwrap();
    assert_eq!(spaced.quality(), Quality::Major);
    assert_eq!(spaced.inversion(), 1);
    let wide = Chord::from_regex("C   minor   seventh   /   2  ").unwrap();
    assert_eq!(wide.quality(), Quality::Minor);
    assert_eq!(wide.number(), Number::Seventh);
    assert_eq!(wide.inversion(), 2);
}

#[test]
fn chord_number_defaults_to_triad() {
    let chord = Chord::from_regex("D dominant").unwrap();
    assert_eq!(chord.quality(), Quality::Dominant);
    assert_eq!(chord.number(), Number::Triad);
    assert_eq!(steps(&chord), vec![4, 3]);
}

#[test]
fn chord_two_word_qualities_win_over_their_parts() {
    let chord = Chord::from_regex("C minor major seventh").unwrap();
    assert_eq!(chord.quality(), Quality::MinorMajor);
    assert_eq!(chord.number(), Number::Seventh);
    assert_eq!(steps(&chord), vec![3, 4, 4]);

    let chord = Chord::from_regex("Ab augmented major seventh").unwrap();
    assert_eq!(chord.root(), PitchClass::Gs);
    assert_eq!(chord.quality(), Quality::AugmentedMajor);
    assert_eq!(steps(&chord), vec![4, 4, 3]);
    assert_eq!(
        chord.notes(),
        vec![
            note(PitchClass::Gs, 4),
            note(PitchClass::C, 5),
            note(PitchClass::E, 5),
            note(PitchClass::G, 5)
        ]
    );

    let chord = Chord::from_regex("B half diminished seventh").unwrap();
    assert_eq!(chord.quality(), Quality::HalfDiminished);
    assert_eq!(steps(&chord), vec![3, 3, 4]);
}

#[test]
fn chord_listed_names_are_read_back() {
    for (quality, number) in available_chords() {
        let text = format!("E {} {}", quality.name(), number.name());
        let chord = Chord::from_regex(&text).unwrap();
        assert_eq!((chord.quality(), chord.number()), (quality, number), "{}", text);
        let lower = text.to_lowercase().replacen('e', "E", 1);
        let chord = Chord::from_regex(&lower).unwrap();
        assert_eq!((chord.quality(), chord.number()), (quality, number), "{}", lower);
    }
}

#[test]
fn chord_short_names() {
    let cases = [
        ("C M", Quality::Major, Number::Triad),
        ("C m", Quality::Minor, Number::Triad),
        ("Cm", Quality::Minor, Number::Triad),
        ("C maj 7", Quality::Major, Number::Seventh),
        ("C min 7th", Quality::Minor, Number::Seventh),
        ("C dim", Quality::Diminished, Number::Triad),
        ("C aug", Quality::Augmented, Number::Triad),
        ("C dom 9", Quality::Dominant, Number::Ninth),
        ("C dom 11th", Quality::Dominant, Number::Eleventh),
        ("C maj 13", Quality::Major, Number::Thirteenth),
        ("C sus2", Quality::Suspended2, Number::Triad),
        ("C sus4 triad", Quality::Suspended4, Number::Triad),
    ];
    for (text, quality, number) in cases {
        let chord = Chord::from_regex(text).unwrap();
        assert_eq!((chord.quality(), chord.number()), (quality, number), "{}", text);
    }
}

#[test]
fn chord_with_bass_note() {
    let chord = Chord::from_regex("F# dominant seventh / C#").unwrap();
    assert_eq!(chord.root(), PitchClass::Fs);
    assert_eq!(chord.inversion(), 2);
    assert_eq!(
        chord.notes(),
        vec![
            note(PitchClass::Cs, 4),
            note(PitchClass::E, 4),
            note(PitchClass::Fs, 4),
            note(PitchClass::As, 4)
        ]
    );
}

#[test]
fn chord_with_absent_bass_note_stays_in_root_position() {
    let chord = Chord::from_regex("C major / D").unwrap();
    assert_eq!(chord.inversion(), 0);
    assert_eq!(
        chord.notes(),
        vec![note(PitchClass::C, 4), note(PitchClass::E, 4), note(PitchClass::G, 4)]
    );
}

#[test]
fn chord_with_root_as_bass_note_stays_in_root_position() {
    let chord = Chord::from_regex("C major / C").unwrap();
    assert_eq!(chord.inversion(), 0);
}

#[test]
fn chord_inversion_number_wraps() {
    assert_eq!(Chord::from_regex("C/3").unwrap().inversion(), 0);
    assert_eq!(Chord::from_regex("C/4").unwrap().inversion(), 1);
    assert_eq!(Chord::from_regex("C/+2").unwrap().inversion(), 2);
    assert_eq!(Chord::from_regex("C/007").unwrap().inversion(), 1);
    assert_eq!(Chord::from_regex("C/255").unwrap().inversion(), 0);
}

#[test]
fn chord_intervals_of_the_table() {
    let expected: [(Quality, Number, &[u8]); 22] = [
        (Quality::Major, Number::Triad, &[4, 3]),
        (Quality::Minor, Number::Triad, &[3, 4]),
        (Quality::Suspended2, Number::Triad, &[2, 5]),
        (Quality::Suspended4, Number::Triad, &[5, 7]),
        (Quality::Augmented, Number::Triad, &[4, 4]),
        (Quality::Diminished, Number::Triad, &[3, 3]),
        (Quality::Major, Number::Seventh, &[4, 3, 4]),
        (Quality::Minor, Number::Seventh, &[3, 4, 3]),
        (Quality::Augmented, Number::Seventh, &[4, 4, 2]),
        (Quality::AugmentedMajor, Number::Seventh, &[4, 4, 3]),
        (Quality::Diminished, Number::Seventh, &[3, 3, 3]),
        (Quality::HalfDiminished, Number::Seventh, &[3, 3, 4]),
        (Quality::MinorMajor, Number::Seventh, &[3, 4, 4]),
        (Quality::Dominant, Number::Seventh, &[4, 3, 3]),
        (Quality::Dominant, Number::Ninth, &[4, 3, 3, 4]),
        (Quality::Major, Number::Ninth, &[4, 3, 4, 3]),
        (Quality::Dominant, Number::Eleventh, &[4, 3, 3, 4, 4]),
        (Quality::Major, Number::Eleventh, &[4, 3, 4, 3, 3]),
        (Quality::Minor, Number::Eleventh, &[3, 4, 3, 4, 3]),
        (Quality::Dominant, Number::Thirteenth, &[4, 3, 3, 4, 3, 4]),
        (Quality::Major, Number::Thirteenth, &[4, 3, 4, 3, 3, 4]),
        (Quality::Minor, Number::Thirteenth, &[3, 4, 3, 4, 3, 4]),
    ];
    let listed = available_chords();
    assert_eq!(listed.len(), 22);
    for (i, (quality, number, counts)) in expected.iter().enumerate() {
        assert_eq!(listed[i], (*quality, *number));
        let intervals = Chord::chord_intervals(*quality, *number);
        let got: Vec<u8> = intervals.iter().map(|i| i.semitone_count()).collect();
        assert_eq!(&got[..], *counts);
    }
}

#[test]
fn chord_intervals_fall_back_to_major_triad() {
    let listed = available_chords();
    let mut outside = 0;
    for quality in QUALITIES {
        for number in NUMBERS {
            if !listed.contains(&(quality, number)) {
                outside += 1;
                let got: Vec<u8> = Chord::chord_intervals(quality, number)
                    .iter()
                    .map(|i| i.semitone_count())
                    .collect();
                assert_eq!(got, vec![4, 3]);
            }
        }
    }
    assert_eq!(outside, 28);
    let exotic = Chord::new(PitchClass::D, Quality::Suspended2, Number::Thirteenth);
    assert_eq!(
        exotic.notes(),
        vec![note(PitchClass::D, 4), note(PitchClass::Fs, 4), note(PitchClass::A, 4)]
    );
}

#[test]
fn chord_table_lengths_and_spans() {
    for (quality, number) in available_chords() {
        let tones = match number {
            Number::Triad => 3,
            Number::Seventh => 4,
            Number::Ninth => 5,
            Number::Eleventh => 6,
            Number::Thirteenth => 7,
        };
        for root in ROOTS {
            let chord = Chord::new(root, quality, number);
            let counts = steps(&chord);
            assert_eq!(counts.len() + 1, tones);
            let notes = chord.notes();
            assert_eq!(notes.len(), tones);
            let sum: u16 = counts.iter().map(|c| *c as u16).sum();
            let first = notes[0].semitones_from_zero();
            let last = notes[notes.len() - 1].semitones_from_zero();
            assert_eq!(last - first, sum);
            let wraps = (notes[notes.len() - 1].octave - notes[0].octave) as u16;
            let rise = notes[notes.len() - 1].pitch_class.to_u8() as i32
                - notes[0].pitch_class.to_u8() as i32;
            assert_eq!(rise + 12 * wraps as i32, sum as i32);
        }
    }
}

#[test]
fn chord_notes_are_the_same_each_time() {
    for root in ROOTS {
        for quality in QUALITIES {
            for number in NUMBERS {
                let chord = Chord::new(root, quality, number);
                assert_eq!(chord.notes(), chord.notes());
                assert_eq!(chord.clone().notes(), chord.notes());
            }
        }
    }
}

#[test]
fn chord_constructed_inversion_wraps() {
    for (quality, number) in available_chords() {
        let k = Chord::chord_intervals(quality, number).len() as u8;
        for inversion in 0..=255u8 {
            let chord = Chord::with_inversion(PitchClass::C, quality, number, inversion);
            assert_eq!(chord.inversion(), inversion % (k + 1));
        }
        assert_eq!(Chord::with_inversion(PitchClass::C, quality, number, k).inversion(), k);
        assert_eq!(Chord::with_inversion(PitchClass::C, quality, number, k + 1).inversion(), 0);
        assert_eq!(Chord::with_inversion(PitchClass::C, quality, number, k + 2).inversion(), 1);
    }
}

#[test]
fn chord_set_inversion_wraps_and_keeps_the_rest() {
    let mut chord = Chord::new(PitchClass::A, Quality::Minor, Number::Seventh);
    chord.set_inversion(6);
    assert_eq!(chord.inversion(), 2);
    assert_eq!(chord.root(), PitchClass::A);
    assert_eq!(chord.octave(), 4);
    assert_eq!(chord.quality(), Quality::Minor);
    assert_eq!(chord.number(), Number::Seventh);
    assert_eq!(steps(&chord), vec![3, 4, 3]);
    assert_eq!(
        chord.notes(),
        vec![
            note(PitchClass::E, 4),
            note(PitchClass::G, 4),
            note(PitchClass::A, 4),
            note(PitchClass::C, 5)
        ]
    );
}

#[test]
fn chord_octaves_rise_exactly_where_pitch_classes_do_not() {
    for root in ROOTS {
        for quality in QUALITIES {
            for number in NUMBERS {
                let k = Chord::chord_intervals(quality, number).len() as u8;
                let root_position = Chord::new(root, quality, number).notes();
                for inversion in 0..=k {
                    let chord = Chord::with_inversion(root, quality, number, inversion);
                    let notes = chord.notes();
                    assert_eq!(notes.len(), k as usize + 1);
                    assert_eq!(notes[0].octave, 4);
                    for i in 0..notes.len() {
                        let from = (i + inversion as usize) % notes.len();
                        assert_eq!(notes[i].pitch_class, root_position[from].pitch_class);
                    }
                    for i in 1..notes.len() {
                        let rises =
                            notes[i].pitch_class.to_u8() > notes[i - 1].pitch_class.to_u8();
                        if rises {
                            assert_eq!(notes[i].octave, notes[i - 1].octave);
                        } else {
                            assert_eq!(notes[i].octave, notes[i - 1].octave + 1);
                        }
                        assert!(notes[i - 1].is_below(&notes[i]));
                    }
                }
            }
        }
    }
}

#[test]
fn chord_inversions_of_a_ninth() {
    let expected: [[(PitchClass, u8); 5]; 5] = [
        [
            (PitchClass::C, 4),
            (PitchClass::E, 4),
            (PitchClass::G, 4),
            (PitchClass::B, 4),
            (PitchClass::D, 5),
        ],
        [
            (PitchClass::E, 4),
            (PitchClass::G, 4),
            (PitchClass::B, 4),
            (PitchClass::D, 5),
            (PitchClass::C, 6),
        ],
        [
            (PitchClass::G, 4),
            (PitchClass::B, 4),
            (PitchClass::D, 5),
            (PitchClass::C, 6),
            (PitchClass::E, 6),
        ],
        [
            (PitchClass::B, 4),
            (PitchClass::D, 5),
            (PitchClass::C, 6),
            (PitchClass::E, 6),
            (PitchClass::G, 6),
        ],
        [
            (PitchClass::D, 4),
            (PitchClass::C, 5),
            (PitchClass::E, 5),
            (PitchClass::G, 5),
            (PitchClass::B, 5),
        ],
    ];
    for (inversion, voicing) in expected.iter().enumerate() {
        let chord =
            Chord::with_inversion(PitchClass::C, Quality::Major, Number::Ninth, inversion as u8);
        let want: Vec<Note> = voicing.iter().map(|(p, o)| note(*p, *o)).collect();
        assert_eq!(chord.notes(), want, "inversion {}", inversion);
    }
}

#[test]
fn chord_invert_by_number_and_by_bass_note() {
    let mut chord = Chord::new(PitchClass::C, Quality::Major, Number::Seventh);
    chord.invert(Inversion::Number(5));
    assert_eq!(chord.inversion(), 1);
    chord.invert(Inversion::BassNote(PitchClass::B));
    assert_eq!(chord.inversion(), 3);
    chord.invert(Inversion::BassNote(PitchClass::Fs));
    assert_eq!(chord.inversion(), 3);
    chord.invert(Inversion::BassNote(PitchClass::C));
    assert_eq!(chord.inversion(), 0);
}

#[test]
fn chord_invert_takes_the_first_place_of_a_repeated_pitch() {
    let mut chord = Chord::new(PitchClass::C, Quality::Suspended4, Number::Triad);
    assert_eq!(
        chord.notes(),
        vec![note(PitchClass::C, 4), note(PitchClass::F, 4), note(PitchClass::C, 5)]
    );
    chord.set_inversion(1);
    chord.invert(Inversion::BassNote(PitchClass::C));
    assert_eq!(chord.inversion(), 0);
}

#[test]
fn chord_inversion_from_str() {
    assert_eq!(Inversion::from_str("1"), Ok(Inversion::Number(1)));
    assert_eq!(Inversion::from_str("+12"), Ok(Inversion::Number(12)));
    assert_eq!(Inversion::from_str("255"), Ok(Inversion::Number(255)));
    assert_eq!(Inversion::from_str("0000255"), Ok(Inversion::Number(255)));
    assert_eq!(Inversion::from_str("256"), Err(ChordError::InversionFormat));
    assert_eq!(Inversion::from_str("99999999999999999999"), Err(ChordError::InversionFormat));
    assert_eq!(Inversion::from_str("+"), Err(ChordError::InversionFormat));
    assert_eq!(Inversion::from_str(""), Err(ChordError::InversionFormat));
    assert_eq!(Inversion::from_str("1x"), Err(ChordError::InversionFormat));
    assert_eq!(Inversion::from_str("C#"), Ok(Inversion::BassNote(PitchClass::Cs)));
    assert_eq!(Inversion::from_str("eb"), Ok(Inversion::BassNote(PitchClass::Ds)));
    assert_eq!(Inversion::number_from_str("42"), Some(42));
    assert_eq!(Inversion::number_from_str("4 2"), None);
    assert_eq!(Inversion::number_from_str("\u{664}"), None);
}

#[test]
fn chord_default_is_the_major_triad_on_c() {
    let chord = Chord::default();
    assert_eq!(chord.root(), PitchClass::C);
    assert_eq!(chord.octave(), 4);
    assert_eq!(chord.quality(), Quality::Major);
    assert_eq!(chord.number(), Number::Triad);
    assert_eq!(chord.inversion(), 0);
    assert_eq!(steps(&chord), vec![4, 3]);
    assert_eq!(
        chord.intervals(),
        &Chord::chord_intervals(Quality::Major, Number::Triad)
    );
    assert_eq!(
        chord.notes(),
        vec![note(PitchClass::C, 4), note(PitchClass::E, 4), note(PitchClass::G, 4)]
    );
    assert_eq!(chord.notes(), Chord::new(PitchClass::C, Quality::Major, Number::Triad).notes());
    let mut turned = chord.clone();
    turned.set_inversion(9);
    assert_eq!(turned.inversion(), 0);
    turned.set_inversion(4);
    assert_eq!(turned.inversion(), 1);
}

#[test]
fn chord_text_with_wide_characters_is_read() {
    assert_eq!(Chord::from_regex("C\u{266f}maj").unwrap().root(), PitchClass::Cs);
    assert_eq!(Chord::from_regex("E\u{266d} minor / G\u{266d}").unwrap().inversion(), 1);
    assert_eq!(
        Chord::from_regex("C \u{e9}t\u{e9} / 1").err(),
        Some(ChordError::QualityFromRegex)
    );
}

#[test]
fn chord_white_space_of_any_script_is_trimmed() {
    let chord = Chord::from_regex("C\u{a0}\u{3000}/\u{2003}1\u{a0}").unwrap();
    assert_eq!(chord.quality(), Quality::Major);
    assert_eq!(chord.inversion(), 1);
}

#[test]
fn chord_from_regex_answers_every_short_text() {
    let alphabet = ['C', 'b', '/', '1', ' ', 'm', '\u{266f}', '\u{e9}'];
    let mut texts: Vec<String> = vec![String::new()];
    let mut from = 0;
    for _ in 0..3 {
        let upto = texts.len();
        for i in from..upto {
            for letter in alphabet {
                let mut longer = texts[i].clone();
                longer.push(letter);
                texts.push(longer);
            }
        }
        from = upto;
    }
    assert_eq!(texts.len(), 1 + 8 + 64 + 512);
    let mut read = 0;
    for text in &texts {
        match Chord::from_regex(text) {
            Ok(chord) => {
                read += 1;
                let notes = chord.notes();
                assert_eq!(notes.len(), chord.intervals().len() + 1);
                assert!(text.starts_with('C') || text.starts_with('b'));
            }
            Err(ChordError::InvalidPitch) => {
                assert!(!text.starts_with('C') && !text.starts_with('b'));
            }
            Err(ChordError::QualityFromRegex) | Err(ChordError::InversionFormat) => {}
            Err(ChordError::NumberFromRegex) => panic!("{:?}", text),
        }
    }
    assert!(read > 0);
}

fn rotated_and_normalized(root: PitchClass, counts: &[u8], inversion: usize) -> Vec<Note> {
    let mut notes = vec![note(root, 4)];
    for count in counts {
        let last = notes[notes.len() - 1];
        let reached = last.pitch_class.to_u8() + count;
        let octave = if reached >= 12 { last.octave + 1 } else { last.octave };
        notes.push(note(PitchClass::from_u8(reached), octave));
    }
    notes.rotate_left(inversion);
    if notes[0].octave > 4 {
        let diff = notes[0].octave - 4;
        for n in notes.iter_mut() {
            n.octave -= diff;
        }
    }
    for i in 1..notes.len() {
        if notes[i].pitch_class.to_u8() <= notes[i - 1].pitch_class.to_u8() {
            notes[i].octave = notes[i - 1].octave + 1;
        } else if notes[i].octave < notes[i - 1].octave {
            notes[i].octave = notes[i - 1].octave;
        }
    }
    notes
}

#[test]
fn chord_notes_are_rotated_and_normalized() {
    for root in ROOTS {
        for quality in QUALITIES {
            for number in NUMBERS {
                let chord = Chord::new(root, quality, number);
                let counts = steps(&chord);
                for inversion in 0..=counts.len() {
                    let chord = Chord::with_inversion(root, quality, number, inversion as u8);
                    assert_eq!(
                        chord.notes(),
                        rotated_and_normalized(root, &counts, inversion),
                        "{:?} {:?} {:?} {}",
                        root,
                        quality,
                        number,
                        inversion
                    );
                }
            }
        }
    }
}

fn listed_as_white_space(c: char) -> bool {
    ('\u{9}'..='\u{d}').contains(&c)
        || c == ' '
        || c == '\u{85}'
        || c == '\u{a0}'
        || c == '\u{1680}'
        || ('\u{2000}'..='\u{200a}').contains(&c)
        || c == '\u{2028}'
        || c == '\u{2029}'
        || c == '\u{202f}'
        || c == '\u{205f}'
        || c == '\u{3000}'
}

#[test]
fn chord_trimming_removes_white_space_and_nothing_else() {
    let mut white = 0;
    for code in 0..=0x10ffffu32 {
        if let Some(c) = char::from_u32(code) {
            assert_eq!(c.is_whitespace(), listed_as_white_space(c), "{:x}", code);
            if listed_as_white_space(c) {
                white += 1;
            }
        }
    }
    assert_eq!(white, 25);

    let probes = [
        0x8u32, 0x9, 0xa, 0xb, 0xc, 0xd, 0xe, 0x1c, 0x1f, 0x20, 0x21, 0x84, 0x85, 0x86,
        0x9f, 0xa0, 0xa1, 0x167f, 0x1680, 0x1681, 0x180e, 0x1fff, 0x2000, 0x2005, 0x200a,
        0x200b, 0x2027, 0x2028, 0x2029, 0x202a, 0x202e, 0x202f, 0x2030, 0x205e, 0x205f, 0x2060,
        0x2fff, 0x3000, 0x3001, 0xfeff,
    ];
    for code in probes {
        let c = char::from_u32(code).unwrap();
        let after = Chord::from_regex(&format!("C/{}1{}", c, c));
        let before = Chord::from_regex(&format!("C{}/1", c));
        if listed_as_white_space(c) {
            assert_eq!(after.map(|chord| chord.inversion()), Ok(1), "{:x}", code);
            assert_eq!(before.map(|chord| chord.inversion()), Ok(1), "{:x}", code);
        } else {
            assert_eq!(after.err(), Some(ChordError::InversionFormat), "{:x}", code);
            assert_eq!(before.err(), Some(ChordError::QualityFromRegex), "{:x}", code);
        }
    }
}
