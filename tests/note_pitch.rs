use pitchy::{midi_from_name, midi_number, midi_octave, parse_name, sharp_name, Accidental, Note, NoteLetter};

const NOTE_DATASETS: [(u8, &str, i8); 6] = [
    (57, "A3", 3),
    (69, "A4", 4),
    (66, "F#4", 4),
    (34, "A#1", 1),
    (1, "C#-1", -1),
    (127, "G9", 9),
];

#[test]
fn test_try_from_pitch_to_note() {
    let cases: [(u8, NoteLetter, Accidental, i8, &str); 14] = [
        (0, NoteLetter::C, Accidental::Natural, -1, "C-1"),
        (60, NoteLetter::C, Accidental::Natural, 4, "C4"),
        (61, NoteLetter::C, Accidental::Sharp, 4, "C#4"),
        (62, NoteLetter::D, Accidental::Natural, 4, "D4"),
        (63, NoteLetter::D, Accidental::Sharp, 4, "D#4"),
        (64, NoteLetter::E, Accidental::Natural, 4, "E4"),
        (65, NoteLetter::F, Accidental::Natural, 4, "F4"),
        (66, NoteLetter::F, Accidental::Sharp, 4, "F#4"),
        (67, NoteLetter::G, Accidental::Natural, 4, "G4"),
        (68, NoteLetter::G, Accidental::Sharp, 4, "G#4"),
        (69, NoteLetter::A, Accidental::Natural, 4, "A4"),
        (70, NoteLetter::A, Accidental::Sharp, 4, "A#4"),
        (71, NoteLetter::B, Accidental::Natural, 4, "B4"),
        (72, NoteLetter::C, Accidental::Natural, 5, "C5"),
    ];

    for (midi, letter, accidental, octave, name) in cases {
        let note = Note::try_from_midi_number(midi).unwrap();
        assert_eq!(note.letter(), letter, "Wrong letter for MIDI {}", midi);
        assert_eq!(note.accidental(), accidental, "Wrong accidental for MIDI {}", midi);
        assert_eq!(note.octave(), octave, "Wrong octave for MIDI {}", midi);
        assert_eq!(note.name(), name, "Wrong name for MIDI {}", midi);
    }
}

#[test]
fn test_from_str() {
    for (midi, name, octave) in NOTE_DATASETS {
        let parsed = parse_name(name).unwrap();
        assert_eq!(midi, parsed);
        assert_eq!(octave, midi_octave(parsed));
    }
}

#[test]
fn test_enharmonic() {
    let datasets = [("C#4", "Db4"), ("G#5", "Ab5"), ("F#6", "Gb6")];

    for (sharp_str, flat_str) in datasets {
        let sharp = parse_name(sharp_str).unwrap();
        let flat = parse_name(flat_str).unwrap();
        assert_eq!(sharp, flat);
    }
}

#[test]
fn test_try_from_midi_number() {
    for (midi, _name, octave) in NOTE_DATASETS {
        assert_eq!(midi_number(midi as i64), Ok(midi));
        assert_eq!(octave, midi_octave(midi));
        let note = Note::try_from_midi_number(midi).unwrap();
        assert_eq!(note.octave(), octave);
        assert_eq!(note.try_midi_number(), Ok(midi));
    }
}

#[test]
fn test_pitch_note_midi_roundtrip() {
    for midi in 0u8..=127 {
        let note = Note::try_from_midi_number(midi).unwrap();
        let back = note.try_midi_number().unwrap();
        assert_eq!(back, midi, "Mismatch at MIDI {}: {}", midi, note.name());
    }
}

#[test]
fn test_pitch_note_from_str_roundtrip() {
    let sharp_names = ["C", "C#", "D", "D#", "E", "F", "F#", "G", "G#", "A", "A#", "B"];
    let mut midi = 0u8;

    'outer: for octave in -1..=9 {
        for name in sharp_names {
            let written = format!("{name}{octave}");

            let parsed = parse_name(&written).unwrap();
            let note = Note::try_from_midi_number(parsed).unwrap();
            assert_eq!(note.name(), written);
            assert_eq!(parsed, midi, "MIDI mismatch for {written}: expected {midi}, got {parsed}");

            if midi >= 127 {
                assert_eq!(written, "G9");
                break 'outer;
            }
            midi += 1;
        }
    }

    assert_eq!(midi, 127, "Expected to test all 128 (0-127) MIDI notes");
}

#[test]
fn sharp_table_matches_spelling() {
    for semitone in 0u8..12 {
        let note = Note::try_from_midi_number(60 + semitone).unwrap();
        let spelled = format!("{}{}", note.letter().as_str(), note.accidental().as_str());
        assert_eq!(spelled, sharp_name(semitone));
    }
    assert_eq!(sharp_name(1), "C#");
    assert_eq!(sharp_name(11), "B");
}

#[test]
fn midi_from_name_does_not_trim() {
    assert_eq!(midi_from_name("A4"), Ok(69));
    assert_eq!(parse_name(" A4 "), Ok(69));
    assert_eq!(parse_name("\tC#4\n"), Ok(61));
    assert!(midi_from_name(" A4 ").is_err());
}
