use pitchy::{midi_from_name, midi_number, parse_name, Accidental, Note, NoteError, NoteLetter, PitchyError, SymbolError};

#[test]
fn reference_names() {
    assert_eq!(parse_name("A4"), Ok(69));
    assert_eq!(parse_name("C#-1"), Ok(1));
    assert_eq!(parse_name("G9"), Ok(127));
    assert_eq!(parse_name("C-1"), Ok(0));
    assert_eq!(parse_name("C4"), Ok(60));
}

#[test]
fn case_and_sign_variants() {
    assert_eq!(parse_name("a4"), Ok(69));
    assert_eq!(parse_name("db4"), Ok(61));
    assert_eq!(parse_name("DB4"), Ok(61));
    assert_eq!(parse_name("A\u{266F}4"), Ok(70));
    assert_eq!(parse_name("B\u{266D}4"), Ok(70));
    assert_eq!(parse_name("bb4"), Ok(70));
    assert_eq!(parse_name("Eb-1"), Ok(3));
}

#[test]
fn invalid_names() {
    assert_eq!(parse_name("H#4"), Err(PitchyError::InvalidName));
    assert_eq!(parse_name("X4"), Err(PitchyError::InvalidName));
    assert_eq!(parse_name("E#4"), Err(PitchyError::InvalidName));
    assert_eq!(parse_name("Cb4"), Err(PitchyError::InvalidName));
    assert_eq!(parse_name("C##4"), Err(PitchyError::InvalidName));
    assert_eq!(parse_name("-1"), Err(PitchyError::InvalidName));
    // a single character is outside the accepted length of 2 to 4
    assert_eq!(parse_name("C"), Err(PitchyError::InvalidName));
    assert_eq!(parse_name(""), Err(PitchyError::InvalidName));
    assert_eq!(parse_name("C#4xx"), Err(PitchyError::InvalidName));
}

#[test]
fn invalid_octaves() {
    assert_eq!(parse_name("C4x"), Err(PitchyError::InvalidOctave));
    assert_eq!(parse_name("C#"), Err(PitchyError::InvalidOctave));
    assert_eq!(parse_name("C-"), Err(PitchyError::InvalidOctave));
    assert_eq!(parse_name("C999"), Err(PitchyError::InvalidOctave));
    assert_eq!(parse_name("C--1"), Err(PitchyError::InvalidOctave));
}

#[test]
fn names_out_of_range() {
    assert_eq!(parse_name("G#9"), Err(PitchyError::OutOfMidiRange(127)));
    assert_eq!(parse_name("C10"), Err(PitchyError::OutOfMidiRange(127)));
    assert_eq!(parse_name("B-2"), Err(PitchyError::OutOfMidiRange(0)));
    assert_eq!(parse_name("C-99"), Err(PitchyError::OutOfMidiRange(0)));
    assert_eq!(midi_from_name("C127"), Err(PitchyError::OutOfMidiRange(127)));
}

#[test]
fn midi_boundaries() {
    assert_eq!(midi_number(0), Ok(0));
    assert_eq!(midi_number(127), Ok(127));
    assert_eq!(midi_number(128), Err(PitchyError::OutOfMidiRange(127)));
    assert_eq!(midi_number(-1), Err(PitchyError::OutOfMidiRange(0)));
    assert_eq!(midi_number(i64::MIN), Err(PitchyError::OutOfMidiRange(0)));
    assert_eq!(Note::try_from_midi_number(128), Err(PitchyError::OutOfMidiRange(127)));
    assert_eq!(Note::try_from_midi_number(255), Err(PitchyError::OutOfMidiRange(127)));
}

#[test]
fn note_to_midi() {
    assert_eq!(Note::new(NoteLetter::A, Accidental::Natural, 4).try_midi_number(), Ok(69));
    assert_eq!(Note::new(NoteLetter::B, Accidental::Sharp, 4).try_midi_number(), Ok(72));
    assert_eq!(Note::new(NoteLetter::C, Accidental::Flat, 4).try_midi_number(), Ok(59));
    assert_eq!(Note::new(NoteLetter::D, Accidental::DoubleFlat, 4).try_midi_number(), Ok(60));
    assert_eq!(Note::new(NoteLetter::C, Accidental::Flat, -1).try_midi_number(), Err(PitchyError::OutOfMidiRange(0)));
    assert_eq!(Note::new(NoteLetter::G, Accidental::DoubleSharp, 9).try_midi_number(), Err(PitchyError::OutOfMidiRange(127)));
    assert_eq!(Note::new(NoteLetter::B, Accidental::DoubleSharp, 127).try_midi_number(), Err(PitchyError::OutOfMidiRange(127)));
    assert_eq!(Note::new(NoteLetter::C, Accidental::DoubleFlat, -128).try_midi_number(), Err(PitchyError::OutOfMidiRange(0)));
}

#[test]
fn note_names() {
    assert_eq!(Note::new(NoteLetter::B, Accidental::Flat, -1).name(), "Bb-1");
    assert_eq!(Note::new(NoteLetter::F, Accidental::DoubleSharp, 12).name(), "F\u{1D12A}12");
    assert_eq!(Note::new(NoteLetter::E, Accidental::DoubleFlat, -128).name(), "E\u{1D12B}-128");
    assert_eq!(Note::new(NoteLetter::G, Accidental::Natural, 127).name(), "G127");
}

#[test]
fn symbols() {
    assert_eq!(
        NoteLetter::all(),
        [NoteLetter::C, NoteLetter::D, NoteLetter::E, NoteLetter::F, NoteLetter::G, NoteLetter::A, NoteLetter::B]
    );
    assert_eq!(NoteLetter::A.as_str(), "A");
    assert_eq!(NoteLetter::B.offset(), 11);
    assert_eq!(Accidental::Natural.as_str(), "");
    assert_eq!(Accidental::Sharp.as_str(), "#");
    assert_eq!(Accidental::Flat.as_str(), "b");
    assert_eq!(Accidental::DoubleSharp.as_str(), "\u{1D12A}");
    assert_eq!(Accidental::DoubleFlat.as_str(), "\u{1D12B}");
    assert_eq!(Accidental::DoubleFlat.offset(), -2);
}

#[test]
fn accidental_from_offset() {
    assert_eq!(Accidental::try_from(-2i8), Ok(Accidental::DoubleFlat));
    assert_eq!(Accidental::try_from(0i8), Ok(Accidental::Natural));
    assert_eq!(Accidental::try_from(2i8), Ok(Accidental::DoubleSharp));
    assert_eq!(Accidental::try_from(3i8), Err(SymbolError::InvalidAccidental(3)));
    assert_eq!(Accidental::from_offset(-3), Err(SymbolError::InvalidAccidental(-3)));
}

#[test]
fn error_messages() {
    assert_eq!(
        PitchyError::OutOfMidiRange(127).message(),
        "The computed MIDI note 127 is outside the valid 0-127 range"
    );
    assert_eq!(PitchyError::OutOfMidiRange(0).message(), "The computed MIDI note 0 is outside the valid 0-127 range");
    assert_eq!(PitchyError::InvalidName.message(), "The note name is invalid or unrecognized");
    assert_eq!(PitchyError::Unspelled.message(), "The pitch could not be spelled as a standard letter and accidental");
    assert_eq!(NoteError::InvalidOctave.message(), "The octave portion could not be parsed");
    assert_eq!(SymbolError::InvalidAccidental(-5).message(), "invalid semitone offset for accidental: -5");
    assert_eq!(SymbolError::InvalidAccidental(42).message(), "invalid semitone offset for accidental: 42");
}
