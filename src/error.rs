//! Errors of the conversions between names, notes and MIDI numbers.

use vstd::prelude::*;
use vstd::string::*;
use crate::text::{append_decimal, decimal_text};

verus! {

/// Failure of a conversion between note names, spelled notes, MIDI numbers
/// and pitches.
#[derive(Debug, Clone, Copy, PartialEq, Eq, Structural)]
pub enum PitchyError {
    /// The note part of a name is not one of the twelve accepted spellings,
    /// or the name has the wrong length.
    InvalidName,
    /// The octave part of a name is missing or not a signed integer.
    InvalidOctave,
    /// A MIDI number outside 0..=127 was computed or requested; the payload is
    /// the nearest bound (0 or 127), for display only.
    OutOfMidiRange(u8),
    /// Combining octave and semitone overflowed the integer type used.
    MidiOverflow,
    /// No letter and accidental spell the semitone.
    Unspelled,
}

/// Failure to build a spelled note.
#[derive(Debug, Clone, Copy, PartialEq, Eq, Structural)]
pub enum NoteError {
    OutOfMidiRange,
    InvalidOctave,
    InvalidName,
}

/// The description of a conversion error.
pub open spec fn pitchy_error_text(e: PitchyError) -> Seq<char> {
    match e {
        PitchyError::InvalidName => "The note name is invalid or unrecognized"@,
        PitchyError::InvalidOctave => "The octave portion could not be parsed"@,
        PitchyError::OutOfMidiRange(m) => "The computed MIDI note "@ + decimal_text(m as int)
            + " is outside the valid 0-127 range"@,
        PitchyError::MidiOverflow => "The MIDI note could not be computed due to numeric overflow"@,
        PitchyError::Unspelled => "The pitch could not be spelled as a standard letter and accidental"@,
    }
}

/// The description of a note error.
pub open spec fn note_error_text(e: NoteError) -> Seq<char> {
    match e {
        NoteError::InvalidName => "The note name is invalid or unrecognized"@,
        NoteError::InvalidOctave => "The octave portion could not be parsed"@,
        NoteError::OutOfMidiRange => "The computed MIDI note is outside the valid 0-127 range"@,
    }
}

impl PitchyError {
    /// A human-readable description of the error.
    pub fn message(&self) -> (r: String)
        ensures
            r@ == pitchy_error_text(*self),
    {
        match self {
            PitchyError::InvalidName => String::from_str("The note name is invalid or unrecognized"),
            PitchyError::InvalidOctave => String::from_str("The octave portion could not be parsed"),
            PitchyError::OutOfMidiRange(m) => {
                let mut out = String::from_str("The computed MIDI note ");
                append_decimal(&mut out, *m as i32);
                out.append(" is outside the valid 0-127 range");
                out
            },
            PitchyError::MidiOverflow => String::from_str(
                "The MIDI note could not be computed due to numeric overflow",
            ),
            PitchyError::Unspelled => String::from_str(
                "The pitch could not be spelled as a standard letter and accidental",
            ),
        }
    }
}

impl NoteError {
    /// A human-readable description of the error.
    pub fn message(&self) -> (r: String)
        ensures
            r@ == note_error_text(*self),
    {
        match self {
            NoteError::InvalidName => String::from_str("The note name is invalid or unrecognized"),
            NoteError::InvalidOctave => String::from_str("The octave portion could not be parsed"),
            NoteError::OutOfMidiRange => String::from_str(
                "The computed MIDI note is outside the valid 0-127 range",
            ),
        }
    }
}

} // verus!
