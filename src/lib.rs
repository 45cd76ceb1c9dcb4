//! Conversions between musical pitch representations: MIDI note numbers,
//! spelled notes (letter, accidental, octave) and note names such as `C#4`.
//!
//! The numeric core is integer only; frequencies in Hertz are handled by the
//! embedding application from the MIDI numbers produced here.

mod error;
mod laws;
mod midi;
mod note;
mod parse;
mod symbol;
mod text;

pub use error::{note_error_text, pitchy_error_text, NoteError, PitchyError};
pub use laws::{canonical_name, flat_text, lemma_enharmonic_names, lemma_name_round_trip, lemma_note_midi_round_trip};
pub use midi::{clamped_bound, midi_number, midi_octave, midi_result, midi_semitone, octave_of, MIDI_MAX};
pub use note::{
    accidental_priority, lemma_spelling_is_sharp_name, sharp_name, sharp_text, spelling, spelling_from,
    spells, Note,
};
pub use parse::{
    all_digits, digit_value, digits_value, is_digit, is_flat_sign, is_sharp_sign, letter_semitone,
    midi_from_name, name_to_midi, octave_start_from, octave_value, parse_name, pitch_class,
    starts_octave, trimmed,
};
pub use symbol::{letter_order, symbol_error_text, Accidental, NoteLetter, SymbolError};
pub use text::{append_decimal, decimal_text, digit_char, natural_text};
