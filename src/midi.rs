//! MIDI note numbers: the range rule and the octave / semitone split.

use vstd::prelude::*;
use crate::error::PitchyError;

verus! {

/// The highest MIDI note number.
pub const MIDI_MAX: u8 = 127;

/// The nearest MIDI bound to an out-of-range value.
pub open spec fn clamped_bound(v: int) -> u8 {
    if v < 0 { 0 } else { 127 }
}

/// `v` as a MIDI number when it lies in 0..=127; otherwise the range error
/// carrying the nearest bound.
pub open spec fn midi_result(v: int) -> Result<u8, PitchyError> {
    if 0 <= v <= 127 {
        Ok(v as u8)
    } else {
        Err(PitchyError::OutOfMidiRange(clamped_bound(v)))
    }
}

/// Octave of a MIDI number: octave -1 starts at MIDI 0.
pub open spec fn octave_of(midi: int) -> int {
    midi / 12 - 1
}

/// Accepts an integer pitch value as a MIDI number when it lies in 0..=127.
/// Outside that range the error carries the nearest bound (0 or 127).
pub fn midi_number(v: i64) -> (r: Result<u8, PitchyError>)
    ensures
        r == midi_result(v as int),
{
    if v < 0 {
        Err(PitchyError::OutOfMidiRange(0))
    } else if v > MIDI_MAX as i64 {
        Err(PitchyError::OutOfMidiRange(MIDI_MAX))
    } else {
        Ok(v as u8)
    }
}

/// Octave of a MIDI number (`midi / 12 - 1`); MIDI 0 is in octave -1.
pub fn midi_octave(midi: u8) -> (r: i8)
    ensures
        r as int == octave_of(midi as int),
{
    (midi / 12) as i8 - 1
}

/// Semitone of a MIDI number within its octave, counted from C.
pub fn midi_semitone(midi: u8) -> (r: u8)
    ensures
        r as int == midi as int % 12,
        r < 12,
{
    midi % 12
}

} // verus!
