//! Spelled notes (letter, accidental, octave) and their link to MIDI numbers.

use vstd::prelude::*;
use vstd::string::*;
use crate::error::PitchyError;
use crate::midi::{midi_number, midi_octave, midi_result, midi_semitone, octave_of};
use crate::symbol::{letter_order, Accidental, NoteLetter};
use crate::text::{append_decimal, decimal_text};

verus! {

/// A note spelled with a letter, an accidental and an octave, e.g. `C#4`.
/// Any combination can be built; whether it names a MIDI note is decided when
/// it is converted.
#[derive(Debug, Clone, Copy, PartialEq, Eq, Structural)]
pub struct Note {
    pub letter: NoteLetter,
    pub accidental: Accidental,
    pub octave: i8,
}

/// The order in which accidentals are tried when spelling a semitone:
/// natural, sharp, flat, double sharp, double flat.
pub open spec fn accidental_priority() -> Seq<Accidental> {
    seq![Accidental::Natural, Accidental::Sharp, Accidental::Flat, Accidental::DoubleSharp, Accidental::DoubleFlat]
}

/// Whether `letter` with `accidental` lands on `semitone` (0..12 within the octave).
pub open spec fn spells(letter: NoteLetter, accidental: Accidental, semitone: int) -> bool {
    letter.semitone() + accidental.semitone() == semitone
}

/// The first spelling of `semitone` found from position (`a`, `l`) on: accidentals
/// in priority order, and for each accidental the letters from C to B.
pub open spec fn spelling_from(semitone: int, a: int, l: int) -> Option<(NoteLetter, Accidental)>
    decreases 5 - a, 7 - l,
{
    if a < 0 || l < 0 || a >= 5 {
        None
    } else if l >= 7 {
        spelling_from(semitone, a + 1, 0)
    } else if spells(letter_order()[l], accidental_priority()[a], semitone) {
        Some((letter_order()[l], accidental_priority()[a]))
    } else {
        spelling_from(semitone, a, l + 1)
    }
}

/// The preferred spelling of a semitone within the octave: the first
/// (letter, accidental) pair that reaches it, accidentals tried as natural, sharp,
/// flat, double sharp, double flat, and letters from C to B for each.
pub open spec fn spelling(semitone: int) -> Option<(NoteLetter, Accidental)> {
    spelling_from(semitone, 0, 0)
}

/// The sharp-biased name of a semitone within the octave:
/// C, C#, D, D#, E, F, F#, G, G#, A, A#, B.
pub open spec fn sharp_text(semitone: int) -> Seq<char> {
    if semitone == 0 { seq!['C'] }
    else if semitone == 1 { seq!['C', '#'] }
    else if semitone == 2 { seq!['D'] }
    else if semitone == 3 { seq!['D', '#'] }
    else if semitone == 4 { seq!['E'] }
    else if semitone == 5 { seq!['F'] }
    else if semitone == 6 { seq!['F', '#'] }
    else if semitone == 7 { seq!['G'] }
    else if semitone == 8 { seq!['G', '#'] }
    else if semitone == 9 { seq!['A'] }
    else if semitone == 10 { seq!['A', '#'] }
    else { seq!['B'] }
}

/// Every semitone of the octave has a spelling with a natural or a sharp, and
/// its text is the sharp-biased name: the double accidentals are never reached.
pub proof fn lemma_spelling_is_sharp_name(semitone: int)
    requires
        0 <= semitone < 12,
    ensures
        spelling(semitone) matches Some((l, a)) && spells(l, a, semitone)
            && (a == Accidental::Natural || a == Accidental::Sharp)
            && l.text() + a.text() == sharp_text(semitone),
{
    reveal_with_fuel(spelling_from, 20);
    assert(Accidental::Natural.text() =~= Seq::<char>::empty());
    let (l, a) = spelling(semitone).unwrap();
    assert(l.text() + a.text() =~= sharp_text(semitone));
}

impl Note {
    /// The MIDI value the note denotes, possibly outside 0..=127.
    pub open spec fn midi_value(self) -> int {
        (self.octave as int + 1) * 12 + self.letter.semitone() + self.accidental.semitone()
    }

    /// The note's name: letter, accidental, then the octave in decimal.
    pub open spec fn name_text(self) -> Seq<char> {
        self.letter.text() + self.accidental.text() + decimal_text(self.octave as int)
    }

    /// The note that MIDI number `midi` is spelled as, given `spelling(midi % 12)`.
    pub open spec fn spelled(midi: int) -> Result<Note, PitchyError> {
        match spelling(midi % 12) {
            Some((l, a)) => Ok(Note { letter: l, accidental: a, octave: octave_of(midi) as i8 }),
            None => Err(PitchyError::Unspelled),
        }
    }

    /// Creates a note. No range check is made here.
    pub fn new(letter: NoteLetter, accidental: Accidental, octave: i8) -> (r: Note)
        ensures
            r == (Note { letter, accidental, octave }),
    {
        Note { letter, accidental, octave }
    }

    /// The octave of the note; MIDI 0 is in octave -1.
    pub fn octave(&self) -> (r: i8)
        ensures
            r == self.octave,
    {
        self.octave
    }

    /// The letter of the note.
    pub fn letter(&self) -> (r: NoteLetter)
        ensures
            r == self.letter,
    {
        self.letter
    }

    /// The accidental of the note.
    pub fn accidental(&self) -> (r: Accidental)
        ensures
            r == self.accidental,
    {
        self.accidental
    }

    /// The name of the note, e.g. `A4`, `C#3`, `Bb-1`.
    pub fn name(&self) -> (r: String)
        ensures
            r@ == self.name_text(),
    {
        let mut out = String::from_str(self.letter.as_str());
        out.append(self.accidental.as_str());
        append_decimal(&mut out, self.octave as i32);
        assert(out@ =~= self.name_text());
        out
    }

    /// Spells MIDI number `midi`: octave `midi / 12 - 1`, and the first
    /// (letter, accidental) pair reaching `midi % 12` in the priority order of
    /// `spelling`. Fails with `OutOfMidiRange(127)` above 127.
    pub fn try_from_midi_number(midi: u8) -> (r: Result<Note, PitchyError>)
        ensures
            match midi_result(midi as int) {
                Ok(m) => r == Note::spelled(m as int),
                Err(e) => r == Err::<Note, PitchyError>(e),
            },
            midi <= 127 ==> (r matches Ok(n) && n.midi_value() == midi as int
                && n.name_text() == sharp_text(midi as int % 12) + decimal_text(octave_of(midi as int))),
    {
        let checked = midi_number(midi as i64);
        let m = match checked {
            Ok(m) => m,
            Err(e) => return Err(e),
        };
        let octave = midi_octave(m);
        let semitone = midi_semitone(m);
        proof {
            lemma_spelling_is_sharp_name(semitone as int);
        }
        let accidentals = [Accidental::Natural, Accidental::Sharp, Accidental::Flat, Accidental::DoubleSharp, Accidental::DoubleFlat];
        assert(accidentals@ =~= accidental_priority());
        let letters = NoteLetter::all();
        let mut i: usize = 0;
        while i < 5
            invariant
                0 <= i <= 5,
                accidentals@ == accidental_priority(),
                letters@ == letter_order(),
                m == midi,
                midi <= 127,
                semitone < 12,
                semitone as int == midi as int % 12,
                octave as int == octave_of(midi as int),
                spelling(semitone as int) matches Some((l, a)) && l.text() + a.text() == sharp_text(
                    semitone as int,
                ),
                spelling(semitone as int) == spelling_from(semitone as int, i as int, 0),
            decreases 5 - i,
        {
            let accidental = accidentals[i];
            let mut j: usize = 0;
            while j < 7
                invariant
                    0 <= i < 5,
                    0 <= j <= 7,
                    accidentals@ == accidental_priority(),
                    letters@ == letter_order(),
                    accidental == accidental_priority()[i as int],
                    m == midi,
                    midi <= 127,
                    semitone < 12,
                    semitone as int == midi as int % 12,
                    octave as int == octave_of(midi as int),
                    spelling(semitone as int) matches Some((l, a)) && l.text() + a.text() == sharp_text(
                        semitone as int,
                    ),
                    spelling(semitone as int) == spelling_from(semitone as int, i as int, j as int),
                decreases 7 - j,
            {
                let letter = letters[j];
                if letter.offset() + accidental.offset() == semitone as i8 {
                    let n = Note::new(letter, accidental, octave);
                    assert(n.name_text() =~= letter.text() + accidental.text() + decimal_text(octave as int));
                    return Ok(n);
                }
                j += 1;
            }
            i += 1;
        }
        Err(PitchyError::Unspelled)
    }

    /// The MIDI number the note denotes: `(octave + 1) * 12 + letter + accidental`.
    /// Fails with `OutOfMidiRange` carrying the nearest bound when that value lies
    /// outside 0..=127 (e.g. `Cb-1`, `A9`).
    pub fn try_midi_number(&self) -> (r: Result<u8, PitchyError>)
        ensures
            r == midi_result(self.midi_value()),
    {
        let v: i16 = (self.octave as i16 + 1) * 12 + self.letter.offset() as i16 + self.accidental.offset() as i16;
        midi_number(v as i64)
    }
}

/// The sharp-biased name of a semitone within the octave (0 is C, 11 is B),
/// without an octave.
pub fn sharp_name(semitone: u8) -> (r: &'static str)
    requires
        semitone < 12,
    ensures
        r@ == sharp_text(semitone as int),
{
    proof {
        reveal_strlit("C");
        reveal_strlit("C#");
        reveal_strlit("D");
        reveal_strlit("D#");
        reveal_strlit("E");
        reveal_strlit("F");
        reveal_strlit("F#");
        reveal_strlit("G");
        reveal_strlit("G#");
        reveal_strlit("A");
        reveal_strlit("A#");
        reveal_strlit("B");
    }
    match semitone {
        0 => "C",
        1 => "C#",
        2 => "D",
        3 => "D#",
        4 => "E",
        5 => "F",
        6 => "F#",
        7 => "G",
        8 => "G#",
        9 => "A",
        10 => "A#",
        _ => "B",
    }
}

} // verus!
