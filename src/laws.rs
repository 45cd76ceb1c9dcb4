//! Laws that relate parsing, spelling and naming.

use vstd::prelude::*;
use crate::error::PitchyError;
use crate::midi::{midi_result, octave_of};
use crate::note::{lemma_spelling_is_sharp_name, sharp_text, spelling, Note};
use crate::parse::{all_digits, digits_value, name_to_midi, octave_start_from, octave_value, pitch_class, starts_octave};
use crate::text::{decimal_text, digit_char, natural_text};

verus! {

/// The sharp-spelled name of MIDI number `m`: its sharp-biased pitch-class name
/// followed by its octave, e.g. `C-1` for 0, `A#4` for 70, `G9` for 127.
pub open spec fn canonical_name(m: int) -> Seq<char> {
    sharp_text(m % 12) + decimal_text(octave_of(m))
}

proof fn lemma_octave_text(o: int)
    requires
        -1 <= o <= 9,
    ensures
        octave_value(decimal_text(o)) == Some(o),
        starts_octave(decimal_text(o)[0]),
        1 <= decimal_text(o).len() <= 2,
{
    reveal_with_fuel(natural_text, 2);
    reveal_with_fuel(digits_value, 2);
    if o == -1 {
        assert(decimal_text(o) =~= seq!['-', '1']);
        assert(decimal_text(o).drop_first() =~= seq!['1']);
        assert(seq!['1'].drop_last() =~= Seq::<char>::empty());
        assert(all_digits(seq!['1']));
    } else {
        assert(decimal_text(o) =~= seq![digit_char(o)]);
        assert(seq![digit_char(o)].drop_last() =~= Seq::<char>::empty());
        assert(all_digits(seq![digit_char(o)]));
    }
}

proof fn lemma_note_part(s: int)
    requires
        0 <= s < 12,
    ensures
        pitch_class(sharp_text(s)) == Some(s),
        1 <= sharp_text(s).len() <= 2,
        forall|i: int| 0 <= i < sharp_text(s).len() ==> !starts_octave(#[trigger] sharp_text(s)[i]),
{
}

/// Parsing a note name and spelling the MIDI number it denotes give the name back,
/// for each of the 128 sharp-spelled names `C-1`, `C#-1`, ..., `G9`.
pub proof fn lemma_name_round_trip(m: int)
    requires
        0 <= m <= 127,
    ensures
        name_to_midi(canonical_name(m)) == Ok::<u8, PitchyError>(m as u8),
        Note::spelled(m) matches Ok(n) && n.name_text() == canonical_name(m),
{
    let s = m % 12;
    let o = octave_of(m);
    let p = sharp_text(s);
    let d = decimal_text(o);
    let name = canonical_name(m);
    lemma_octave_text(o);
    lemma_note_part(s);
    assert(name =~= p + d);
    assert(name.subrange(0, p.len() as int) =~= p);
    assert(name.subrange(p.len() as int, name.len() as int) =~= d);
    reveal_with_fuel(octave_start_from, 3);
    assert(octave_start_from(name, 0) == Some(p.len() as int));
    assert((o + 1) * 12 + s == m);
    lemma_spelling_is_sharp_name(s);
    let (l, a) = spelling(s).unwrap();
    let n = Note { letter: l, accidental: a, octave: o as i8 };
    assert(n.name_text() =~= name);
}

/// Spelling a MIDI number and converting the spelled note back gives the same
/// MIDI number, for every number in 0..=127.
pub proof fn lemma_note_midi_round_trip(m: int)
    requires
        0 <= m <= 127,
    ensures
        Note::spelled(m) matches Ok(n) && midi_result(n.midi_value()) == Ok::<u8, PitchyError>(m as u8),
{
    lemma_spelling_is_sharp_name(m % 12);
}

/// The flat spelling of the five black-key semitones: Db, Eb, Gb, Ab, Bb.
pub open spec fn flat_text(semitone: int) -> Seq<char> {
    if semitone == 1 { seq!['D', 'b'] }
    else if semitone == 3 { seq!['E', 'b'] }
    else if semitone == 6 { seq!['G', 'b'] }
    else if semitone == 8 { seq!['A', 'b'] }
    else { seq!['B', 'b'] }
}

proof fn lemma_same_octave_start(x: Seq<char>, y: Seq<char>, i: int)
    requires
        x.len() == y.len(),
        0 <= i,
        forall|j: int| 0 <= j < x.len() ==> starts_octave(#[trigger] x[j]) == starts_octave(y[j]),
    ensures
        octave_start_from(x, i) == octave_start_from(y, i),
    decreases x.len() - i,
{
    if i < x.len() {
        lemma_same_octave_start(x, y, i + 1);
    }
}

proof fn lemma_octave_start_bounds(s: Seq<char>, i: int)
    requires
        0 <= i,
    ensures
        octave_start_from(s, i) matches Some(k) ==> i <= k < s.len(),
    decreases s.len() - i,
{
    if i < s.len() {
        lemma_octave_start_bounds(s, i + 1);
    }
}

/// Enharmonic names denote the same MIDI number, or fail alike: a sharp name
/// (C#, D#, F#, G#, A#) and the flat name of the same key (Db, Eb, Gb, Ab, Bb),
/// followed by the same octave text `d`.
pub proof fn lemma_enharmonic_names(semitone: int, d: Seq<char>)
    requires
        semitone == 1 || semitone == 3 || semitone == 6 || semitone == 8 || semitone == 10,
    ensures
        name_to_midi(sharp_text(semitone) + d) == name_to_midi(flat_text(semitone) + d),
{
    let x = sharp_text(semitone) + d;
    let y = flat_text(semitone) + d;
    assert forall|j: int| 0 <= j < x.len() implies starts_octave(#[trigger] x[j]) == starts_octave(y[j]) by {
        if j >= 2 {
            assert(x[j] == d[j - 2]);
            assert(y[j] == d[j - 2]);
        }
    }
    lemma_same_octave_start(x, y, 0);
    lemma_octave_start_bounds(x, 2);
    reveal_with_fuel(octave_start_from, 3);
    assert(octave_start_from(x, 0) == octave_start_from(x, 2));
    match octave_start_from(x, 0) {
        Some(k) => {
            assert(x.subrange(k, x.len() as int) =~= y.subrange(k, y.len() as int));
            if k == 2 {
                assert(x.subrange(0, k) =~= sharp_text(semitone));
                assert(y.subrange(0, k) =~= flat_text(semitone));
            }
        },
        None => {},
    }
}

} // verus!
