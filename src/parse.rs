//! Parsing of note names such as `C#4`, `db-1` or `A♯3` into MIDI numbers.

use vstd::prelude::*;
use vstd::string::*;
use crate::error::PitchyError;
use crate::midi::{midi_number, midi_result};

verus! {

/// Whether `c` begins the octave part of a name: a decimal digit or `-`.
pub open spec fn starts_octave(c: char) -> bool {
    ('0' <= c && c <= '9') || c == '-'
}

/// Index of the first character at or after `i` that begins the octave part.
pub open spec fn octave_start_from(s: Seq<char>, i: int) -> Option<int>
    decreases s.len() - i,
{
    if i < 0 || i >= s.len() {
        None
    } else if starts_octave(s[i]) {
        Some(i)
    } else {
        octave_start_from(s, i + 1)
    }
}

/// Whether `c` is an ASCII decimal digit.
pub open spec fn is_digit(c: char) -> bool {
    '0' <= c && c <= '9'
}

/// The value of a decimal digit character.
pub open spec fn digit_value(c: char) -> int {
    c as int - '0' as int
}

/// The value of a sequence of decimal digits, most significant first.
pub open spec fn digits_value(t: Seq<char>) -> int
    decreases t.len(),
{
    if t.len() == 0 {
        0
    } else {
        digits_value(t.drop_last()) * 10 + digit_value(t.last())
    }
}

/// Whether `t` is a non-empty run of decimal digits.
pub open spec fn all_digits(t: Seq<char>) -> bool {
    t.len() > 0 && forall|i: int| 0 <= i < t.len() ==> is_digit(#[trigger] t[i])
}

/// The octave written by `t`: an optional `-` followed by decimal digits, whose
/// value lies in the range of `i8`.
pub open spec fn octave_value(t: Seq<char>) -> Option<int> {
    if t.len() > 0 && t[0] == '-' {
        let d = t.drop_first();
        if all_digits(d) && digits_value(d) <= 128 {
            Some(-digits_value(d))
        } else {
            None
        }
    } else if all_digits(t) && digits_value(t) <= 127 {
        Some(digits_value(t))
    } else {
        None
    }
}

/// Semitone above C of a letter, upper or lower case.
pub open spec fn letter_semitone(c: char) -> Option<int> {
    if c == 'C' || c == 'c' { Some(0) }
    else if c == 'D' || c == 'd' { Some(2) }
    else if c == 'E' || c == 'e' { Some(4) }
    else if c == 'F' || c == 'f' { Some(5) }
    else if c == 'G' || c == 'g' { Some(7) }
    else if c == 'A' || c == 'a' { Some(9) }
    else if c == 'B' || c == 'b' { Some(11) }
    else { None }
}

/// A sharp sign: `#` or `♯`.
pub open spec fn is_sharp_sign(c: char) -> bool {
    c == '#' || c == '\u{266F}'
}

/// A flat sign: `b` (either case) or `♭`.
pub open spec fn is_flat_sign(c: char) -> bool {
    c == 'b' || c == 'B' || c == '\u{266D}'
}

/// The semitone (0..12) of a note part, matched without regard to case against the
/// twelve spellings C, C#/Db, D, D#/Eb, E, F, F#/Gb, G, G#/Ab, A, A#/Bb, B.
pub open spec fn pitch_class(p: Seq<char>) -> Option<int> {
    if p.len() == 1 {
        letter_semitone(p[0])
    } else if p.len() == 2 {
        match letter_semitone(p[0]) {
            Some(b) => if is_sharp_sign(p[1]) && (b == 0 || b == 2 || b == 5 || b == 7 || b == 9) {
                Some(b + 1)
            } else if is_flat_sign(p[1]) && (b == 2 || b == 4 || b == 7 || b == 9 || b == 11) {
                Some(b - 1)
            } else {
                None
            },
            None => None,
        }
    } else {
        None
    }
}

/// The MIDI number a note name denotes, or why it denotes none. The name has
/// 2 to 4 characters; it splits before its first digit or `-` into a note part
/// and an octave part; the octave part is read first, then the note part; the
/// MIDI number is `(octave + 1) * 12 + semitone`, which must lie in 0..=127.
pub open spec fn name_to_midi(s: Seq<char>) -> Result<u8, PitchyError> {
    if s.len() < 2 || s.len() > 4 {
        Err(PitchyError::InvalidName)
    } else {
        match octave_start_from(s, 0) {
            None => Err(PitchyError::InvalidOctave),
            Some(k) => match octave_value(s.subrange(k, s.len() as int)) {
                None => Err(PitchyError::InvalidOctave),
                Some(o) => match pitch_class(s.subrange(0, k)) {
                    None => Err(PitchyError::InvalidName),
                    Some(c) => midi_result((o + 1) * 12 + c),
                },
            },
        }
    }
}

/// Powers of ten.
pub open spec fn pow10(n: nat) -> int
    decreases n,
{
    if n == 0 { 1 } else { 10 * pow10((n - 1) as nat) }
}

fn is_octave_start(c: char) -> (r: bool)
    ensures
        r == starts_octave(c),
{
    ('0' <= c && c <= '9') || c == '-'
}

/// Reads an octave: an optional `-` and decimal digits, in the range of `i8`.
fn parse_octave(t: &str) -> (r: Option<i8>)
    requires
        t@.len() <= 4,
    ensures
        match octave_value(t@) {
            Some(v) => r matches Some(o) && o as int == v,
            None => r is None,
        },
{
    let len = t.unicode_len();
    if len == 0 {
        return None;
    }
    let negative = t.get_char(0) == '-';
    let start: usize = if negative { 1 } else { 0 };
    if start == len {
        return None;
    }
    let ghost d = t@.subrange(start as int, len as int);
    assert(negative ==> d =~= t@.drop_first());
    assert(!negative ==> d =~= t@);
    let mut value: i32 = 0;
    let mut i: usize = start;
    while i < len
        invariant
            start <= i <= len,
            len == t@.len(),
            len <= 4,
            start < len,
            negative == (t@[0] == '-'),
            start == (if negative { 1usize } else { 0usize }),
            negative ==> d =~= t@.drop_first(),
            !negative ==> d =~= t@,
            d == t@.subrange(start as int, len as int),
            forall|j: int| start <= j < i ==> is_digit(#[trigger] t@[j]),
            value as int == digits_value(t@.subrange(start as int, i as int)),
            0 <= value < pow10((i - start) as nat),
        decreases len - i,
    {
        let c = t.get_char(i);
        if !('0' <= c && c <= '9') {
            assert(d[i - start] == c);
            return None;
        }
        proof {
            reveal_with_fuel(pow10, 5);
            let next = t@.subrange(start as int, i + 1);
            assert(next.drop_last() =~= t@.subrange(start as int, i as int));
        }
        value = value * 10 + (c as u32 - '0' as u32) as i32;
        i += 1;
    }
    assert(t@.subrange(start as int, len as int) =~= d);
    assert(all_digits(d));
    if negative {
        if value <= 128 {
            Some((-value) as i8)
        } else {
            None
        }
    } else if value <= 127 {
        Some(value as i8)
    } else {
        None
    }
}

/// Reads the semitone of a note part, ignoring case.
fn parse_pitch_class(p: &str) -> (r: Option<u8>)
    ensures
        match pitch_class(p@) {
            Some(c) => r matches Some(x) && x as int == c,
            None => r is None,
        },
{
    let len = p.unicode_len();
    if len == 0 || len > 2 {
        return None;
    }
    let l = p.get_char(0);
    let base: u8 = if l == 'C' || l == 'c' {
        0
    } else if l == 'D' || l == 'd' {
        2
    } else if l == 'E' || l == 'e' {
        4
    } else if l == 'F' || l == 'f' {
        5
    } else if l == 'G' || l == 'g' {
        7
    } else if l == 'A' || l == 'a' {
        9
    } else if l == 'B' || l == 'b' {
        11
    } else {
        return None;
    };
    if len == 1 {
        return Some(base);
    }
    let sign = p.get_char(1);
    if (sign == '#' || sign == '\u{266F}') && (base == 0 || base == 2 || base == 5 || base == 7 || base == 9) {
        Some(base + 1)
    } else if (sign == 'b' || sign == 'B' || sign == '\u{266D}') && (base == 2 || base == 4 || base == 7 || base == 9
        || base == 11) {
        Some(base - 1)
    } else {
        None
    }
}

/// The MIDI number of a note name such as `C#4`, `Db4`, `a4` or `C#-1`.
///
/// The name has 2 to 4 characters; before its first digit or `-` stands one of
/// the twelve spellings C, C#/Db, ..., A#/Bb, B in either case (`♯` and `♭` may
/// stand for `#` and `b`), after it an octave in the range of `i8`. Fails with
/// `InvalidName` on a bad length or note part, `InvalidOctave` on a missing or
/// malformed octave, and `OutOfMidiRange` (nearest bound) when
/// `(octave + 1) * 12 + semitone` lies outside 0..=127. The combination is
/// computed with checked arithmetic; with an `i8` octave it never overflows.
pub fn midi_from_name(text: &str) -> (r: Result<u8, PitchyError>)
    ensures
        r == name_to_midi(text@),
        r != Err::<u8, PitchyError>(PitchyError::MidiOverflow),
{
    let len = text.unicode_len();
    if len < 2 || len > 4 {
        return Err(PitchyError::InvalidName);
    }
    let mut k: usize = 0;
    loop
        invariant
            k <= len,
            2 <= len <= 4,
            len == text@.len(),
            octave_start_from(text@, 0) == octave_start_from(text@, k as int),
        ensures
            k < len,
            2 <= len <= 4,
            len == text@.len(),
            octave_start_from(text@, 0) == Some(k as int),
        decreases len - k,
    {
        if k == len {
            return Err(PitchyError::InvalidOctave);
        }
        if is_octave_start(text.get_char(k)) {
            break;
        }
        k += 1;
    }
    let note_part = text.substring_char(0, k);
    let octave_part = text.substring_char(k, len);
    let octave = match parse_octave(octave_part) {
        Some(o) => o,
        None => return Err(PitchyError::InvalidOctave),
    };
    let semitone = match parse_pitch_class(note_part) {
        Some(c) => c,
        None => return Err(PitchyError::InvalidName),
    };
    let midi = match (octave as i16).checked_add(1) {
        Some(v) => match v.checked_mul(12) {
            Some(w) => w.checked_add(semitone as i16),
            None => None,
        },
        None => None,
    };
    match midi {
        Some(m) => midi_number(m as i64),
        None => Err(PitchyError::MidiOverflow),
    }
}

/// Text with leading and trailing whitespace removed, as `str::trim` gives it.
pub uninterp spec fn trimmed(s: Seq<char>) -> Seq<char>;

/// Relies on `str::trim`: removes leading and trailing whitespace; the result
/// depends on the text alone.
#[verifier::external_body]
fn trim_text(text: &str) -> (r: &str)
    ensures
        r@ == trimmed(text@),
{
    text.trim()
}

/// The MIDI number of a note name, after surrounding whitespace is removed;
/// see `midi_from_name` for the rules that apply to the trimmed text.
pub fn parse_name(text: &str) -> (r: Result<u8, PitchyError>)
    ensures
        r == name_to_midi(trimmed(text@)),
{
    let t = trim_text(text);
    midi_from_name(t)
}

} // verus!
