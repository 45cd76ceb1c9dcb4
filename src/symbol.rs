//! Note letters and accidentals: the spelled parts of a note.

use vstd::prelude::*;
use vstd::string::*;
use crate::text::{append_decimal, decimal_text};

verus! {

/// The base letter of a note. Each letter stands for a fixed semitone above C:
/// C=0, D=2, E=4, F=5, G=7, A=9, B=11.
#[derive(Debug, Clone, Copy, PartialEq, Eq, Hash, Structural)]
pub enum NoteLetter {
    C,
    D,
    E,
    F,
    G,
    A,
    B,
}

/// A signed adjustment of a letter, in semitones:
/// double flat -2, flat -1, natural 0, sharp +1, double sharp +2.
#[derive(Debug, Clone, Copy, PartialEq, Eq, Hash, Structural)]
pub enum Accidental {
    DoubleFlat,
    Flat,
    Natural,
    Sharp,
    DoubleSharp,
}

/// Failure to interpret a symbol component.
#[derive(Debug, Clone, Copy, PartialEq, Eq, Structural)]
pub enum SymbolError {
    /// The semitone offset does not correspond to any accidental.
    InvalidAccidental(i8),
}

/// The seven letters in ascending order, C first.
pub open spec fn letter_order() -> Seq<NoteLetter> {
    seq![NoteLetter::C, NoteLetter::D, NoteLetter::E, NoteLetter::F, NoteLetter::G, NoteLetter::A, NoteLetter::B]
}

impl NoteLetter {
    /// Semitones above C.
    pub open spec fn semitone(self) -> int {
        match self {
            NoteLetter::C => 0,
            NoteLetter::D => 2,
            NoteLetter::E => 4,
            NoteLetter::F => 5,
            NoteLetter::G => 7,
            NoteLetter::A => 9,
            NoteLetter::B => 11,
        }
    }

    /// The letter as text: one upper-case character.
    pub open spec fn text(self) -> Seq<char> {
        match self {
            NoteLetter::C => seq!['C'],
            NoteLetter::D => seq!['D'],
            NoteLetter::E => seq!['E'],
            NoteLetter::F => seq!['F'],
            NoteLetter::G => seq!['G'],
            NoteLetter::A => seq!['A'],
            NoteLetter::B => seq!['B'],
        }
    }

    /// All seven letters, C, D, E, F, G, A, B, in that order.
    pub fn all() -> (r: [NoteLetter; 7])
        ensures
            r@ == letter_order(),
    {
        let r = [NoteLetter::C, NoteLetter::D, NoteLetter::E, NoteLetter::F, NoteLetter::G, NoteLetter::A, NoteLetter::B];
        assert(r@ =~= letter_order());
        r
    }

    /// Semitones above C.
    pub fn offset(&self) -> (r: i8)
        ensures
            r as int == self.semitone(),
    {
        match self {
            NoteLetter::C => 0,
            NoteLetter::D => 2,
            NoteLetter::E => 4,
            NoteLetter::F => 5,
            NoteLetter::G => 7,
            NoteLetter::A => 9,
            NoteLetter::B => 11,
        }
    }

    /// The letter as text.
    pub fn as_str(&self) -> (r: &'static str)
        ensures
            r@ == self.text(),
    {
        proof {
            reveal_strlit("C");
            reveal_strlit("D");
            reveal_strlit("E");
            reveal_strlit("F");
            reveal_strlit("G");
            reveal_strlit("A");
            reveal_strlit("B");
        }
        match self {
            NoteLetter::C => "C",
            NoteLetter::D => "D",
            NoteLetter::E => "E",
            NoteLetter::F => "F",
            NoteLetter::G => "G",
            NoteLetter::A => "A",
            NoteLetter::B => "B",
        }
    }
}

impl Accidental {
    /// Signed semitone adjustment.
    pub open spec fn semitone(self) -> int {
        match self {
            Accidental::DoubleFlat => -2,
            Accidental::Flat => -1,
            Accidental::Natural => 0,
            Accidental::Sharp => 1,
            Accidental::DoubleSharp => 2,
        }
    }

    /// The accidental as text: empty for natural, `#` for sharp, `b` for flat,
    /// and the musical double sharp and double flat signs.
    pub open spec fn text(self) -> Seq<char> {
        match self {
            Accidental::DoubleFlat => seq!['\u{1D12B}'],
            Accidental::Flat => seq!['b'],
            Accidental::Natural => Seq::empty(),
            Accidental::Sharp => seq!['#'],
            Accidental::DoubleSharp => seq!['\u{1D12A}'],
        }
    }

    /// The accidental whose adjustment is `v`, if there is one.
    pub open spec fn from_semitone(v: int) -> Option<Accidental> {
        if v == -2 {
            Some(Accidental::DoubleFlat)
        } else if v == -1 {
            Some(Accidental::Flat)
        } else if v == 0 {
            Some(Accidental::Natural)
        } else if v == 1 {
            Some(Accidental::Sharp)
        } else if v == 2 {
            Some(Accidental::DoubleSharp)
        } else {
            None
        }
    }

    /// Signed semitone adjustment.
    pub fn offset(&self) -> (r: i8)
        ensures
            r as int == self.semitone(),
    {
        match self {
            Accidental::DoubleFlat => -2,
            Accidental::Flat => -1,
            Accidental::Natural => 0,
            Accidental::Sharp => 1,
            Accidental::DoubleSharp => 2,
        }
    }

    /// The accidental as text.
    pub fn as_str(&self) -> (r: &'static str)
        ensures
            r@ == self.text(),
    {
        proof {
            reveal_strlit("");
            reveal_strlit("#");
            reveal_strlit("b");
            reveal_strlit("\u{1D12A}");
            reveal_strlit("\u{1D12B}");
        }
        match self {
            Accidental::Natural => "",
            Accidental::Sharp => "#",
            Accidental::Flat => "b",
            Accidental::DoubleSharp => "\u{1D12A}",
            Accidental::DoubleFlat => "\u{1D12B}",
        }
    }

    /// The accidental whose adjustment is `v` semitones.
    pub fn from_offset(v: i8) -> (r: Result<Accidental, SymbolError>)
        ensures
            match Accidental::from_semitone(v as int) {
                Some(a) => r == Ok::<Accidental, SymbolError>(a),
                None => r == Err::<Accidental, SymbolError>(SymbolError::InvalidAccidental(v)),
            },
            r matches Ok(a) ==> a.semitone() == v as int,
    {
        match v {
            -2 => Ok(Accidental::DoubleFlat),
            -1 => Ok(Accidental::Flat),
            0 => Ok(Accidental::Natural),
            1 => Ok(Accidental::Sharp),
            2 => Ok(Accidental::DoubleSharp),
            _ => Err(SymbolError::InvalidAccidental(v)),
        }
    }
}

impl TryFrom<i8> for Accidental {
    type Error = SymbolError;

    fn try_from(v: i8) -> (r: Result<Accidental, SymbolError>) {
        Accidental::from_offset(v)
    }
}

impl vstd::std_specs::convert::TryFromSpecImpl<i8> for Accidental {
    open spec fn obeys_try_from_spec() -> bool {
        true
    }

    open spec fn try_from_spec(v: i8) -> Result<Accidental, SymbolError> {
        match Accidental::from_semitone(v as int) {
            Some(a) => Ok(a),
            None => Err(SymbolError::InvalidAccidental(v)),
        }
    }
}

/// The description of a symbol error.
pub open spec fn symbol_error_text(e: SymbolError) -> Seq<char> {
    match e {
        SymbolError::InvalidAccidental(v) => "invalid semitone offset for accidental: "@ + decimal_text(v as int),
    }
}

impl SymbolError {
    /// A human-readable description of the error.
    pub fn message(&self) -> (r: String)
        ensures
            r@ == symbol_error_text(*self),
    {
        match self {
            SymbolError::InvalidAccidental(v) => {
                let mut out = String::from_str("invalid semitone offset for accidental: ");
                append_decimal(&mut out, *v as i32);
                out
            },
        }
    }
}

} // verus!
