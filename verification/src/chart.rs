//! The two symbol charts: vowels placed in the vowel space, and consonants by
//! place, manner and voicing.

use vstd::prelude::*;
use crate::phones::{ArtPlace, Consonant, Manner, Voicing, Vowel};
use crate::vector2::Vector2;

verus! {

/// `i` is the first place at which `x` stands in `s`.
pub proof fn lemma_first_index<A>(s: Seq<A>, x: A, i: int)
    requires
        0 <= i < s.len(),
        s[i] == x,
        forall|j: int| 0 <= j < i ==> s[j] != x,
    ensures
        s.index_of_first(x) == Some(i),
{
    s.index_of_first_ensures(x);
    assert(s.contains(x));
}

/// `x` stands nowhere in `s`.
pub proof fn lemma_no_index<A>(s: Seq<A>, x: A)
    requires
        forall|j: int| 0 <= j < s.len() ==> s[j] != x,
    ensures
        s.index_of_first(x) is None,
{
    s.index_of_first_ensures(x);
}

/// One line of the vowel chart: the symbol of the vowel at `pos` with the
/// given rounding.
#[derive(Debug, Clone, Copy, PartialEq, Eq, Structural)]
pub struct VowelEntry {
    pub pos: Vector2,
    pub symbol: char,
    pub rounded: bool,
}

impl VowelEntry {
    /// The line that gives `symbol` to the vowel at `(x, y)` with the given
    /// rounding.
    pub open spec fn spec_new(x: i32, y: i32, symbol: char, rounded: bool) -> VowelEntry {
        VowelEntry { pos: Vector2 { x, y }, symbol, rounded }
    }

    /// The line that gives `symbol` to the vowel at `(x, y)` with the given
    /// rounding.
    #[verifier::when_used_as_spec(spec_new)]
    pub fn new(x: i32, y: i32, symbol: char, rounded: bool) -> (e: VowelEntry)
        ensures
            e == VowelEntry::spec_new(x, y, symbol, rounded),
    {
        VowelEntry { pos: Vector2 { x, y }, symbol, rounded }
    }

    /// The vowel that this line gives a symbol to.
    pub open spec fn spec_vowel(self) -> Vowel {
        Vowel { pos: self.pos, rounded: self.rounded }
    }

    /// The vowel that this line gives a symbol to.
    #[verifier::when_used_as_spec(spec_vowel)]
    pub fn vowel(self) -> (v: Vowel)
        ensures
            v == self.spec_vowel(),
    {
        Vowel { pos: self.pos, rounded: self.rounded }
    }
}

/// Number of lines of the vowel chart.
pub const VOWEL_COUNT: usize = 28;

/// The vowel chart, in the order in which lookups walk it. Coordinates are
/// in units of `1 / UNIT` of the width and height of the vowel space. No
/// symbol stands on two lines, and no two lines hold the same point with the
/// same rounding.
pub open spec fn vowel_chart() -> Seq<VowelEntry> {
    seq![
        VowelEntry::new(0, 0, 'i', false),
        VowelEntry::new(0, 0, 'y', true),
        VowelEntry::new(100_000, 0, 'ɯ', false),
        VowelEntry::new(100_000, 0, 'u', true),
        VowelEntry::new(50_000, 0, 'ɨ', false),
        VowelEntry::new(50_000, 0, 'ʉ', true),
        VowelEntry::new(17_000, 16_600, 'ɪ', false),
        VowelEntry::new(17_000, 16_600, 'ʏ', true),
        VowelEntry::new(16_650, 33_300, 'e', false),
        VowelEntry::new(16_650, 33_300, 'ø', true),
        VowelEntry::new(58_325, 33_300, 'ɘ', false),
        VowelEntry::new(58_325, 33_300, 'ɵ', true),
        VowelEntry::new(100_000, 33_300, 'ɤ', false),
        VowelEntry::new(100_000, 33_300, 'o', true),
        VowelEntry::new(62_500, 50_000, 'ə', false),
        VowelEntry::new(33_300, 66_600, 'ɛ', false),
        VowelEntry::new(33_300, 66_600, 'œ', true),
        VowelEntry::new(66_650, 66_600, 'ɜ', false),
        VowelEntry::new(66_650, 66_600, 'ɞ', true),
        VowelEntry::new(100_000, 66_600, 'ʌ', false),
        VowelEntry::new(100_000, 66_600, 'ɔ', true),
        VowelEntry::new(41_650, 83_300, 'æ', false),
        VowelEntry::new(70_825, 83_300, 'ɐ', false),
        VowelEntry::new(50_000, 100_000, 'a', false),
        VowelEntry::new(50_000, 100_000, 'ɶ', true),
        VowelEntry::new(75_000, 100_000, 'ä', false),
        VowelEntry::new(100_000, 100_000, 'ɑ', false),
        VowelEntry::new(100_000, 100_000, 'ɒ', true),
    ]
}

/// The symbols of the vowel chart, line by line.
pub open spec fn vowel_symbols() -> Seq<char> {
    vowel_chart().map_values(|e: VowelEntry| e.symbol)
}

/// Line `i` of the vowel chart.
pub fn vowel_entry(i: usize) -> (e: VowelEntry)
    requires
        i < VOWEL_COUNT,
    ensures
        e == vowel_chart()[i as int],
{
    match i {
        0 => VowelEntry::new(0, 0, 'i', false),
        1 => VowelEntry::new(0, 0, 'y', true),
        2 => VowelEntry::new(100_000, 0, 'ɯ', false),
        3 => VowelEntry::new(100_000, 0, 'u', true),
        4 => VowelEntry::new(50_000, 0, 'ɨ', false),
        5 => VowelEntry::new(50_000, 0, 'ʉ', true),
        6 => VowelEntry::new(17_000, 16_600, 'ɪ', false),
        7 => VowelEntry::new(17_000, 16_600, 'ʏ', true),
        8 => VowelEntry::new(16_650, 33_300, 'e', false),
        9 => VowelEntry::new(16_650, 33_300, 'ø', true),
        10 => VowelEntry::new(58_325, 33_300, 'ɘ', false),
        11 => VowelEntry::new(58_325, 33_300, 'ɵ', true),
        12 => VowelEntry::new(100_000, 33_300, 'ɤ', false),
        13 => VowelEntry::new(100_000, 33_300, 'o', true),
        14 => VowelEntry::new(62_500, 50_000, 'ə', false),
        15 => VowelEntry::new(33_300, 66_600, 'ɛ', false),
        16 => VowelEntry::new(33_300, 66_600, 'œ', true),
        17 => VowelEntry::new(66_650, 66_600, 'ɜ', false),
        18 => VowelEntry::new(66_650, 66_600, 'ɞ', true),
        19 => VowelEntry::new(100_000, 66_600, 'ʌ', false),
        20 => VowelEntry::new(100_000, 66_600, 'ɔ', true),
        21 => VowelEntry::new(41_650, 83_300, 'æ', false),
        22 => VowelEntry::new(70_825, 83_300, 'ɐ', false),
        23 => VowelEntry::new(50_000, 100_000, 'a', false),
        24 => VowelEntry::new(50_000, 100_000, 'ɶ', true),
        25 => VowelEntry::new(75_000, 100_000, 'ä', false),
        26 => VowelEntry::new(100_000, 100_000, 'ɑ', false),
        _ => VowelEntry::new(100_000, 100_000, 'ɒ', true),
    }
}

/// One line of the consonant chart: the symbol of a consonant.
#[derive(Debug, Clone, Copy, PartialEq, Eq, Structural)]
pub struct ConsonantEntry {
    pub consonant: Consonant,
    pub symbol: char,
}

impl ConsonantEntry {
    /// The line that gives `symbol` to the consonant of the given place,
    /// manner and voicing.
    pub open spec fn spec_new(
        place: ArtPlace,
        manner: Manner,
        voiced: Voicing,
        symbol: char,
    ) -> ConsonantEntry {
        ConsonantEntry { consonant: Consonant { place, manner, voiced }, symbol }
    }

    /// The line that gives `symbol` to the consonant of the given place,
    /// manner and voicing.
    #[verifier::when_used_as_spec(spec_new)]
    pub fn new(place: ArtPlace, manner: Manner, voiced: Voicing, symbol: char) -> (e:
        ConsonantEntry)
        ensures
            e == ConsonantEntry::spec_new(place, manner, voiced, symbol),
    {
        ConsonantEntry { consonant: Consonant { place, manner, voiced }, symbol }
    }
}

/// Number of lines of the consonant chart.
pub const CONSONANT_COUNT: usize = 73;

/// The consonant chart, in the order in which lookups walk it. No consonant
/// stands on two lines. A symbol may: nasals, approximants, taps, trills and
/// laterals are written alike voiceless and voiced, and a few symbols serve
/// two places or manners. Reading such a symbol gives the consonant of its
/// first line.
pub open spec fn consonant_chart() -> Seq<ConsonantEntry> {
    seq![
        ConsonantEntry::new(ArtPlace::Bilabial, Manner::Nasal, Voicing::Voiceless, 'm'),
        ConsonantEntry::new(ArtPlace::Bilabial, Manner::Nasal, Voicing::Voiced, 'm'),
        ConsonantEntry::new(ArtPlace::Labiodental, Manner::Nasal, Voicing::Voiceless, 'ɱ'),
        ConsonantEntry::new(ArtPlace::Labiodental, Manner::Nasal, Voicing::Voiced, 'ɱ'),
        ConsonantEntry::new(ArtPlace::Dental, Manner::Nasal, Voicing::Voiceless, 'n'),
        ConsonantEntry::new(ArtPlace::Dental, Manner::Nasal, Voicing::Voiced, 'n'),
        ConsonantEntry::new(ArtPlace::Retroflex, Manner::Nasal, Voicing::Voiceless, 'ɳ'),
        ConsonantEntry::new(ArtPlace::Retroflex, Manner::Nasal, Voicing::Voiced, 'ɳ'),
        ConsonantEntry::new(ArtPlace::Palatal, Manner::Nasal, Voicing::Voiceless, 'ɲ'),
        ConsonantEntry::new(ArtPlace::Palatal, Manner::Nasal, Voicing::Voiced, 'ɲ'),
        ConsonantEntry::new(ArtPlace::Velar, Manner::Nasal, Voicing::Voiceless, 'ŋ'),
        ConsonantEntry::new(ArtPlace::Velar, Manner::Nasal, Voicing::Voiced, 'ŋ'),
        ConsonantEntry::new(ArtPlace::Bilabial, Manner::Plosive, Voicing::Voiceless, 'p'),
        ConsonantEntry::new(ArtPlace::Bilabial, Manner::Plosive, Voicing::Voiced, 'b'),
        ConsonantEntry::new(ArtPlace::Labiodental, Manner::Plosive, Voicing::Voiceless, 'p'),
        ConsonantEntry::new(ArtPlace::Labiodental, Manner::Plosive, Voicing::Voiced, 'b'),
        ConsonantEntry::new(ArtPlace::Dental, Manner::Plosive, Voicing::Voiceless, 't'),
        ConsonantEntry::new(ArtPlace::Dental, Manner::Plosive, Voicing::Voiced, 'd'),
        ConsonantEntry::new(ArtPlace::Retroflex, Manner::Plosive, Voicing::Voiceless, 'ʈ'),
        ConsonantEntry::new(ArtPlace::Retroflex, Manner::Plosive, Voicing::Voiced, 'ɖ'),
        ConsonantEntry::new(ArtPlace::Palatal, Manner::Plosive, Voicing::Voiceless, 'c'),
        ConsonantEntry::new(ArtPlace::Palatal, Manner::Plosive, Voicing::Voiced, 'ɟ'),
        ConsonantEntry::new(ArtPlace::Velar, Manner::Plosive, Voicing::Voiceless, 'k'),
        ConsonantEntry::new(ArtPlace::Velar, Manner::Plosive, Voicing::Voiced, 'g'),
        ConsonantEntry::new(ArtPlace::Glottal, Manner::Plosive, Voicing::Voiceless, 'ʔ'),
        ConsonantEntry::new(ArtPlace::Glottal, Manner::Plosive, Voicing::Voiced, 'ʔ'),
        ConsonantEntry::new(ArtPlace::Dental, Manner::Sibilant, Voicing::Voiceless, 's'),
        ConsonantEntry::new(ArtPlace::Dental, Manner::Sibilant, Voicing::Voiced, 'z'),
        ConsonantEntry::new(ArtPlace::Retroflex, Manner::Sibilant, Voicing::Voiceless, 'ʂ'),
        ConsonantEntry::new(ArtPlace::Retroflex, Manner::Sibilant, Voicing::Voiced, 'ʐ'),
        ConsonantEntry::new(ArtPlace::Palatal, Manner::Sibilant, Voicing::Voiceless, 'ɕ'),
        ConsonantEntry::new(ArtPlace::Palatal, Manner::Sibilant, Voicing::Voiced, 'ʑ'),
        ConsonantEntry::new(ArtPlace::Bilabial, Manner::Fricative, Voicing::Voiceless, 'ɸ'),
        ConsonantEntry::new(ArtPlace::Bilabial, Manner::Fricative, Voicing::Voiced, 'β'),
        ConsonantEntry::new(ArtPlace::Labiodental, Manner::Fricative, Voicing::Voiceless, 'f'),
        ConsonantEntry::new(ArtPlace::Labiodental, Manner::Fricative, Voicing::Voiced, 'v'),
        ConsonantEntry::new(ArtPlace::Dental, Manner::Fricative, Voicing::Voiceless, 'θ'),
        ConsonantEntry::new(ArtPlace::Dental, Manner::Fricative, Voicing::Voiced, 'ð'),
        ConsonantEntry::new(ArtPlace::Retroflex, Manner::Fricative, Voicing::Voiceless, 'ɻ'),
        ConsonantEntry::new(ArtPlace::Retroflex, Manner::Fricative, Voicing::Voiced, 'ɻ'),
        ConsonantEntry::new(ArtPlace::Palatal, Manner::Fricative, Voicing::Voiceless, 'ç'),
        ConsonantEntry::new(ArtPlace::Palatal, Manner::Fricative, Voicing::Voiced, 'ʝ'),
        ConsonantEntry::new(ArtPlace::Velar, Manner::Fricative, Voicing::Voiceless, 'x'),
        ConsonantEntry::new(ArtPlace::Velar, Manner::Fricative, Voicing::Voiced, 'ɣ'),
        ConsonantEntry::new(ArtPlace::Glottal, Manner::Fricative, Voicing::Voiceless, 'h'),
        ConsonantEntry::new(ArtPlace::Glottal, Manner::Fricative, Voicing::Voiced, 'ɦ'),
        ConsonantEntry::new(ArtPlace::Labiodental, Manner::Approximant, Voicing::Voiceless, 'ʋ'),
        ConsonantEntry::new(ArtPlace::Labiodental, Manner::Approximant, Voicing::Voiced, 'ʋ'),
        ConsonantEntry::new(ArtPlace::Dental, Manner::Approximant, Voicing::Voiceless, 'ɹ'),
        ConsonantEntry::new(ArtPlace::Dental, Manner::Approximant, Voicing::Voiced, 'ɹ'),
        ConsonantEntry::new(ArtPlace::Retroflex, Manner::Approximant, Voicing::Voiceless, 'ɻ'),
        ConsonantEntry::new(ArtPlace::Retroflex, Manner::Approximant, Voicing::Voiced, 'ɻ'),
        ConsonantEntry::new(ArtPlace::Palatal, Manner::Approximant, Voicing::Voiceless, 'j'),
        ConsonantEntry::new(ArtPlace::Palatal, Manner::Approximant, Voicing::Voiced, 'j'),
        ConsonantEntry::new(ArtPlace::Velar, Manner::Approximant, Voicing::Voiceless, 'ɰ'),
        ConsonantEntry::new(ArtPlace::Velar, Manner::Approximant, Voicing::Voiced, 'ɰ'),
        ConsonantEntry::new(ArtPlace::Labiodental, Manner::Tap, Voicing::Voiceless, 'ⱱ'),
        ConsonantEntry::new(ArtPlace::Labiodental, Manner::Tap, Voicing::Voiced, 'ⱱ'),
        ConsonantEntry::new(ArtPlace::Dental, Manner::Tap, Voicing::Voiceless, 'ɾ'),
        ConsonantEntry::new(ArtPlace::Dental, Manner::Tap, Voicing::Voiced, 'ɾ'),
        ConsonantEntry::new(ArtPlace::Retroflex, Manner::Tap, Voicing::Voiceless, 'ɽ'),
        ConsonantEntry::new(ArtPlace::Retroflex, Manner::Tap, Voicing::Voiced, 'ɽ'),
        ConsonantEntry::new(ArtPlace::Bilabial, Manner::Trill, Voicing::Voiceless, 'ʙ'),
        ConsonantEntry::new(ArtPlace::Bilabial, Manner::Trill, Voicing::Voiced, 'ʙ'),
        ConsonantEntry::new(ArtPlace::Dental, Manner::Trill, Voicing::Voiceless, 'r'),
        ConsonantEntry::new(ArtPlace::Dental, Manner::Trill, Voicing::Voiced, 'r'),
        ConsonantEntry::new(ArtPlace::Retroflex, Manner::Trill, Voicing::Voiceless, 'ɽ'),
        ConsonantEntry::new(ArtPlace::Retroflex, Manner::Trill, Voicing::Voiced, 'ɽ'),
        ConsonantEntry::new(ArtPlace::Dental, Manner::Lateral, Voicing::Voiceless, 'l'),
        ConsonantEntry::new(ArtPlace::Dental, Manner::Lateral, Voicing::Voiced, 'l'),
        ConsonantEntry::new(ArtPlace::Retroflex, Manner::Lateral, Voicing::Voiceless, 'ɭ'),
        ConsonantEntry::new(ArtPlace::Retroflex, Manner::Lateral, Voicing::Voiced, 'ɭ'),
        ConsonantEntry::new(ArtPlace::Velar, Manner::Sibilant, Voicing::Voiceless, 'ɧ'),
    ]
}

/// The symbols of the consonant chart, line by line.
pub open spec fn consonant_symbols() -> Seq<char> {
    consonant_chart().map_values(|e: ConsonantEntry| e.symbol)
}

/// The consonants of the consonant chart, line by line.
pub open spec fn consonants() -> Seq<Consonant> {
    consonant_chart().map_values(|e: ConsonantEntry| e.consonant)
}

/// Line `i` of the consonant chart.
pub fn consonant_entry(i: usize) -> (e: ConsonantEntry)
    requires
        i < CONSONANT_COUNT,
    ensures
        e == consonant_chart()[i as int],
{
    match i {
        0 => ConsonantEntry::new(ArtPlace::Bilabial, Manner::Nasal, Voicing::Voiceless, 'm'),
        1 => ConsonantEntry::new(ArtPlace::Bilabial, Manner::Nasal, Voicing::Voiced, 'm'),
        2 => ConsonantEntry::new(ArtPlace::Labiodental, Manner::Nasal, Voicing::Voiceless, 'ɱ'),
        3 => ConsonantEntry::new(ArtPlace::Labiodental, Manner::Nasal, Voicing::Voiced, 'ɱ'),
        4 => ConsonantEntry::new(ArtPlace::Dental, Manner::Nasal, Voicing::Voiceless, 'n'),
        5 => ConsonantEntry::new(ArtPlace::Dental, Manner::Nasal, Voicing::Voiced, 'n'),
        6 => ConsonantEntry::new(ArtPlace::Retroflex, Manner::Nasal, Voicing::Voiceless, 'ɳ'),
        7 => ConsonantEntry::new(ArtPlace::Retroflex, Manner::Nasal, Voicing::Voiced, 'ɳ'),
        8 => ConsonantEntry::new(ArtPlace::Palatal, Manner::Nasal, Voicing::Voiceless, 'ɲ'),
        9 => ConsonantEntry::new(ArtPlace::Palatal, Manner::Nasal, Voicing::Voiced, 'ɲ'),
        10 => ConsonantEntry::new(ArtPlace::Velar, Manner::Nasal, Voicing::Voiceless, 'ŋ'),
        11 => ConsonantEntry::new(ArtPlace::Velar, Manner::Nasal, Voicing::Voiced, 'ŋ'),
        12 => ConsonantEntry::new(ArtPlace::Bilabial, Manner::Plosive, Voicing::Voiceless, 'p'),
        13 => ConsonantEntry::new(ArtPlace::Bilabial, Manner::Plosive, Voicing::Voiced, 'b'),
        14 => ConsonantEntry::new(ArtPlace::Labiodental, Manner::Plosive, Voicing::Voiceless, 'p'),
        15 => ConsonantEntry::new(ArtPlace::Labiodental, Manner::Plosive, Voicing::Voiced, 'b'),
        16 => ConsonantEntry::new(ArtPlace::Dental, Manner::Plosive, Voicing::Voiceless, 't'),
        17 => ConsonantEntry::new(ArtPlace::Dental, Manner::Plosive, Voicing::Voiced, 'd'),
        18 => ConsonantEntry::new(ArtPlace::Retroflex, Manner::Plosive, Voicing::Voiceless, 'ʈ'),
        19 => ConsonantEntry::new(ArtPlace::Retroflex, Manner::Plosive, Voicing::Voiced, 'ɖ'),
        20 => ConsonantEntry::new(ArtPlace::Palatal, Manner::Plosive, Voicing::Voiceless, 'c'),
        21 => ConsonantEntry::new(ArtPlace::Palatal, Manner::Plosive, Voicing::Voiced, 'ɟ'),
        22 => ConsonantEntry::new(ArtPlace::Velar, Manner::Plosive, Voicing::Voiceless, 'k'),
        23 => ConsonantEntry::new(ArtPlace::Velar, Manner::Plosive, Voicing::Voiced, 'g'),
        24 => ConsonantEntry::new(ArtPlace::Glottal, Manner::Plosive, Voicing::Voiceless, 'ʔ'),
        25 => ConsonantEntry::new(ArtPlace::Glottal, Manner::Plosive, Voicing::Voiced, 'ʔ'),
        26 => ConsonantEntry::new(ArtPlace::Dental, Manner::Sibilant, Voicing::Voiceless, 's'),
        27 => ConsonantEntry::new(ArtPlace::Dental, Manner::Sibilant, Voicing::Voiced, 'z'),
        28 => ConsonantEntry::new(ArtPlace::Retroflex, Manner::Sibilant, Voicing::Voiceless, 'ʂ'),
        29 => ConsonantEntry::new(ArtPlace::Retroflex, Manner::Sibilant, Voicing::Voiced, 'ʐ'),
        30 => ConsonantEntry::new(ArtPlace::Palatal, Manner::Sibilant, Voicing::Voiceless, 'ɕ'),
        31 => ConsonantEntry::new(ArtPlace::Palatal, Manner::Sibilant, Voicing::Voiced, 'ʑ'),
        32 => ConsonantEntry::new(ArtPlace::Bilabial, Manner::Fricative, Voicing::Voiceless, 'ɸ'),
        33 => ConsonantEntry::new(ArtPlace::Bilabial, Manner::Fricative, Voicing::Voiced, 'β'),
        34 => ConsonantEntry::new(ArtPlace::Labiodental, Manner::Fricative, Voicing::Voiceless, 'f'),
        35 => ConsonantEntry::new(ArtPlace::Labiodental, Manner::Fricative, Voicing::Voiced, 'v'),
        36 => ConsonantEntry::new(ArtPlace::Dental, Manner::Fricative, Voicing::Voiceless, 'θ'),
        37 => ConsonantEntry::new(ArtPlace::Dental, Manner::Fricative, Voicing::Voiced, 'ð'),
        38 => ConsonantEntry::new(ArtPlace::Retroflex, Manner::Fricative, Voicing::Voiceless, 'ɻ'),
        39 => ConsonantEntry::new(ArtPlace::Retroflex, Manner::Fricative, Voicing::Voiced, 'ɻ'),
        40 => ConsonantEntry::new(ArtPlace::Palatal, Manner::Fricative, Voicing::Voiceless, 'ç'),
        41 => ConsonantEntry::new(ArtPlace::Palatal, Manner::Fricative, Voicing::Voiced, 'ʝ'),
        42 => ConsonantEntry::new(ArtPlace::Velar, Manner::Fricative, Voicing::Voiceless, 'x'),
        43 => ConsonantEntry::new(ArtPlace::Velar, Manner::Fricative, Voicing::Voiced, 'ɣ'),
        44 => ConsonantEntry::new(ArtPlace::Glottal, Manner::Fricative, Voicing::Voiceless, 'h'),
        45 => ConsonantEntry::new(ArtPlace::Glottal, Manner::Fricative, Voicing::Voiced, 'ɦ'),
        46 => ConsonantEntry::new(ArtPlace::Labiodental, Manner::Approximant, Voicing::Voiceless, 'ʋ'),
        47 => ConsonantEntry::new(ArtPlace::Labiodental, Manner::Approximant, Voicing::Voiced, 'ʋ'),
        48 => ConsonantEntry::new(ArtPlace::Dental, Manner::Approximant, Voicing::Voiceless, 'ɹ'),
        49 => ConsonantEntry::new(ArtPlace::Dental, Manner::Approximant, Voicing::Voiced, 'ɹ'),
        50 => ConsonantEntry::new(ArtPlace::Retroflex, Manner::Approximant, Voicing::Voiceless, 'ɻ'),
        51 => ConsonantEntry::new(ArtPlace::Retroflex, Manner::Approximant, Voicing::Voiced, 'ɻ'),
        52 => ConsonantEntry::new(ArtPlace::Palatal, Manner::Approximant, Voicing::Voiceless, 'j'),
        53 => ConsonantEntry::new(ArtPlace::Palatal, Manner::Approximant, Voicing::Voiced, 'j'),
        54 => ConsonantEntry::new(ArtPlace::Velar, Manner::Approximant, Voicing::Voiceless, 'ɰ'),
        55 => ConsonantEntry::new(ArtPlace::Velar, Manner::Approximant, Voicing::Voiced, 'ɰ'),
        56 => ConsonantEntry::new(ArtPlace::Labiodental, Manner::Tap, Voicing::Voiceless, 'ⱱ'),
        57 => ConsonantEntry::new(ArtPlace::Labiodental, Manner::Tap, Voicing::Voiced, 'ⱱ'),
        58 => ConsonantEntry::new(ArtPlace::Dental, Manner::Tap, Voicing::Voiceless, 'ɾ'),
        59 => ConsonantEntry::new(ArtPlace::Dental, Manner::Tap, Voicing::Voiced, 'ɾ'),
        60 => ConsonantEntry::new(ArtPlace::Retroflex, Manner::Tap, Voicing::Voiceless, 'ɽ'),
        61 => ConsonantEntry::new(ArtPlace::Retroflex, Manner::Tap, Voicing::Voiced, 'ɽ'),
        62 => ConsonantEntry::new(ArtPlace::Bilabial, Manner::Trill, Voicing::Voiceless, 'ʙ'),
        63 => ConsonantEntry::new(ArtPlace::Bilabial, Manner::Trill, Voicing::Voiced, 'ʙ'),
        64 => ConsonantEntry::new(ArtPlace::Dental, Manner::Trill, Voicing::Voiceless, 'r'),
        65 => ConsonantEntry::new(ArtPlace::Dental, Manner::Trill, Voicing::Voiced, 'r'),
        66 => ConsonantEntry::new(ArtPlace::Retroflex, Manner::Trill, Voicing::Voiceless, 'ɽ'),
        67 => ConsonantEntry::new(ArtPlace::Retroflex, Manner::Trill, Voicing::Voiced, 'ɽ'),
        68 => ConsonantEntry::new(ArtPlace::Dental, Manner::Lateral, Voicing::Voiceless, 'l'),
        69 => ConsonantEntry::new(ArtPlace::Dental, Manner::Lateral, Voicing::Voiced, 'l'),
        70 => ConsonantEntry::new(ArtPlace::Retroflex, Manner::Lateral, Voicing::Voiceless, 'ɭ'),
        71 => ConsonantEntry::new(ArtPlace::Retroflex, Manner::Lateral, Voicing::Voiced, 'ɭ'),
        _ => ConsonantEntry::new(ArtPlace::Velar, Manner::Sibilant, Voicing::Voiceless, 'ɧ'),
    }
}

} // verus!
