//! Phones as articulatory data.

use vstd::prelude::*;
use crate::chart::{
    consonant_chart, consonant_entry, consonant_symbols, consonants, lemma_first_index,
    lemma_no_index, vowel_chart, vowel_entry, vowel_symbols, CONSONANT_COUNT, VOWEL_COUNT,
};
use crate::vector2::{Vector2, UNIT};

verus! {

/// Whether the vocal folds vibrate.
#[derive(Debug, Clone, Copy, Hash, PartialEq, Eq, Structural)]
pub enum Voicing {
    Voiceless,
    Voiced,
}

/// Place of articulation of a consonant.
#[derive(Debug, Clone, Copy, Hash, PartialEq, Eq, Structural)]
pub enum ArtPlace {
    Bilabial,
    Labiodental,
    Dental,
    Retroflex,
    Velar,
    Palatal,
    Glottal,
}

/// Manner of articulation of a consonant.
#[derive(Debug, Clone, Copy, Hash, PartialEq, Eq, Structural)]
pub enum Manner {
    Plosive,
    Fricative,
    Nasal,
    Sibilant,
    Approximant,
    Tap,
    Trill,
    Lateral,
}

/// A consonant: place, manner and voicing. Two consonants are equal when all
/// three agree.
#[derive(Debug, Clone, Copy, Hash, PartialEq, Eq, Structural)]
pub struct Consonant {
    pub place: ArtPlace,
    pub manner: Manner,
    pub voiced: Voicing,
}

/// A vowel: a point of the vowel space and lip rounding. Two vowels are equal
/// when the points and the rounding are the same, with no tolerance.
#[derive(Debug, Clone, Copy, Hash, PartialEq, Eq, Structural)]
pub struct Vowel {
    pub pos: Vector2,
    pub rounded: bool,
}

/// A single sound: a vowel or a consonant.
#[derive(Debug, Clone, Copy, Hash, PartialEq, Eq, Structural)]
pub enum Phone {
    Vowel(Vowel),
    Consonant(Consonant),
}

/// A sequence of phones that carries meaning as a unit.
pub struct Morpheme {
    pub phones: Vec<Phone>,
}

/// The symbol written for a consonant that has no line in the consonant
/// chart.
pub const PLACEHOLDER: char = '0';

/// The phone that a symbol stands for: the vowel of the first line of the
/// vowel chart with that symbol; where there is none, the consonant of the
/// first line of the consonant chart with it; else nothing.
pub open spec fn decode(c: char) -> Option<Phone> {
    match vowel_symbols().index_of_first(c) {
        Some(i) => Some(Phone::Vowel(vowel_chart()[i].vowel())),
        None => match consonant_symbols().index_of_first(c) {
            Some(i) => Some(Phone::Consonant(consonant_chart()[i].consonant)),
            None => None,
        },
    }
}

impl Consonant {
    /// The symbol of the chart line of this consonant, or the placeholder
    /// where the chart has no such line.
    pub open spec fn symbol(self) -> char {
        match consonants().index_of_first(self) {
            Some(i) => consonant_chart()[i].symbol,
            None => PLACEHOLDER,
        }
    }

    /// The symbol for this consonant. The chart leaves many combinations of
    /// place, manner and voicing without a symbol: for those the result is
    /// `PLACEHOLDER`.
    pub fn transcription(&self) -> (c: char)
        ensures
            c == self.symbol(),
    {
        let mut i: usize = 0;
        while i < CONSONANT_COUNT
            invariant
                i <= CONSONANT_COUNT,
                consonants().len() == CONSONANT_COUNT,
                forall|j: int| 0 <= j < i ==> consonants()[j] != *self,
            decreases CONSONANT_COUNT - i,
        {
            let e = consonant_entry(i);
            if e.consonant == *self {
                proof {
                    lemma_first_index(consonants(), *self, i as int);
                }
                return e.symbol;
            }
            i += 1;
        }
        proof {
            lemma_no_index(consonants(), *self);
        }
        PLACEHOLDER
    }
}

impl Vowel {
    /// Square of the distance from this vowel to line `i` of the vowel chart.
    pub open spec fn dist_sq_to(self, i: int) -> int {
        self.pos.spec_dist_sq(vowel_chart()[i].pos)
    }

    /// Line `i` of the vowel chart is the nearest line with this vowel's
    /// rounding: no line with that rounding is nearer, and every earlier one
    /// is farther. Distances are compared by their squares, which order
    /// points as the Euclidean distances do.
    pub open spec fn is_nearest(self, i: int) -> bool {
        &&& 0 <= i < vowel_chart().len()
        &&& vowel_chart()[i].rounded == self.rounded
        &&& forall|j: int|
            0 <= j < vowel_chart().len() && (#[trigger] vowel_chart()[j]).rounded == self.rounded
                ==> if j < i {
                self.dist_sq_to(i) < self.dist_sq_to(j)
            } else {
                self.dist_sq_to(i) <= self.dist_sq_to(j)
            }
    }

    /// The line of the vowel chart that `is_nearest` singles out.
    pub open spec fn nearest_index(self) -> int {
        choose|i: int| self.is_nearest(i)
    }

    /// The symbol of the nearest line of the vowel chart with this vowel's
    /// rounding.
    pub open spec fn symbol(self) -> char {
        vowel_chart()[self.nearest_index()].symbol
    }

    /// At most one line is the nearest.
    pub proof fn lemma_nearest_unique(self, i: int, j: int)
        requires
            self.is_nearest(i),
            self.is_nearest(j),
        ensures
            i == j,
    {
        assert(vowel_chart()[i].rounded == self.rounded);
        assert(vowel_chart()[j].rounded == self.rounded);
    }

    /// The symbol of the chart vowel nearest to this one among those with
    /// the same rounding; of several at the same distance, the first in
    /// chart order.
    pub fn transcription(&self) -> (c: char)
        ensures
            self.is_nearest(self.nearest_index()),
            c == self.symbol(),
            forall|i: int| self.is_nearest(i) ==> c == vowel_chart()[i].symbol,
    {
        let mut best: usize = 0;
        let mut best_d: u128 = 0;
        let mut found = false;
        let mut i: usize = 0;
        while i < VOWEL_COUNT
            invariant
                i <= VOWEL_COUNT,
                vowel_chart().len() == VOWEL_COUNT,
                !found ==> forall|j: int|
                    0 <= j < i ==> (#[trigger] vowel_chart()[j]).rounded != self.rounded,
                found ==> {
                    &&& best < i
                    &&& vowel_chart()[best as int].rounded == self.rounded
                    &&& best_d == self.dist_sq_to(best as int)
                    &&& forall|j: int|
                        0 <= j < i && (#[trigger] vowel_chart()[j]).rounded == self.rounded
                            ==> if j < best {
                            best_d < self.dist_sq_to(j)
                        } else {
                            best_d <= self.dist_sq_to(j)
                        }
                },
            decreases VOWEL_COUNT - i,
        {
            let e = vowel_entry(i);
            if e.rounded == self.rounded {
                let d = self.pos.dist_sq(e.pos);
                if !found || d < best_d {
                    best = i;
                    best_d = d;
                    found = true;
                }
            }
            i += 1;
        }
        proof {
            assert(vowel_chart()[0].rounded == false);
            assert(vowel_chart()[1].rounded == true);
            assert(found);
            assert(self.is_nearest(best as int));
            self.lemma_nearest_unique(best as int, self.nearest_index());
            assert forall|i: int| self.is_nearest(i) implies best == i by {
                self.lemma_nearest_unique(best as int, i);
            }
        }
        vowel_entry(best).symbol
    }
}

impl Phone {
    /// The symbol of this phone: that of the vowel or of the consonant.
    pub open spec fn symbol(self) -> char {
        match self {
            Phone::Vowel(v) => v.symbol(),
            Phone::Consonant(k) => k.symbol(),
        }
    }

    /// This phone is a vowel in the front half of the vowel space.
    pub open spec fn spec_is_front_vowel(&self) -> bool {
        match *self {
            Phone::Vowel(v) => 2 * v.pos.x < UNIT,
            Phone::Consonant(_) => false,
        }
    }

    pub fn is_vowel(&self) -> (b: bool)
        ensures
            b == (*self is Vowel),
    {
        match self {
            Phone::Vowel(_) => true,
            Phone::Consonant(_) => false,
        }
    }

    pub fn is_consonant(&self) -> (b: bool)
        ensures
            b == (*self is Consonant),
    {
        match self {
            Phone::Vowel(_) => false,
            Phone::Consonant(_) => true,
        }
    }

    /// Whether this phone is a front vowel: a vowel whose backness lies
    /// strictly below the middle of the vowel space.
    #[verifier::when_used_as_spec(spec_is_front_vowel)]
    pub fn is_front_vowel(&self) -> (b: bool)
        ensures
            b == self.spec_is_front_vowel(),
    {
        match self {
            Phone::Vowel(v) => v.pos.x < UNIT / 2,
            Phone::Consonant(_) => false,
        }
    }

    /// The symbol for this phone.
    pub fn transcription(&self) -> (c: char)
        ensures
            c == self.symbol(),
    {
        match self {
            Phone::Vowel(x) => x.transcription(),
            Phone::Consonant(x) => x.transcription(),
        }
    }

    /// The phone that the symbol `c` stands for, or `None` where neither
    /// chart has the symbol. The vowel chart is asked first. Of several lines
    /// with the symbol, the first in chart order answers.
    pub fn from(c: char) -> (r: Option<Phone>)
        ensures
            r == decode(c),
    {
        let mut i: usize = 0;
        while i < VOWEL_COUNT
            invariant
                i <= VOWEL_COUNT,
                vowel_symbols().len() == VOWEL_COUNT,
                forall|j: int| 0 <= j < i ==> vowel_symbols()[j] != c,
            decreases VOWEL_COUNT - i,
        {
            let e = vowel_entry(i);
            if e.symbol == c {
                proof {
                    lemma_first_index(vowel_symbols(), c, i as int);
                }
                return Some(Phone::Vowel(e.vowel()));
            }
            i += 1;
        }
        proof {
            lemma_no_index(vowel_symbols(), c);
        }
        let mut k: usize = 0;
        while k < CONSONANT_COUNT
            invariant
                k <= CONSONANT_COUNT,
                consonant_symbols().len() == CONSONANT_COUNT,
                vowel_symbols().index_of_first(c) is None,
                forall|j: int| 0 <= j < k ==> consonant_symbols()[j] != c,
            decreases CONSONANT_COUNT - k,
        {
            let e = consonant_entry(k);
            if e.symbol == c {
                proof {
                    lemma_first_index(consonant_symbols(), c, k as int);
                }
                return Some(Phone::Consonant(e.consonant));
            }
            k += 1;
        }
        proof {
            lemma_no_index(consonant_symbols(), c);
        }
        None
    }
}

} // verus!
