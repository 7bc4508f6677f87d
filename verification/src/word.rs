//! Words: phones in order, each with its length mark, read from and written
//! to a transcription.

use vstd::prelude::*;
use crate::phones::{decode, Phone};

verus! {

/// The symbol that marks the phone before it as long.
pub const LENGTH_MARK: char = ':';

/// One place of a word: a phone and whether it is long. The length belongs to
/// the place, not to the phone.
#[derive(Debug, Clone, Copy, Hash, PartialEq, Eq, Structural)]
pub struct Segment {
    pub phone: Phone,
    pub is_long: bool,
}

impl Segment {
    /// The phone `phone`, short.
    pub open spec fn spec_short(phone: Phone) -> Segment {
        Segment { phone, is_long: false }
    }

    /// The phone `phone`, short.
    #[verifier::when_used_as_spec(spec_short)]
    pub fn short(phone: Phone) -> (s: Segment)
        ensures
            s == Segment::spec_short(phone),
    {
        Segment { phone, is_long: false }
    }

    /// The phone `phone`, long.
    pub open spec fn spec_long(phone: Phone) -> Segment {
        Segment { phone, is_long: true }
    }

    /// The phone `phone`, long.
    #[verifier::when_used_as_spec(spec_long)]
    pub fn long(phone: Phone) -> (s: Segment)
        ensures
            s == Segment::spec_long(phone),
    {
        Segment { phone, is_long: true }
    }
}

/// A symbol of a transcription that neither chart knows, and the place at
/// which it stands, counted in characters from 0.
#[derive(Debug, Clone, Copy, PartialEq, Eq, Structural)]
pub struct UnknownSymbol {
    pub symbol: char,
    pub position: usize,
}

/// A word: its segments in order.
#[derive(Debug, PartialEq, Eq)]
pub struct Word {
    pub phones: Vec<Segment>,
}

impl View for Word {
    type V = Seq<Segment>;

    open spec fn view(&self) -> Seq<Segment> {
        self.phones@
    }
}

/// `String::push` appends one character to the end of the string and changes
/// nothing else of it.
pub assume_specification[ String::push ](s: &mut String, c: char)
    ensures
        final(s)@ == old(s)@.push(c),
;

/// What is read from the transcription `s` from place `i` on. A symbol that
/// stands at `i` is read as a phone, long where a length mark follows it at
/// once; the mark is then used up. The first symbol that is no phone ends the
/// reading with that symbol and its place; a length mark that follows no
/// phone is such a symbol.
pub open spec fn decode_from(s: Seq<char>, i: int) -> Result<Seq<Segment>, UnknownSymbol>
    decreases s.len() - i,
{
    if i < 0 || i >= s.len() {
        Ok(Seq::empty())
    } else {
        let is_long = i + 1 < s.len() && s[i + 1] == LENGTH_MARK;
        match decode(s[i]) {
            None => Err(UnknownSymbol { symbol: s[i], position: i as usize }),
            Some(phone) => match decode_from(s, if is_long { i + 2 } else { i + 1 }) {
                Ok(rest) => Ok(seq![Segment { phone, is_long }] + rest),
                Err(e) => Err(e),
            },
        }
    }
}

/// The word that the transcription `s` stands for, or its first unknown
/// symbol.
pub open spec fn decode_word(s: Seq<char>) -> Result<Seq<Segment>, UnknownSymbol> {
    decode_from(s, 0)
}

/// The symbols written for one segment: that of the phone, and the length
/// mark after it where the segment is long.
pub open spec fn encode_segment(s: Segment) -> Seq<char> {
    if s.is_long {
        seq![s.phone.symbol(), LENGTH_MARK]
    } else {
        seq![s.phone.symbol()]
    }
}

/// The transcription of a word: what is written for its segments, in order.
pub open spec fn encode_word(w: Seq<Segment>) -> Seq<char> {
    w.flat_map(|s: Segment| encode_segment(s))
}

/// `done` followed by what `rest` holds, or the failure of `rest`.
spec fn after(done: Seq<Segment>, rest: Result<Seq<Segment>, UnknownSymbol>) -> Result<
    Seq<Segment>,
    UnknownSymbol,
> {
    match rest {
        Ok(r) => Ok(done + r),
        Err(e) => Err(e),
    }
}

impl Word {
    /// Reads a transcription: one symbol for each phone, with a length mark
    /// after the phones that are long. Fails on the first symbol that neither
    /// chart knows, and names it and its place.
    pub fn from(str: &str) -> (r: Result<Word, UnknownSymbol>)
        ensures
            match r {
                Ok(w) => decode_word(str@) == Ok::<Seq<Segment>, UnknownSymbol>(w@),
                Err(e) => decode_word(str@) == Err::<Seq<Segment>, UnknownSymbol>(e),
            },
    {
        let n = str.unicode_len();
        let mut phones: Vec<Segment> = Vec::new();
        let mut i: usize = 0;
        assert(after(phones@, decode_from(str@, 0)) == decode_from(str@, 0)) by {
            match decode_from(str@, 0) {
                Ok(r) => assert(phones@ + r =~= r),
                Err(_) => {},
            }
        }
        while i < n
            invariant
                i <= n,
                n == str@.len(),
                decode_word(str@) == after(phones@, decode_from(str@, i as int)),
            decreases n - i,
        {
            let c = str.get_char(i);
            let is_long = i + 1 < n && str.get_char(i + 1) == LENGTH_MARK;
            match Phone::from(c) {
                None => {
                    return Err(UnknownSymbol { symbol: c, position: i });
                },
                Some(phone) => {
                    let seg = Segment { phone, is_long };
                    let next: usize = if is_long { i + 2 } else { i + 1 };
                    proof {
                        match decode_from(str@, next as int) {
                            Ok(r) => assert(phones@ + (seq![seg] + r) =~= phones@.push(seg) + r),
                            Err(_) => {},
                        }
                    }
                    phones.push(seg);
                    i = next;
                },
            }
        }
        proof {
            assert(phones@ + Seq::<Segment>::empty() =~= phones@);
        }
        Ok(Word { phones })
    }

    /// Writes the word as a transcription: the symbol of each phone in
    /// order, with a length mark after each long one.
    pub fn transcription(&self) -> (r: String)
        ensures
            r@ == encode_word(self@),
    {
        let mut out = String::new();
        let n = self.phones.len();
        let ghost parts = self@.map_values(|s: Segment| encode_segment(s));
        let mut i: usize = 0;
        assert(self@.take(0) =~= Seq::<Segment>::empty());
        while i < n
            invariant
                i <= n,
                n == self@.len(),
                out@ == encode_word(self@.take(i as int)),
            decreases n - i,
        {
            let seg = self.phones[i];
            let ghost before = out@;
            out.push(seg.phone.transcription());
            if seg.is_long {
                out.push(LENGTH_MARK);
            }
            proof {
                let f = |s: Segment| encode_segment(s);
                let head = self@.take(i as int);
                assert(self@.take(i + 1) =~= head.push(seg));
                assert(head.push(seg).map_values(f) =~= head.map_values(f).push(f(seg)));
                head.map_values(f).lemma_flatten_push(f(seg));
                assert(out@ =~= before + encode_segment(seg));
            }
            i += 1;
        }
        proof {
            assert(self@.take(n as int) =~= self@);
        }
        out
    }
}

} // verus!
