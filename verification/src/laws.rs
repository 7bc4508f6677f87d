//! What holds of the charts, of reading and writing, and of the chain of
//! sound changes, for every input.

use vstd::prelude::*;
use crate::chart::{
    consonant_chart, consonant_symbols, consonants, lemma_first_index, lemma_no_index, vowel_chart,
    vowel_symbols,
};
use crate::phones::{decode, Consonant, Phone, Vowel, PLACEHOLDER};
use crate::pipeline::{pipeline_steps, transformed};
use crate::rewrite::{followed_by, substitute_if_followed_by};
use crate::rules::{lemma_run_settled, settled};
use crate::word::{decode_from, decode_word, encode_segment, encode_word, Segment, LENGTH_MARK};

verus! {

/// No two lines of the vowel chart hold the same point with the same
/// rounding.
pub proof fn lemma_vowel_lines_differ(i: int, j: int)
    requires
        0 <= i < j < vowel_chart().len(),
    ensures
        vowel_chart()[i].vowel() != vowel_chart()[j].vowel(),
{
}

/// No symbol stands on two lines of the vowel chart.
pub proof fn lemma_vowel_symbols_differ(i: int, j: int)
    requires
        0 <= i < j < vowel_chart().len(),
    ensures
        vowel_chart()[i].symbol != vowel_chart()[j].symbol,
{
}

/// No consonant stands on two lines of the consonant chart.
pub proof fn lemma_consonant_lines_differ(i: int, j: int)
    requires
        0 <= i < j < consonant_chart().len(),
    ensures
        consonant_chart()[i].consonant != consonant_chart()[j].consonant,
{
}

/// The front vowels of the chart are i, y, ɪ, ʏ, e, ø, ɛ, œ and æ, and no
/// others.
pub proof fn lemma_front_vowels_of_chart(i: int)
    requires
        0 <= i < vowel_chart().len(),
    ensures
        Phone::Vowel(vowel_chart()[i].vowel()).is_front_vowel() <==> {
            let c = vowel_chart()[i].symbol;
            c == 'i' || c == 'y' || c == 'ɪ' || c == 'ʏ' || c == 'e' || c == 'ø' || c == 'ɛ' || c
                == 'œ' || c == 'æ'
        },
{
}

/// Among the lines of the vowel chart before `n`, one is the nearest to `v`
/// with its rounding.
proof fn lemma_nearest_in_prefix(v: Vowel, n: int) -> (b: int)
    requires
        2 <= n <= vowel_chart().len(),
    ensures
        0 <= b < n,
        vowel_chart()[b].rounded == v.rounded,
        forall|j: int|
            0 <= j < n && (#[trigger] vowel_chart()[j]).rounded == v.rounded ==> if j < b {
                v.dist_sq_to(b) < v.dist_sq_to(j)
            } else {
                v.dist_sq_to(b) <= v.dist_sq_to(j)
            },
    decreases n,
{
    if n == 2 {
        assert(!vowel_chart()[0].rounded && vowel_chart()[1].rounded);
        if v.rounded {
            1
        } else {
            0
        }
    } else {
        let b = lemma_nearest_in_prefix(v, n - 1);
        if vowel_chart()[n - 1].rounded == v.rounded && v.dist_sq_to(n - 1) < v.dist_sq_to(b) {
            n - 1
        } else {
            b
        }
    }
}

/// Every vowel has a nearest line in the vowel chart, whatever its place and
/// rounding.
pub proof fn lemma_nearest_exists(v: Vowel)
    ensures
        v.is_nearest(v.nearest_index()),
{
    let b = lemma_nearest_in_prefix(v, vowel_chart().len() as int);
    assert(v.is_nearest(b));
}

/// Of two lines with the vowel's rounding, the later one is not chosen
/// when the earlier one is no farther: among lines at the same distance the
/// first in chart order wins, so that the symbol of a vowel depends on
/// nothing but the vowel.
pub proof fn lemma_tie_goes_to_first(v: Vowel, i: int, j: int)
    requires
        0 <= i < j < vowel_chart().len(),
        vowel_chart()[i].rounded == v.rounded,
        vowel_chart()[j].rounded == v.rounded,
        v.dist_sq_to(i) <= v.dist_sq_to(j),
    ensures
        v.nearest_index() != j,
{
    lemma_nearest_exists(v);
}

/// The vowel of a line of the vowel chart is written with the symbol of
/// that line.
pub proof fn lemma_vowel_line_symbol(i: int)
    requires
        0 <= i < vowel_chart().len(),
    ensures
        vowel_chart()[i].vowel().symbol() == vowel_chart()[i].symbol,
{
    let v = vowel_chart()[i].vowel();
    assert(v.dist_sq_to(i) == 0);
    assert forall|j: int|
        0 <= j < vowel_chart().len() && (#[trigger] vowel_chart()[j]).rounded == v.rounded implies if j
        < i {
        v.dist_sq_to(i) < v.dist_sq_to(j)
    } else {
        v.dist_sq_to(i) <= v.dist_sq_to(j)
    } by {
        let dx = vowel_chart()[j].pos.x - v.pos.x;
        let dy = vowel_chart()[j].pos.y - v.pos.y;
        assert(dx * dx >= 0 && dy * dy >= 0) by (nonlinear_arith);
        if j < i {
            lemma_vowel_lines_differ(j, i);
            assert(dx != 0 || dy != 0);
            assert(dx * dx + dy * dy > 0) by (nonlinear_arith)
                requires
                    dx != 0 || dy != 0,
            ;
        }
    }
    assert(v.is_nearest(i));
    lemma_nearest_exists(v);
    v.lemma_nearest_unique(i, v.nearest_index());
}

/// The consonant of a line of the consonant chart is written with the
/// symbol of that line.
pub proof fn lemma_consonant_line_symbol(i: int)
    requires
        0 <= i < consonant_chart().len(),
    ensures
        consonant_chart()[i].consonant.symbol() == consonant_chart()[i].symbol,
{
    let k = consonant_chart()[i].consonant;
    assert forall|j: int| 0 <= j < i implies consonants()[j] != k by {
        lemma_consonant_lines_differ(j, i);
    }
    lemma_first_index(consonants(), k, i);
}

/// A symbol of the vowel chart is read as the vowel of its line.
pub proof fn lemma_decode_vowel_line(i: int)
    requires
        0 <= i < vowel_chart().len(),
    ensures
        decode(vowel_chart()[i].symbol) == Some(Phone::Vowel(vowel_chart()[i].vowel())),
{
    let c = vowel_chart()[i].symbol;
    assert forall|j: int| 0 <= j < i implies vowel_symbols()[j] != c by {
        lemma_vowel_symbols_differ(j, i);
    }
    lemma_first_index(vowel_symbols(), c, i);
}

/// A symbol of the consonant chart is read as the consonant of the first
/// line that has it.
pub proof fn lemma_decode_consonant_line(i: int)
    requires
        0 <= i < consonant_chart().len(),
        forall|j: int|
            0 <= j < i ==> (#[trigger] consonant_chart()[j]).symbol != consonant_chart()[i].symbol,
    ensures
        decode(consonant_chart()[i].symbol) == Some(
            Phone::Consonant(consonant_chart()[i].consonant),
        ),
{
    let c = consonant_chart()[i].symbol;
    assert forall|j: int| 0 <= j < vowel_symbols().len() implies vowel_symbols()[j] != c by {}
    lemma_no_index(vowel_symbols(), c);
    assert forall|j: int| 0 <= j < i implies consonant_symbols()[j] != c by {
        assert(consonant_chart()[j].symbol != c);
    }
    lemma_first_index(consonant_symbols(), c, i);
}

/// A symbol that stands in neither chart is read as nothing.
pub proof fn lemma_decode_unknown(c: char)
    requires
        forall|i: int| 0 <= i < vowel_chart().len() ==> (#[trigger] vowel_chart()[i]).symbol != c,
        forall|i: int|
            0 <= i < consonant_chart().len() ==> (#[trigger] consonant_chart()[i]).symbol != c,
    ensures
        decode(c) is None,
{
    assert forall|j: int| 0 <= j < vowel_symbols().len() implies vowel_symbols()[j] != c by {
        assert(vowel_chart()[j].symbol != c);
    }
    lemma_no_index(vowel_symbols(), c);
    assert forall|j: int| 0 <= j < consonant_symbols().len() implies consonant_symbols()[j]
        != c by {
        assert(consonant_chart()[j].symbol != c);
    }
    lemma_no_index(consonant_symbols(), c);
}

/// Every symbol of the two charts is read as a phone, and writing that phone
/// gives the symbol back.
pub proof fn lemma_round_trip(c: char)
    requires
        vowel_symbols().contains(c) || consonant_symbols().contains(c),
    ensures
        decode(c) is Some,
        decode(c)->0.symbol() == c,
{
    vowel_symbols().index_of_first_ensures(c);
    consonant_symbols().index_of_first_ensures(c);
    match vowel_symbols().index_of_first(c) {
        Some(i) => {
            lemma_vowel_line_symbol(i);
        },
        None => {
            let i = consonant_symbols().index_of_first(c)->0;
            lemma_consonant_line_symbol(i);
        },
    }
}

/// A symbol is read as a phone exactly when it stands in one of the charts.
pub proof fn lemma_known_symbols(c: char)
    ensures
        decode(c) is Some <==> vowel_symbols().contains(c) || consonant_symbols().contains(c),
{
    vowel_symbols().index_of_first_ensures(c);
    consonant_symbols().index_of_first_ensures(c);
}

/// A consonant that stands on no line of the chart is written with the
/// placeholder.
pub proof fn lemma_consonant_without_line(k: Consonant)
    requires
        forall|i: int|
            0 <= i < consonant_chart().len() ==> (#[trigger] consonant_chart()[i]).consonant != k,
    ensures
        k.symbol() == PLACEHOLDER,
{
    assert forall|j: int| 0 <= j < consonants().len() implies consonants()[j] != k by {
        assert(consonant_chart()[j].consonant != k);
    }
    lemma_no_index(consonants(), k);
}

/// Writing a consonant of the chart and reading the symbol gives the
/// consonant back exactly when no earlier line of the chart has its symbol.
pub proof fn lemma_consonant_read_back(i: int)
    requires
        0 <= i < consonant_chart().len(),
    ensures
        decode(consonant_chart()[i].consonant.symbol()) == Some(
            Phone::Consonant(consonant_chart()[i].consonant),
        ) <==> forall|j: int|
            0 <= j < i ==> (#[trigger] consonant_chart()[j]).symbol != consonant_chart()[i].symbol,
{
    let c = consonant_chart()[i].symbol;
    lemma_consonant_line_symbol(i);
    vowel_symbols().index_of_first_ensures(c);
    consonant_symbols().index_of_first_ensures(c);
    assert(consonant_symbols()[i] == c);
    assert(vowel_symbols().index_of_first(c) is None) by {
        assert forall|j: int| 0 <= j < vowel_symbols().len() implies vowel_symbols()[j] != c by {}
        lemma_no_index(vowel_symbols(), c);
    }
    let f = consonant_symbols().index_of_first(c)->0;
    if forall|j: int|
        0 <= j < i ==> (#[trigger] consonant_chart()[j]).symbol != consonant_chart()[i].symbol {
        if f < i {
            assert(consonant_chart()[f].symbol == c);
        }
        assert(f == i);
    } else {
        let j = choose|j: int|
            0 <= j < i && (#[trigger] consonant_chart()[j]).symbol == consonant_chart()[i].symbol;
        assert(consonant_symbols()[j] == c);
        assert(f < i);
        lemma_consonant_lines_differ(f, i);
    }
}

/// What is written for a segment followed by a word is what is written for
/// the segment, followed by what is written for the word.
proof fn lemma_encode_cons(seg: Segment, rest: Seq<Segment>)
    ensures
        encode_word(seq![seg] + rest) == encode_segment(seg) + encode_word(rest),
{
    let f = |s: Segment| encode_segment(s);
    let parts = (seq![seg] + rest).map_values(f);
    assert(parts.first() == encode_segment(seg));
    assert(parts.drop_first() =~= rest.map_values(f));
}

/// What was read from a transcription from place `i` on is written as the
/// transcription from place `i` on.
proof fn lemma_encode_decode_from(s: Seq<char>, i: int)
    requires
        0 <= i <= s.len(),
        decode_from(s, i) is Ok,
    ensures
        encode_word(decode_from(s, i)->Ok_0) == s.skip(i),
    decreases s.len() - i,
{
    if i >= s.len() {
        assert(s.skip(i) =~= Seq::<char>::empty());
        assert(Seq::<Segment>::empty().map_values(|s: Segment| encode_segment(s))
            =~= Seq::<Seq<char>>::empty());
    } else {
        let is_long = i + 1 < s.len() && s[i + 1] == LENGTH_MARK;
        let next = if is_long {
            i + 2
        } else {
            i + 1
        };
        let phone = decode(s[i])->0;
        let seg = Segment { phone, is_long };
        let rest = decode_from(s, next)->Ok_0;
        lemma_encode_decode_from(s, next);
        lemma_encode_cons(seg, rest);
        lemma_known_symbols(s[i]);
        lemma_round_trip(s[i]);
        assert(encode_segment(seg) + s.skip(next) =~= s.skip(i));
    }
}

/// Reading a transcription and writing the word that was read gives the
/// transcription back.
pub proof fn lemma_word_round_trip(s: Seq<char>)
    requires
        decode_word(s) is Ok,
    ensures
        encode_word(decode_word(s)->Ok_0) == s,
{
    lemma_encode_decode_from(s, 0);
    assert(s.skip(0) =~= s);
}

/// A context that would reach past the end of the word never matches: the
/// segment at such a place stays as it is, whatever the target, even where
/// the word ends with a beginning of the context. Nothing wraps round to
/// the start of the word.
pub proof fn lemma_context_past_end(
    w: Seq<Segment>,
    target: Segment,
    replacement: Phone,
    context: Seq<Segment>,
    i: int,
)
    requires
        0 <= i < w.len(),
        i + 1 + context.len() > w.len(),
    ensures
        !followed_by(w, i, context),
        substitute_if_followed_by(w, target, replacement, context)[i] == w[i],
{
}

/// A context matches at a place exactly when the segments after that place,
/// as many as the context has, are the context.
pub proof fn lemma_context_is_exact(w: Seq<Segment>, i: int, context: Seq<Segment>)
    requires
        0 <= i < w.len(),
    ensures
        followed_by(w, i, context) <==> i + 1 + context.len() <= w.len() && w.subrange(
            i + 1,
            i + 1 + context.len(),
        ) == context,
{
    if i + 1 + context.len() <= w.len() {
        let tail = w.subrange(i + 1, i + 1 + context.len());
        if followed_by(w, i, context) {
            assert(tail =~= context);
        }
        if tail == context {
            assert forall|j: int| 0 <= j < context.len() implies w[i + 1 + j]
                == #[trigger] context[j] by {
                assert(tail[j] == w[i + 1 + j]);
            }
        }
    }
}

/// Going through the chain of sound changes a second time changes nothing
/// where the first time left a word in which no step of the chain finds
/// anything to rewrite.
pub proof fn lemma_transform_twice(w: Seq<Segment>)
    requires
        settled(pipeline_steps(), transformed(w)),
    ensures
        transformed(transformed(w)) == transformed(w),
{
    lemma_run_settled(pipeline_steps(), transformed(w));
}

} // verus!
