//! The rewrite passes over a word. Each pass walks the word once from left to
//! right and decides every place by the word as it was before the pass.
//!
//! A target and the segments of a context name a phone and a length: they
//! match a place of the word that holds that phone with that length.

use vstd::prelude::*;
use crate::phones::Phone;
use crate::word::{Segment, Word};

verus! {

/// `s` with its phone exchanged for `replacement`. The length mark stays.
pub open spec fn with_phone(s: Segment, replacement: Phone) -> Segment {
    Segment { phone: replacement, is_long: s.is_long }
}

/// The phones `phones` as short segments.
pub open spec fn short(phones: Seq<Phone>) -> Seq<Segment> {
    phones.map_values(|p: Phone| Segment { phone: p, is_long: false })
}

/// Every segment equal to `target` gets the phone `replacement` and keeps its
/// length mark. The others stay.
pub open spec fn substitute(w: Seq<Segment>, target: Segment, replacement: Phone) -> Seq<Segment> {
    w.map_values(
        |s: Segment|
            if s == target {
                with_phone(s, replacement)
            } else {
                s
            },
    )
}

/// What one segment becomes when `target` is expanded: the phones
/// `replacements`, all short, where it equals `target`, and itself otherwise.
pub open spec fn expansion(s: Segment, target: Segment, replacements: Seq<Phone>) -> Seq<Segment> {
    if s == target {
        short(replacements)
    } else {
        seq![s]
    }
}

/// Every segment equal to `target` gives way to the phones `replacements`,
/// in their order and all short. The others stay, in their order.
pub open spec fn expand(w: Seq<Segment>, target: Segment, replacements: Seq<Phone>) -> Seq<
    Segment,
> {
    w.flat_map(|s: Segment| expansion(s, target, replacements))
}

/// The segments of `context` stand in `w` right after place `i`, all of them
/// and in their order. A context that would reach past the end of the word
/// does not stand there.
pub open spec fn followed_by(w: Seq<Segment>, i: int, context: Seq<Segment>) -> bool {
    &&& i + 1 + context.len() <= w.len()
    &&& forall|j: int| 0 <= j < context.len() ==> w[i + 1 + j] == #[trigger] context[j]
}

/// Every segment equal to `target` that `context` follows gets the phone
/// `replacement` and keeps its length mark. The others stay.
pub open spec fn substitute_if_followed_by(
    w: Seq<Segment>,
    target: Segment,
    replacement: Phone,
    context: Seq<Segment>,
) -> Seq<Segment> {
    Seq::new(
        w.len(),
        |i: int|
            if w[i] == target && followed_by(w, i, context) {
                with_phone(w[i], replacement)
            } else {
                w[i]
            },
    )
}

/// A front vowel, long or short, stands in `w` right after place `i`.
pub open spec fn followed_by_front_vowel(w: Seq<Segment>, i: int) -> bool {
    i + 1 < w.len() && w[i + 1].phone.is_front_vowel()
}

/// Every segment equal to `target` that a front vowel follows gets the phone
/// `replacement` and keeps its length mark. The others stay.
pub open spec fn substitute_if_followed_by_front_vowel(
    w: Seq<Segment>,
    target: Segment,
    replacement: Phone,
) -> Seq<Segment> {
    Seq::new(
        w.len(),
        |i: int|
            if w[i] == target && followed_by_front_vowel(w, i) {
                with_phone(w[i], replacement)
            } else {
                w[i]
            },
    )
}

/// Where the word begins with a segment equal to `target`, that segment
/// gives way to the phones `replacements`, all short. Nothing else changes,
/// and a word that begins otherwise, or is empty, stays as it is.
pub open spec fn substitute_at_word_start(
    w: Seq<Segment>,
    target: Segment,
    replacements: Seq<Phone>,
) -> Seq<Segment> {
    if w.len() > 0 && w[0] == target {
        short(replacements) + w.skip(1)
    } else {
        w
    }
}

/// Expanding a target that does not stand in the word leaves the word as it
/// is.
pub proof fn lemma_expand_absent(w: Seq<Segment>, target: Segment, replacements: Seq<Phone>)
    requires
        !w.contains(target),
    ensures
        expand(w, target, replacements) == w,
    decreases w.len(),
{
    let f = |s: Segment| expansion(s, target, replacements);
    if w.len() == 0 {
        assert(w.map_values(f) =~= Seq::<Seq<Segment>>::empty());
        assert(expand(w, target, replacements) =~= w);
    } else {
        let head = w.drop_last();
        assert forall|i: int| 0 <= i < head.len() implies head[i] != target by {
            assert(w[i] == head[i]);
        }
        lemma_expand_absent(head, target, replacements);
        assert(w.last() != target);
        assert(w.map_values(f) =~= head.map_values(f).push(f(w.last())));
        head.map_values(f).lemma_flatten_push(f(w.last()));
        assert(head + seq![w.last()] =~= w);
    }
}

impl Word {
    /// Whether the segments `before` stand in the word right after place
    /// `i`, all of them and in their order.
    pub fn is_followed_by(&self, i: usize, before: &[Segment]) -> (b: bool)
        ensures
            b == followed_by(self@, i as int, before@),
    {
        let n = self.phones.len();
        let m = before.len();
        if i >= n || m > n - i - 1 {
            return false;
        }
        let mut j: usize = 0;
        while j < m
            invariant
                j <= m,
                m == before@.len(),
                n == self@.len(),
                i + 1 + m <= n,
                forall|k: int| 0 <= k < j ==> self@[i + 1 + k] == #[trigger] before@[k],
            decreases m - j,
        {
            if self.phones[i + 1 + j] != before[j] {
                return false;
            }
            j += 1;
        }
        true
    }

    /// Gives every segment equal to `a` the phone `b`. A segment that is
    /// changed keeps its length mark.
    pub fn replace(&mut self, a: Segment, b: Phone)
        ensures
            final(self)@ == substitute(old(self)@, a, b),
    {
        let n = self.phones.len();
        let mut i: usize = 0;
        while i < n
            invariant
                i <= n,
                n == old(self)@.len(),
                self@.len() == n,
                forall|k: int| 0 <= k < i ==> self@[k] == substitute(old(self)@, a, b)[k],
                forall|k: int| i <= k < n ==> self@[k] == old(self)@[k],
            decreases n - i,
        {
            let s = self.phones[i];
            if s == a {
                self.phones.set(i, Segment { phone: b, is_long: s.is_long });
            }
            i += 1;
        }
        assert(self@ =~= substitute(old(self)@, a, b));
    }

    /// Puts the phones `b`, as short segments, in the place of every segment
    /// equal to `a`.
    pub fn replace_sequence(&mut self, a: Segment, b: &[Phone])
        ensures
            final(self)@ == expand(old(self)@, a, b@),
    {
        let n = self.phones.len();
        let m = b.len();
        let mut phones: Vec<Segment> = Vec::new();
        let mut i: usize = 0;
        assert(self@.take(0) =~= Seq::<Segment>::empty());
        while i < n
            invariant
                i <= n,
                n == self@.len(),
                m == b@.len(),
                self@ == old(self)@,
                phones@ == expand(self@.take(i as int), a, b@),
            decreases n - i,
        {
            let s = self.phones[i];
            let ghost before = phones@;
            if s == a {
                let mut j: usize = 0;
                while j < m
                    invariant
                        j <= m,
                        m == b@.len(),
                        phones@ == before + short(b@.take(j as int)),
                    decreases m - j,
                {
                    phones.push(Segment { phone: b[j], is_long: false });
                    proof {
                        assert(b@.take(j + 1) =~= b@.take(j as int).push(b@[j as int]));
                        assert(phones@ =~= before + short(b@.take(j + 1)));
                    }
                    j += 1;
                }
                assert(b@.take(m as int) =~= b@);
            } else {
                phones.push(s);
                assert(phones@ =~= before + seq![s]);
            }
            proof {
                let f = |s: Segment| expansion(s, a, b@);
                let head = self@.take(i as int);
                assert(self@.take(i + 1) =~= head.push(s));
                assert(head.push(s).map_values(f) =~= head.map_values(f).push(f(s)));
                head.map_values(f).lemma_flatten_push(f(s));
            }
            i += 1;
        }
        proof {
            assert(self@.take(n as int) =~= self@);
        }
        self.phones = phones;
    }

    /// Gives every segment equal to `a` the phone `b` where the segments
    /// `before` follow it at once, all of them and in their order. A segment
    /// that is changed keeps its length mark.
    pub fn replace_before(&mut self, a: Segment, b: Phone, before: &[Segment])
        ensures
            final(self)@ == substitute_if_followed_by(old(self)@, a, b, before@),
    {
        let n = self.phones.len();
        let mut i: usize = 0;
        while i < n
            invariant
                i <= n,
                n == old(self)@.len(),
                self@.len() == n,
                forall|k: int|
                    0 <= k < i ==> self@[k] == substitute_if_followed_by(
                        old(self)@,
                        a,
                        b,
                        before@,
                    )[k],
                forall|k: int| i <= k < n ==> self@[k] == old(self)@[k],
            decreases n - i,
        {
            let s = self.phones[i];
            if s == a {
                let found = self.is_followed_by(i, before);
                assert(found == followed_by(old(self)@, i as int, before@));
                if found {
                    self.phones.set(i, Segment { phone: b, is_long: s.is_long });
                }
            }
            i += 1;
        }
        assert(self@ =~= substitute_if_followed_by(old(self)@, a, b, before@));
    }

    /// Gives every segment equal to `a` the phone `b` where a front vowel
    /// follows it at once. A segment that is changed keeps its length mark.
    pub fn replace_before_front(&mut self, a: Segment, b: Phone)
        ensures
            final(self)@ == substitute_if_followed_by_front_vowel(old(self)@, a, b),
    {
        let n = self.phones.len();
        let mut i: usize = 0;
        while i < n
            invariant
                i <= n,
                n == old(self)@.len(),
                self@.len() == n,
                forall|k: int|
                    0 <= k < i ==> self@[k] == substitute_if_followed_by_front_vowel(
                        old(self)@,
                        a,
                        b,
                    )[k],
                forall|k: int| i <= k < n ==> self@[k] == old(self)@[k],
            decreases n - i,
        {
            let s = self.phones[i];
            if s == a {
                if i + 1 < n {
                    if self.phones[i + 1].phone.is_front_vowel() {
                        self.phones.set(i, Segment { phone: b, is_long: s.is_long });
                    }
                }
            }
            i += 1;
        }
        assert(self@ =~= substitute_if_followed_by_front_vowel(old(self)@, a, b));
    }

    /// Where the word begins with a segment equal to `a`, puts the phones
    /// `b`, as short segments, in its place. Looks at the first place only;
    /// an empty word stays empty.
    pub fn replace_sequence_initial(&mut self, a: Segment, b: &[Phone])
        ensures
            final(self)@ == substitute_at_word_start(old(self)@, a, b@),
    {
        let n = self.phones.len();
        if n == 0 || self.phones[0] != a {
            return ;
        }
        let m = b.len();
        let mut phones: Vec<Segment> = Vec::new();
        let mut j: usize = 0;
        while j < m
            invariant
                j <= m,
                m == b@.len(),
                phones@ == short(b@.take(j as int)),
            decreases m - j,
        {
            phones.push(Segment { phone: b[j], is_long: false });
            proof {
                assert(b@.take(j + 1) =~= b@.take(j as int).push(b@[j as int]));
                assert(phones@ =~= short(b@.take(j + 1)));
            }
            j += 1;
        }
        assert(b@.take(m as int) =~= b@);
        let mut i: usize = 1;
        while i < n
            invariant
                1 <= i <= n,
                n == self@.len(),
                self@ == old(self)@,
                phones@ == short(b@) + self@.subrange(1, i as int),
            decreases n - i,
        {
            phones.push(self.phones[i]);
            assert(phones@ =~= short(b@) + self@.subrange(1, i + 1));
            i += 1;
        }
        assert(self@.subrange(1, n as int) =~= self@.skip(1));
        self.phones = phones;
    }
}

} // verus!
