//! Sound changes as data: rules, the steps that group them, and the chain of
//! steps that a word goes through.

use vstd::prelude::*;
use crate::phones::Phone;
use crate::rewrite::{
    expand, followed_by, followed_by_front_vowel, lemma_expand_absent, substitute,
    substitute_at_word_start, substitute_if_followed_by, substitute_if_followed_by_front_vowel,
};
use crate::word::{Segment, Word};

verus! {

/// One rewrite pass with its operands.
#[derive(Debug, PartialEq, Eq)]
pub enum Rule {
    /// `target` becomes `replacement` wherever it stands.
    Substitute { target: Segment, replacement: Phone },
    /// `target` gives way to `replacements` wherever it stands.
    Expand { target: Segment, replacements: Vec<Phone> },
    /// `target` becomes `replacement` where `context` follows it.
    SubstituteIfFollowedBy { target: Segment, replacement: Phone, context: Vec<Segment> },
    /// `target` becomes `replacement` where a front vowel follows it.
    SubstituteIfFollowedByFrontVowel { target: Segment, replacement: Phone },
    /// `target` gives way to `replacements` where it begins the word.
    SubstituteAtWordStart { target: Segment, replacements: Vec<Phone> },
}

/// A rule as a mathematical value.
pub enum RuleView {
    Substitute { target: Segment, replacement: Phone },
    Expand { target: Segment, replacements: Seq<Phone> },
    SubstituteIfFollowedBy { target: Segment, replacement: Phone, context: Seq<Segment> },
    SubstituteIfFollowedByFrontVowel { target: Segment, replacement: Phone },
    SubstituteAtWordStart { target: Segment, replacements: Seq<Phone> },
}

impl View for Rule {
    type V = RuleView;

    open spec fn view(&self) -> RuleView {
        match *self {
            Rule::Substitute { target, replacement } => RuleView::Substitute {
                target,
                replacement,
            },
            Rule::Expand { target, replacements } => RuleView::Expand {
                target,
                replacements: replacements@,
            },
            Rule::SubstituteIfFollowedBy {
                target,
                replacement,
                context,
            } => RuleView::SubstituteIfFollowedBy { target, replacement, context: context@ },
            Rule::SubstituteIfFollowedByFrontVowel {
                target,
                replacement,
            } => RuleView::SubstituteIfFollowedByFrontVowel { target, replacement },
            Rule::SubstituteAtWordStart {
                target,
                replacements,
            } => RuleView::SubstituteAtWordStart { target, replacements: replacements@ },
        }
    }
}

impl RuleView {
    /// The word that this rule makes of `w`.
    pub open spec fn apply(self, w: Seq<Segment>) -> Seq<Segment> {
        match self {
            RuleView::Substitute { target, replacement } => substitute(w, target, replacement),
            RuleView::Expand { target, replacements } => expand(w, target, replacements),
            RuleView::SubstituteIfFollowedBy {
                target,
                replacement,
                context,
            } => substitute_if_followed_by(w, target, replacement, context),
            RuleView::SubstituteIfFollowedByFrontVowel {
                target,
                replacement,
            } => substitute_if_followed_by_front_vowel(w, target, replacement),
            RuleView::SubstituteAtWordStart {
                target,
                replacements,
            } => substitute_at_word_start(w, target, replacements),
        }
    }

    /// The rule finds something to rewrite in `w`: its target stands in `w`
    /// at a place where the rule's condition holds.
    pub open spec fn matches(self, w: Seq<Segment>) -> bool {
        match self {
            RuleView::Substitute { target, replacement } => w.contains(target),
            RuleView::Expand { target, replacements } => w.contains(target),
            RuleView::SubstituteIfFollowedBy { target, replacement, context } => exists|i: int|
                0 <= i < w.len() && #[trigger] w[i] == target && followed_by(w, i, context),
            RuleView::SubstituteIfFollowedByFrontVowel { target, replacement } => exists|i: int|
                0 <= i < w.len() && #[trigger] w[i] == target && followed_by_front_vowel(w, i),
            RuleView::SubstituteAtWordStart { target, replacements } => w.len() > 0 && w[0]
                == target,
        }
    }
}

/// The word that the rules `rules`, applied one after the other, make of
/// `w`. Each rule works on what the one before it left.
pub open spec fn apply_rules(rules: Seq<RuleView>, w: Seq<Segment>) -> Seq<Segment> {
    rules.fold_left(w, |acc: Seq<Segment>, r: RuleView| r.apply(acc))
}

/// The views of the rules `rules`, in order.
pub open spec fn rule_views(rules: Seq<Rule>) -> Seq<RuleView> {
    rules.map_values(|r: Rule| r@)
}

/// One step of a chain of sound changes: rules that belong together, and
/// the phones whose presence in the word the step waits for.
#[derive(Debug, PartialEq, Eq)]
pub struct Step {
    /// The step is taken where the word holds one of these phones, long or
    /// short, at any place. With no triggers it is always taken.
    pub triggers: Vec<Phone>,
    /// The rules of the step, in the order in which they are applied.
    pub rules: Vec<Rule>,
}

/// A step as a mathematical value.
pub struct StepView {
    pub triggers: Seq<Phone>,
    pub rules: Seq<RuleView>,
}

impl View for Step {
    type V = StepView;

    open spec fn view(&self) -> StepView {
        StepView { triggers: self.triggers@, rules: rule_views(self.rules@) }
    }
}

/// The word `w` holds the phone `p`, long or short.
pub open spec fn has_phone(w: Seq<Segment>, p: Phone) -> bool {
    exists|i: int| 0 <= i < w.len() && (#[trigger] w[i]).phone == p
}

impl StepView {
    /// The step is taken on `w`: it has no triggers, or `w` holds one of
    /// them.
    pub open spec fn triggered(self, w: Seq<Segment>) -> bool {
        self.triggers.len() == 0 || exists|k: int|
            0 <= k < self.triggers.len() && has_phone(w, #[trigger] self.triggers[k])
    }

    /// The word that this step makes of `w`: where the step is taken, what
    /// its rules make of `w` one after the other; else `w`.
    pub open spec fn apply(self, w: Seq<Segment>) -> Seq<Segment> {
        if self.triggered(w) {
            apply_rules(self.rules, w)
        } else {
            w
        }
    }

    /// The step is taken on `w` and one of its rules finds something to
    /// rewrite in `w`.
    pub open spec fn matches(self, w: Seq<Segment>) -> bool {
        self.triggered(w) && exists|k: int|
            0 <= k < self.rules.len() && (#[trigger] self.rules[k]).matches(w)
    }
}

/// The views of the steps `steps`, in order.
pub open spec fn step_views(steps: Seq<Step>) -> Seq<StepView> {
    steps.map_values(|s: Step| s@)
}

/// The word that the steps `steps`, gone through once from first to last,
/// make of `w`. Each step works on what the one before it left.
pub open spec fn run(steps: Seq<StepView>, w: Seq<Segment>) -> Seq<Segment> {
    steps.fold_left(w, |acc: Seq<Segment>, s: StepView| s.apply(acc))
}

/// No step of `steps` finds anything to rewrite in `w`.
pub open spec fn settled(steps: Seq<StepView>, w: Seq<Segment>) -> bool {
    forall|k: int| 0 <= k < steps.len() ==> !(#[trigger] steps[k]).matches(w)
}

/// A rule that finds nothing to rewrite in a word leaves the word as it is.
pub proof fn lemma_rule_without_match(r: RuleView, w: Seq<Segment>)
    requires
        !r.matches(w),
    ensures
        r.apply(w) == w,
{
    match r {
        RuleView::Substitute { target, replacement } => {
            assert forall|i: int| 0 <= i < w.len() implies w[i] != target by {}
            assert(r.apply(w) =~= w);
        },
        RuleView::Expand { target, replacements } => {
            lemma_expand_absent(w, target, replacements);
        },
        RuleView::SubstituteIfFollowedBy { target, replacement, context } => {
            assert(r.apply(w) =~= w);
        },
        RuleView::SubstituteIfFollowedByFrontVowel { target, replacement } => {
            assert(r.apply(w) =~= w);
        },
        RuleView::SubstituteAtWordStart { target, replacements } => {},
    }
}

/// Rules of which none finds anything to rewrite in a word leave the word
/// as it is.
pub proof fn lemma_rules_without_match(rules: Seq<RuleView>, w: Seq<Segment>)
    requires
        forall|k: int| 0 <= k < rules.len() ==> !(#[trigger] rules[k]).matches(w),
    ensures
        apply_rules(rules, w) == w,
    decreases rules.len(),
{
    if rules.len() > 0 {
        let head = rules.drop_last();
        assert forall|k: int| 0 <= k < head.len() implies !(#[trigger] head[k]).matches(w) by {
            assert(head[k] == rules[k]);
        }
        lemma_rules_without_match(head, w);
        lemma_rule_without_match(rules.last(), w);
    }
}

/// A step that finds nothing to rewrite in a word leaves the word as it is.
pub proof fn lemma_step_without_match(s: StepView, w: Seq<Segment>)
    requires
        !s.matches(w),
    ensures
        s.apply(w) == w,
{
    if s.triggered(w) {
        lemma_rules_without_match(s.rules, w);
    }
}

/// Steps of which none finds anything to rewrite in a word leave the word
/// as it is.
pub proof fn lemma_run_settled(steps: Seq<StepView>, w: Seq<Segment>)
    requires
        settled(steps, w),
    ensures
        run(steps, w) == w,
    decreases steps.len(),
{
    if steps.len() > 0 {
        let head = steps.drop_last();
        assert forall|k: int| 0 <= k < head.len() implies !(#[trigger] head[k]).matches(w) by {
            assert(head[k] == steps[k]);
        }
        lemma_run_settled(head, w);
        lemma_step_without_match(steps.last(), w);
    }
}

impl Word {
    /// Whether the word holds the phone `p`, long or short.
    pub fn contains_phone(&self, p: Phone) -> (b: bool)
        ensures
            b == has_phone(self@, p),
    {
        let n = self.phones.len();
        let mut i: usize = 0;
        while i < n
            invariant
                i <= n,
                n == self@.len(),
                forall|k: int| 0 <= k < i ==> (#[trigger] self@[k]).phone != p,
            decreases n - i,
        {
            if self.phones[i].phone == p {
                return true;
            }
            i += 1;
        }
        false
    }

    /// Whether the word holds the segment `target`.
    fn contains_segment(&self, target: Segment) -> (b: bool)
        ensures
            b == self@.contains(target),
    {
        let n = self.phones.len();
        let mut i: usize = 0;
        while i < n
            invariant
                i <= n,
                n == self@.len(),
                forall|k: int| 0 <= k < i ==> self@[k] != target,
            decreases n - i,
        {
            if self.phones[i] == target {
                return true;
            }
            i += 1;
        }
        false
    }

    /// Whether the rule finds something to rewrite in the word.
    pub fn matches(&self, rule: &Rule) -> (b: bool)
        ensures
            b == rule@.matches(self@),
    {
        let n = self.phones.len();
        match rule {
            Rule::Substitute { target, replacement } => self.contains_segment(*target),
            Rule::Expand { target, replacements } => self.contains_segment(*target),
            Rule::SubstituteIfFollowedBy { target, replacement, context } => {
                let mut i: usize = 0;
                while i < n
                    invariant
                        i <= n,
                        n == self@.len(),
                        rule@ == (RuleView::SubstituteIfFollowedBy {
                            target: *target,
                            replacement: *replacement,
                            context: context@,
                        }),
                        forall|k: int|
                            0 <= k < i ==> !(#[trigger] self@[k] == *target && followed_by(
                                self@,
                                k,
                                context@,
                            )),
                    decreases n - i,
                {
                    if self.phones[i] == *target && self.is_followed_by(i, context.as_slice()) {
                        assert(self@[i as int] == *target && followed_by(
                            self@,
                            i as int,
                            context@,
                        ));
                        return true;
                    }
                    i += 1;
                }
                false
            },
            Rule::SubstituteIfFollowedByFrontVowel { target, replacement } => {
                let mut i: usize = 0;
                while i < n
                    invariant
                        i <= n,
                        n == self@.len(),
                        rule@ == (RuleView::SubstituteIfFollowedByFrontVowel {
                            target: *target,
                            replacement: *replacement,
                        }),
                        forall|k: int|
                            0 <= k < i ==> !(#[trigger] self@[k] == *target
                                && followed_by_front_vowel(self@, k)),
                    decreases n - i,
                {
                    if self.phones[i] == *target && i + 1 < n && self.phones[i
                        + 1].phone.is_front_vowel() {
                        assert(self@[i as int] == *target && followed_by_front_vowel(
                            self@,
                            i as int,
                        ));
                        return true;
                    }
                    i += 1;
                }
                false
            },
            Rule::SubstituteAtWordStart { target, replacements } => n > 0 && self.phones[0]
                == *target,
        }
    }

    /// Whether the step is taken on the word: it has no triggers, or the
    /// word holds one of them.
    pub fn is_triggered(&self, step: &Step) -> (b: bool)
        ensures
            b == step@.triggered(self@),
    {
        let t = step.triggers.len();
        if t == 0 {
            return true;
        }
        let mut k: usize = 0;
        while k < t
            invariant
                k <= t,
                t == step.triggers@.len(),
                forall|j: int| 0 <= j < k ==> !has_phone(self@, #[trigger] step.triggers@[j]),
            decreases t - k,
        {
            if self.contains_phone(step.triggers[k]) {
                return true;
            }
            k += 1;
        }
        false
    }

    /// Whether the step is taken on the word and one of its rules finds
    /// something to rewrite in it.
    pub fn step_matches(&self, step: &Step) -> (b: bool)
        ensures
            b == step@.matches(self@),
    {
        if !self.is_triggered(step) {
            return false;
        }
        let n = step.rules.len();
        let mut i: usize = 0;
        while i < n
            invariant
                i <= n,
                n == step.rules@.len(),
                step@.triggered(self@),
                forall|k: int| 0 <= k < i ==> !(#[trigger] step@.rules[k]).matches(self@),
            decreases n - i,
        {
            if self.matches(&step.rules[i]) {
                assert(step@.rules[i as int].matches(self@));
                return true;
            }
            i += 1;
        }
        false
    }

    /// Whether no step of `steps` finds anything to rewrite in the word.
    /// Going through the steps leaves such a word as it is.
    pub fn is_settled(&self, steps: &[Step]) -> (b: bool)
        ensures
            b == settled(step_views(steps@), self@),
            b ==> run(step_views(steps@), self@) == self@,
    {
        let n = steps.len();
        let mut i: usize = 0;
        while i < n
            invariant
                i <= n,
                n == steps@.len(),
                forall|k: int| 0 <= k < i ==> !(#[trigger] step_views(steps@)[k]).matches(self@),
            decreases n - i,
        {
            if self.step_matches(&steps[i]) {
                assert(step_views(steps@)[i as int].matches(self@));
                return false;
            }
            i += 1;
        }
        proof {
            lemma_run_settled(step_views(steps@), self@);
        }
        true
    }

    /// Applies one rule to the word.
    pub fn apply(&mut self, rule: &Rule)
        ensures
            final(self)@ == rule@.apply(old(self)@),
    {
        match rule {
            Rule::Substitute { target, replacement } => self.replace(*target, *replacement),
            Rule::Expand { target, replacements } => self.replace_sequence(
                *target,
                replacements.as_slice(),
            ),
            Rule::SubstituteIfFollowedBy { target, replacement, context } => self.replace_before(
                *target,
                *replacement,
                context.as_slice(),
            ),
            Rule::SubstituteIfFollowedByFrontVowel {
                target,
                replacement,
            } => self.replace_before_front(*target, *replacement),
            Rule::SubstituteAtWordStart { target, replacements } => self.replace_sequence_initial(
                *target,
                replacements.as_slice(),
            ),
        }
    }

    /// Applies one step to the word: where the step is taken, its rules one
    /// after the other; else nothing.
    pub fn apply_step(&mut self, step: &Step)
        ensures
            final(self)@ == step@.apply(old(self)@),
    {
        if !self.is_triggered(step) {
            return ;
        }
        let n = step.rules.len();
        let mut i: usize = 0;
        assert(step@.rules.take(0) =~= Seq::<RuleView>::empty());
        while i < n
            invariant
                i <= n,
                n == step.rules@.len(),
                n == step@.rules.len(),
                self@ == apply_rules(step@.rules.take(i as int), old(self)@),
            decreases n - i,
        {
            assert(step@.rules.take(i + 1).drop_last() =~= step@.rules.take(i as int));
            self.apply(&step.rules[i]);
            i += 1;
        }
        assert(step@.rules.take(n as int) =~= step@.rules);
    }

    /// Takes the word through the steps `steps`, once, from first to last.
    pub fn run(&mut self, steps: &[Step])
        ensures
            final(self)@ == run(step_views(steps@), old(self)@),
    {
        let n = steps.len();
        let ghost all = step_views(steps@);
        let mut i: usize = 0;
        assert(all.take(0) =~= Seq::<StepView>::empty());
        while i < n
            invariant
                i <= n,
                n == steps@.len(),
                all == step_views(steps@),
                self@ == run(all.take(i as int), old(self)@),
            decreases n - i,
        {
            assert(all.take(i + 1).drop_last() =~= all.take(i as int));
            self.apply_step(&steps[i]);
            i += 1;
        }
        assert(all.take(n as int) =~= all);
    }
}

} // verus!
