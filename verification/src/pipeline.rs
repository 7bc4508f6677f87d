//! The chain of sound changes that `Word::transform` takes a word through.

use vstd::prelude::*;
use crate::chart::{consonant_symbols, vowel_symbols};
use crate::phones::{decode, Phone};
use crate::rules::{rule_views, run, step_views, Rule, RuleView, Step, StepView};
use crate::word::{Segment, Word};

verus! {

/// The phone that the symbol `c` stands for.
pub open spec fn sound(c: char) -> Phone
    recommends
        decode(c) is Some,
{
    decode(c)->0
}

/// ɧ falls in with s.
pub open spec fn merge_sibilant() -> StepView {
    StepView {
        triggers: seq![],
        rules: seq![
            RuleView::Substitute { target: Segment::short(sound('ɧ')), replacement: sound('s') },
        ],
    }
}

/// Each of the five retroflex consonants ʈ, ɖ, ɳ, ʂ and ɭ gives way to r and
/// the dental consonant of its manner.
pub open spec fn expand_retroflexes() -> StepView {
    StepView {
        triggers: seq![],
        rules: seq![
            RuleView::Expand {
                target: Segment::short(sound('ʈ')),
                replacements: seq![sound('r'), sound('t')],
            },
            RuleView::Expand {
                target: Segment::short(sound('ɖ')),
                replacements: seq![sound('r'), sound('d')],
            },
            RuleView::Expand {
                target: Segment::short(sound('ɳ')),
                replacements: seq![sound('r'), sound('n')],
            },
            RuleView::Expand {
                target: Segment::short(sound('ʂ')),
                replacements: seq![sound('r'), sound('s')],
            },
            RuleView::Expand {
                target: Segment::short(sound('ɭ')),
                replacements: seq![sound('r'), sound('l')],
            },
        ],
    }
}

/// In a word that holds l or r, the short vowels e, ø and o are raised to i,
/// y and u.
pub open spec fn raise_near_liquids() -> StepView {
    StepView {
        triggers: seq![sound('l'), sound('r')],
        rules: seq![
            RuleView::Substitute { target: Segment::short(sound('e')), replacement: sound('i') },
            RuleView::Substitute { target: Segment::short(sound('ø')), replacement: sound('y') },
            RuleView::Substitute { target: Segment::short(sound('o')), replacement: sound('u') },
        ],
    }
}

/// Short o becomes a before n g, before r d and before l d.
pub open spec fn lower_before_clusters() -> StepView {
    StepView {
        triggers: seq![],
        rules: seq![
            RuleView::SubstituteIfFollowedBy {
                target: Segment::short(sound('o')),
                replacement: sound('a'),
                context: seq![Segment::short(sound('n')), Segment::short(sound('g'))],
            },
            RuleView::SubstituteIfFollowedBy {
                target: Segment::short(sound('o')),
                replacement: sound('a'),
                context: seq![Segment::short(sound('r')), Segment::short(sound('d'))],
            },
            RuleView::SubstituteIfFollowedBy {
                target: Segment::short(sound('o')),
                replacement: sound('a'),
                context: seq![Segment::short(sound('l')), Segment::short(sound('d'))],
            },
        ],
    }
}

/// Long a gives way to short a.
pub open spec fn shorten_long_a() -> StepView {
    StepView {
        triggers: seq![],
        rules: seq![
            RuleView::Expand {
                target: Segment::long(sound('a')),
                replacements: seq![sound('a')],
            },
        ],
    }
}

/// Before a front vowel, ɕ becomes k and j becomes g.
pub open spec fn harden_before_front_vowels() -> StepView {
    StepView {
        triggers: seq![],
        rules: seq![
            RuleView::SubstituteIfFollowedByFrontVowel {
                target: Segment::short(sound('ɕ')),
                replacement: sound('k'),
            },
            RuleView::SubstituteIfFollowedByFrontVowel {
                target: Segment::short(sound('j')),
                replacement: sound('g'),
            },
        ],
    }
}

/// The long back vowels move one place on and stay long: long o becomes long
/// a, long u long o, and long ʉ long u, in this order, so that none moves
/// twice.
pub open spec fn shift_long_back_vowels() -> StepView {
    StepView {
        triggers: seq![],
        rules: seq![
            RuleView::Substitute { target: Segment::long(sound('o')), replacement: sound('a') },
            RuleView::Substitute { target: Segment::long(sound('u')), replacement: sound('o') },
            RuleView::Substitute { target: Segment::long(sound('ʉ')), replacement: sound('u') },
        ],
    }
}

/// The stops t, d and g become the fricatives θ, ð and ɣ.
pub open spec fn soften_stops() -> StepView {
    StepView {
        triggers: seq![],
        rules: seq![
            RuleView::Substitute { target: Segment::short(sound('t')), replacement: sound('θ') },
            RuleView::Substitute { target: Segment::short(sound('d')), replacement: sound('ð') },
            RuleView::Substitute { target: Segment::short(sound('g')), replacement: sound('ɣ') },
        ],
    }
}

/// A word that begins with r, n or l gets h before it.
pub open spec fn aspirate_initial_sonorants() -> StepView {
    StepView {
        triggers: seq![],
        rules: seq![
            RuleView::SubstituteAtWordStart {
                target: Segment::short(sound('r')),
                replacements: seq![sound('h'), sound('r')],
            },
            RuleView::SubstituteAtWordStart {
                target: Segment::short(sound('n')),
                replacements: seq![sound('h'), sound('n')],
            },
            RuleView::SubstituteAtWordStart {
                target: Segment::short(sound('l')),
                replacements: seq![sound('h'), sound('l')],
            },
        ],
    }
}

/// Number of steps of the chain.
pub const STEP_COUNT: usize = 9;

/// The chain of sound changes, in the order in which a word goes through it.
/// The order matters: a later step works on what the earlier ones left.
pub open spec fn pipeline_steps() -> Seq<StepView> {
    seq![
        merge_sibilant(),
        expand_retroflexes(),
        raise_near_liquids(),
        lower_before_clusters(),
        shorten_long_a(),
        harden_before_front_vowels(),
        shift_long_back_vowels(),
        soften_stops(),
        aspirate_initial_sonorants(),
    ]
}

/// What the chain of sound changes makes of the word `w`.
pub open spec fn transformed(w: Seq<Segment>) -> Seq<Segment> {
    run(pipeline_steps(), w)
}

/// Every symbol that the chain names stands in one of the charts.
pub proof fn lemma_pipeline_symbols_known()
    ensures
        decode('ɧ') is Some,
        decode('s') is Some,
        decode('ʈ') is Some,
        decode('r') is Some,
        decode('t') is Some,
        decode('ɖ') is Some,
        decode('d') is Some,
        decode('ɳ') is Some,
        decode('n') is Some,
        decode('ʂ') is Some,
        decode('ɭ') is Some,
        decode('l') is Some,
        decode('e') is Some,
        decode('i') is Some,
        decode('ø') is Some,
        decode('y') is Some,
        decode('o') is Some,
        decode('u') is Some,
        decode('a') is Some,
        decode('g') is Some,
        decode('ɕ') is Some,
        decode('k') is Some,
        decode('j') is Some,
        decode('ʉ') is Some,
        decode('θ') is Some,
        decode('ð') is Some,
        decode('ɣ') is Some,
        decode('h') is Some,
{
    let v = vowel_symbols();
    let k = consonant_symbols();
    assert(k[72] == 'ɧ');
    k.index_of_first_ensures('ɧ');
    assert(k[26] == 's');
    k.index_of_first_ensures('s');
    assert(k[18] == 'ʈ');
    k.index_of_first_ensures('ʈ');
    assert(k[64] == 'r');
    k.index_of_first_ensures('r');
    assert(k[16] == 't');
    k.index_of_first_ensures('t');
    assert(k[19] == 'ɖ');
    k.index_of_first_ensures('ɖ');
    assert(k[17] == 'd');
    k.index_of_first_ensures('d');
    assert(k[6] == 'ɳ');
    k.index_of_first_ensures('ɳ');
    assert(k[4] == 'n');
    k.index_of_first_ensures('n');
    assert(k[28] == 'ʂ');
    k.index_of_first_ensures('ʂ');
    assert(k[70] == 'ɭ');
    k.index_of_first_ensures('ɭ');
    assert(k[68] == 'l');
    k.index_of_first_ensures('l');
    assert(v[8] == 'e');
    v.index_of_first_ensures('e');
    assert(v[0] == 'i');
    v.index_of_first_ensures('i');
    assert(v[9] == 'ø');
    v.index_of_first_ensures('ø');
    assert(v[1] == 'y');
    v.index_of_first_ensures('y');
    assert(v[13] == 'o');
    v.index_of_first_ensures('o');
    assert(v[3] == 'u');
    v.index_of_first_ensures('u');
    assert(v[23] == 'a');
    v.index_of_first_ensures('a');
    assert(k[23] == 'g');
    k.index_of_first_ensures('g');
    assert(k[30] == 'ɕ');
    k.index_of_first_ensures('ɕ');
    assert(k[22] == 'k');
    k.index_of_first_ensures('k');
    assert(k[52] == 'j');
    k.index_of_first_ensures('j');
    assert(v[5] == 'ʉ');
    v.index_of_first_ensures('ʉ');
    assert(k[36] == 'θ');
    k.index_of_first_ensures('θ');
    assert(k[37] == 'ð');
    k.index_of_first_ensures('ð');
    assert(k[43] == 'ɣ');
    k.index_of_first_ensures('ɣ');
    assert(k[44] == 'h');
    k.index_of_first_ensures('h');
}

/// The phone that the symbol `c` stands for, for a symbol of the charts.
fn phone_of(c: char) -> (p: Phone)
    requires
        decode(c) is Some,
    ensures
        p == sound(c),
{
    match Phone::from(c) {
        Some(p) => p,
        None => vstd::pervasive::unreached(),
    }
}

/// Step `k` of the chain of sound changes, counted from 0.
pub fn pipeline_step(k: usize) -> (s: Step)
    requires
        k < STEP_COUNT,
    ensures
        s@ == pipeline_steps()[k as int],
{
    proof {
        lemma_pipeline_symbols_known();
    }
    match k {
        0 => {
            let triggers: Vec<Phone> = Vec::new();
            let rules: Vec<Rule> = vec![
                Rule::Substitute { target: Segment::short(phone_of('ɧ')), replacement: phone_of('s') },
            ];
            proof {
                assert(triggers@ =~= merge_sibilant().triggers);
                assert(rule_views(rules@) =~~= merge_sibilant().rules);
            }
            Step { triggers, rules }
        },
        1 => {
            let triggers: Vec<Phone> = Vec::new();
            let rules: Vec<Rule> = vec![
                Rule::Expand {
                    target: Segment::short(phone_of('ʈ')),
                    replacements: vec![phone_of('r'), phone_of('t')],
                },
                Rule::Expand {
                    target: Segment::short(phone_of('ɖ')),
                    replacements: vec![phone_of('r'), phone_of('d')],
                },
                Rule::Expand {
                    target: Segment::short(phone_of('ɳ')),
                    replacements: vec![phone_of('r'), phone_of('n')],
                },
                Rule::Expand {
                    target: Segment::short(phone_of('ʂ')),
                    replacements: vec![phone_of('r'), phone_of('s')],
                },
                Rule::Expand {
                    target: Segment::short(phone_of('ɭ')),
                    replacements: vec![phone_of('r'), phone_of('l')],
                },
            ];
            proof {
                assert(triggers@ =~= expand_retroflexes().triggers);
                assert(rule_views(rules@) =~~= expand_retroflexes().rules);
            }
            Step { triggers, rules }
        },
        2 => {
            let triggers: Vec<Phone> = vec![phone_of('l'), phone_of('r')];
            let rules: Vec<Rule> = vec![
                Rule::Substitute { target: Segment::short(phone_of('e')), replacement: phone_of('i') },
                Rule::Substitute { target: Segment::short(phone_of('ø')), replacement: phone_of('y') },
                Rule::Substitute { target: Segment::short(phone_of('o')), replacement: phone_of('u') },
            ];
            proof {
                assert(triggers@ =~= raise_near_liquids().triggers);
                assert(rule_views(rules@) =~~= raise_near_liquids().rules);
            }
            Step { triggers, rules }
        },
        3 => {
            let triggers: Vec<Phone> = Vec::new();
            let rules: Vec<Rule> = vec![
                Rule::SubstituteIfFollowedBy {
                    target: Segment::short(phone_of('o')),
                    replacement: phone_of('a'),
                    context: vec![Segment::short(phone_of('n')), Segment::short(phone_of('g'))],
                },
                Rule::SubstituteIfFollowedBy {
                    target: Segment::short(phone_of('o')),
                    replacement: phone_of('a'),
                    context: vec![Segment::short(phone_of('r')), Segment::short(phone_of('d'))],
                },
                Rule::SubstituteIfFollowedBy {
                    target: Segment::short(phone_of('o')),
                    replacement: phone_of('a'),
                    context: vec![Segment::short(phone_of('l')), Segment::short(phone_of('d'))],
                },
            ];
            proof {
                assert(triggers@ =~= lower_before_clusters().triggers);
                assert(rule_views(rules@) =~~= lower_before_clusters().rules);
            }
            Step { triggers, rules }
        },
        4 => {
            let triggers: Vec<Phone> = Vec::new();
            let rules: Vec<Rule> = vec![
                Rule::Expand {
                    target: Segment::long(phone_of('a')),
                    replacements: vec![phone_of('a')],
                },
            ];
            proof {
                assert(triggers@ =~= shorten_long_a().triggers);
                assert(rules@[0]->Expand_replacements@ =~= seq![sound('a')]);
                assert(rule_views(rules@) =~~= shorten_long_a().rules);
            }
            Step { triggers, rules }
        },
        5 => {
            let triggers: Vec<Phone> = Vec::new();
            let rules: Vec<Rule> = vec![
                Rule::SubstituteIfFollowedByFrontVowel {
                    target: Segment::short(phone_of('ɕ')),
                    replacement: phone_of('k'),
                },
                Rule::SubstituteIfFollowedByFrontVowel {
                    target: Segment::short(phone_of('j')),
                    replacement: phone_of('g'),
                },
            ];
            proof {
                assert(triggers@ =~= harden_before_front_vowels().triggers);
                assert(rule_views(rules@) =~~= harden_before_front_vowels().rules);
            }
            Step { triggers, rules }
        },
        6 => {
            let triggers: Vec<Phone> = Vec::new();
            let rules: Vec<Rule> = vec![
                Rule::Substitute { target: Segment::long(phone_of('o')), replacement: phone_of('a') },
                Rule::Substitute { target: Segment::long(phone_of('u')), replacement: phone_of('o') },
                Rule::Substitute { target: Segment::long(phone_of('ʉ')), replacement: phone_of('u') },
            ];
            proof {
                assert(triggers@ =~= shift_long_back_vowels().triggers);
                assert(rule_views(rules@) =~~= shift_long_back_vowels().rules);
            }
            Step { triggers, rules }
        },
        7 => {
            let triggers: Vec<Phone> = Vec::new();
            let rules: Vec<Rule> = vec![
                Rule::Substitute { target: Segment::short(phone_of('t')), replacement: phone_of('θ') },
                Rule::Substitute { target: Segment::short(phone_of('d')), replacement: phone_of('ð') },
                Rule::Substitute { target: Segment::short(phone_of('g')), replacement: phone_of('ɣ') },
            ];
            proof {
                assert(triggers@ =~= soften_stops().triggers);
                assert(rule_views(rules@) =~~= soften_stops().rules);
            }
            Step { triggers, rules }
        },
        _ => {
            let triggers: Vec<Phone> = Vec::new();
            let rules: Vec<Rule> = vec![
                Rule::SubstituteAtWordStart {
                    target: Segment::short(phone_of('r')),
                    replacements: vec![phone_of('h'), phone_of('r')],
                },
                Rule::SubstituteAtWordStart {
                    target: Segment::short(phone_of('n')),
                    replacements: vec![phone_of('h'), phone_of('n')],
                },
                Rule::SubstituteAtWordStart {
                    target: Segment::short(phone_of('l')),
                    replacements: vec![phone_of('h'), phone_of('l')],
                },
            ];
            proof {
                assert(triggers@ =~= aspirate_initial_sonorants().triggers);
                assert(rule_views(rules@) =~~= aspirate_initial_sonorants().rules);
            }
            Step { triggers, rules }
        },
    }
}

/// The chain of sound changes as data, in the order in which a word goes
/// through it.
pub fn pipeline() -> (steps: Vec<Step>)
    ensures
        step_views(steps@) == pipeline_steps(),
{
    let mut steps: Vec<Step> = Vec::new();
    let mut k: usize = 0;
    while k < STEP_COUNT
        invariant
            k <= STEP_COUNT,
            steps@.len() == k,
            forall|j: int| 0 <= j < k ==> (#[trigger] steps@[j])@ == pipeline_steps()[j],
        decreases STEP_COUNT - k,
    {
        steps.push(pipeline_step(k));
        k += 1;
    }
    assert(step_views(steps@) =~= pipeline_steps());
    steps
}

impl Word {
    /// Takes the word through the chain of sound changes, once.
    pub fn transform(&mut self)
        ensures
            final(self)@ == transformed(old(self)@),
    {
        let steps = pipeline();
        self.run(steps.as_slice());
    }
}

} // verus!
