use sound_change::phones::Phone;
use sound_change::pipeline::{pipeline, pipeline_step, STEP_COUNT};
use sound_change::rules::{Rule, Step};
use sound_change::word::{Segment, Word};

fn ph(c: char) -> Phone {
    Phone::from(c).unwrap()
}

fn word(s: &str) -> Word {
    Word::from(s).unwrap()
}

fn transformed(s: &str) -> String {
    let mut w = word(s);
    w.transform();
    w.transcription()
}

fn after_step(s: &str, k: usize) -> String {
    let mut w = word(s);
    w.apply_step(&pipeline_step(k));
    w.transcription()
}

#[test]
fn retroflex_word_is_expanded_and_softened() {
    assert_eq!(transformed("go:ɖ"), "ɣa:rð");
}

#[test]
fn word_with_r_is_raised_and_aspirated() {
    assert_eq!(transformed("riŋ"), "hriŋ");
}

#[test]
fn word_with_l_is_raised() {
    assert_eq!(transformed("dolde"), "ðulði");
}

#[test]
fn example_words() {
    let cases = [
        ("go:ɖ", "ɣa:rð"),
        ("ba:ka", "baka"),
        ("riŋ", "hriŋ"),
        ("følja", "fylja"),
        ("dolde", "ðulði"),
        ("det", "ðeθ"),
        ("ɕedja", "keðja"),
        ("dʉ:", "ðu:"),
        ("ska:", "ska"),
        ("fo:gel", "fa:ɣil"),
    ];
    for (before, after) in cases {
        assert_eq!(transformed(before), after, "{}", before);
    }
}

#[test]
fn more_words() {
    let cases = [
        ("", ""),
        ("ɧa", "sa"),
        ("aʈa", "arθa"),
        ("kong", "kanɣ"),
        ("volde", "vulði"),
        ("e:rd", "e:rð"),
        ("o:rd", "a:rð"),
        ("old", "ulð"),
        ("ɕi", "ki"),
        ("ji", "ɣi"),
        ("tak", "θak"),
        ("ɭ", "hrl"),
        ("l:e", "l:i"),
    ];
    for (before, after) in cases {
        assert_eq!(transformed(before), after, "{}", before);
    }
}

#[test]
fn second_pass_changes_nothing_where_nothing_matches() {
    let steps = pipeline();
    let cases = [
        ("go:ɖ", false),
        ("ba:ka", true),
        ("riŋ", true),
        ("følja", true),
        ("dolde", true),
        ("det", true),
        ("ɕedja", true),
        ("dʉ:", false),
        ("ska:", true),
        ("fo:gel", false),
        ("kong", true),
        ("", true),
    ];
    for (s, settled) in cases {
        let mut w = word(s);
        w.transform();
        let once = w.transcription();
        assert_eq!(w.is_settled(&steps), settled, "{}", s);
        w.transform();
        if settled {
            assert_eq!(w.transcription(), once, "{}", s);
        } else {
            assert_ne!(w.transcription(), once, "{}", s);
        }
    }
}

#[test]
fn second_pass_shortens_the_long_a_of_the_first() {
    let mut w = word("go:ɖ");
    w.transform();
    assert_eq!(w.transcription(), "ɣa:rð");
    w.transform();
    assert_eq!(w.transcription(), "ɣarð");
    w.transform();
    assert_eq!(w.transcription(), "ɣarð");
    let mut w = word("fo:gel");
    w.transform();
    w.transform();
    assert_eq!(w.transcription(), "faɣil");
}

#[test]
fn second_pass_goes_on_where_a_step_still_matches() {
    let mut w = word("dʉ:");
    w.transform();
    assert_eq!(w.transcription(), "ðu:");
    w.transform();
    assert_eq!(w.transcription(), "ðo:");
    w.transform();
    assert_eq!(w.transcription(), "ða:");
    w.transform();
    assert_eq!(w.transcription(), "ða");
    w.transform();
    assert_eq!(w.transcription(), "ða");
}

#[test]
fn order_of_steps_matters() {
    let steps = pipeline();
    let mut swapped = pipeline();
    swapped.swap(2, 4);
    for (s, in_order, out_of_order) in
        [("a:old", "aulð", "aalð"), ("dolde", "ðulði", "ðalði"), ("la:ord", "hlaurð", "hlaarð")]
    {
        let mut w = word(s);
        w.run(&steps);
        assert_eq!(w.transcription(), in_order);
        let mut v = word(s);
        v.run(&swapped);
        assert_eq!(v.transcription(), out_of_order);
    }
}

#[test]
fn run_of_the_pipeline_is_transform() {
    let steps = pipeline();
    for s in ["go:ɖ", "fo:gel", "ɕedja", "dʉ:"] {
        let mut w = word(s);
        w.run(&steps);
        assert_eq!(w.transcription(), transformed(s));
    }
}

#[test]
fn run_of_no_steps_changes_nothing() {
    let mut w = word("go:ɖ");
    w.run(&[]);
    assert_eq!(w.transcription(), "go:ɖ");
}

#[test]
fn pipeline_has_nine_steps() {
    assert_eq!(STEP_COUNT, 9);
    let steps = pipeline();
    assert_eq!(steps.len(), 9);
    let sizes: Vec<usize> = steps.iter().map(|s| s.rules.len()).collect();
    assert_eq!(sizes, vec![1, 5, 3, 3, 1, 2, 3, 3, 3]);
    let triggers: Vec<usize> = steps.iter().map(|s| s.triggers.len()).collect();
    assert_eq!(triggers, vec![0, 0, 2, 0, 0, 0, 0, 0, 0]);
    assert_eq!(steps[2].triggers, vec![ph('l'), ph('r')]);
}

#[test]
fn pipeline_step_is_the_step_of_the_pipeline() {
    let steps = pipeline();
    for k in 0..STEP_COUNT {
        assert_eq!(pipeline_step(k), steps[k]);
    }
}

#[test]
fn each_step_alone() {
    assert_eq!(after_step("ɧaɧ", 0), "sas");
    assert_eq!(after_step("ʈɖɳʂɭ", 1), "rtrdrnrsrl");
    assert_eq!(after_step("deø", 2), "deø");
    assert_eq!(after_step("leøo", 2), "liyu");
    assert_eq!(after_step("le:ø:o:", 2), "le:ø:o:");
    assert_eq!(after_step("e:rdongordoldo:rd", 3), "e:rdangardaldo:rd");
    assert_eq!(after_step("a:a", 4), "aa");
    assert_eq!(after_step("ba:ka:", 4), "baka");
    assert_eq!(after_step("ɕijeja", 5), "kigeja");
    assert_eq!(after_step("o:u:ʉ:ou", 6), "a:o:u:ou");
    assert_eq!(after_step("tdgk", 7), "θðɣk");
    assert_eq!(after_step("rra", 8), "hrra");
    assert_eq!(after_step("na", 8), "hna");
    assert_eq!(after_step("la", 8), "hla");
    assert_eq!(after_step("ma", 8), "ma");
}

#[test]
fn long_liquid_triggers_raising() {
    assert_eq!(after_step("r:eøo", 2), "r:iyu");
    let w = word("r:a");
    assert!(w.contains_phone(ph('r')));
    assert!(!w.contains_phone(ph('l')));
}

#[test]
fn step_without_triggers_is_always_taken() {
    let step = Step {
        triggers: vec![],
        rules: vec![Rule::Substitute { target: Segment::short(ph('a')), replacement: ph('e') }],
    };
    let mut w = word("ka");
    w.apply_step(&step);
    assert_eq!(w.transcription(), "ke");
}

#[test]
fn step_waits_for_one_of_its_triggers() {
    let step = Step {
        triggers: vec![ph('m'), ph('n')],
        rules: vec![Rule::Substitute { target: Segment::short(ph('a')), replacement: ph('e') }],
    };
    let mut w = word("ka");
    w.apply_step(&step);
    assert_eq!(w.transcription(), "ka");
    let mut w = word("na");
    w.apply_step(&step);
    assert_eq!(w.transcription(), "ne");
    let mut w = word("kam");
    w.apply_step(&step);
    assert_eq!(w.transcription(), "kem");
}

#[test]
fn rules_of_a_step_work_one_after_the_other() {
    let step = Step {
        triggers: vec![],
        rules: vec![
            Rule::Substitute { target: Segment::short(ph('a')), replacement: ph('e') },
            Rule::Substitute { target: Segment::short(ph('e')), replacement: ph('i') },
        ],
    };
    let mut w = word("ae");
    w.apply_step(&step);
    assert_eq!(w.transcription(), "ii");
}

#[test]
fn apply_runs_each_kind_of_rule() {
    let mut w = word("rarda");
    w.apply(&Rule::Substitute { target: Segment::short(ph('d')), replacement: ph('t') });
    assert_eq!(w.transcription(), "rarta");
    w.apply(&Rule::Expand { target: Segment::short(ph('t')), replacements: vec![ph('s'), ph('k')] });
    assert_eq!(w.transcription(), "rarska");
    w.apply(&Rule::SubstituteIfFollowedBy {
        target: Segment::short(ph('a')),
        replacement: ph('o'),
        context: vec![Segment::short(ph('r')), Segment::short(ph('s'))],
    });
    assert_eq!(w.transcription(), "rorska");
    w.apply(&Rule::Substitute { target: Segment::short(ph('o')), replacement: ph('i') });
    w.apply(&Rule::SubstituteIfFollowedByFrontVowel {
        target: Segment::short(ph('r')),
        replacement: ph('l'),
    });
    assert_eq!(w.transcription(), "lirska");
    w.apply(&Rule::SubstituteAtWordStart {
        target: Segment::short(ph('l')),
        replacements: vec![ph('h'), ph('l')],
    });
    assert_eq!(w.transcription(), "hlirska");
}

#[test]
fn swapping_two_steps_that_do_not_meet_changes_nothing() {
    let steps = pipeline();
    let mut swapped = pipeline();
    swapped.swap(2, 4);
    for s in ["a:ld", "ba:ka", "riŋ", "go:ɖ"] {
        let mut w = word(s);
        w.run(&steps);
        let mut v = word(s);
        v.run(&swapped);
        assert_eq!(w.transcription(), v.transcription(), "{}", s);
    }
}

#[test]
fn matches_tells_whether_a_rule_finds_its_target() {
    let w = word("do:rd");
    let o = Segment::short(ph('o'));
    let long_o = Segment::long(ph('o'));
    let rd = vec![Segment::short(ph('r')), Segment::short(ph('d'))];
    assert!(!w.matches(&Rule::Substitute { target: o, replacement: ph('a') }));
    assert!(w.matches(&Rule::Substitute { target: long_o, replacement: ph('a') }));
    assert!(w.matches(&Rule::Expand { target: long_o, replacements: vec![] }));
    assert!(!w.matches(&Rule::Expand { target: o, replacements: vec![] }));
    assert!(w.matches(&Rule::SubstituteIfFollowedBy {
        target: long_o,
        replacement: ph('a'),
        context: rd.clone(),
    }));
    assert!(!w.matches(&Rule::SubstituteIfFollowedBy {
        target: Segment::short(ph('r')),
        replacement: ph('l'),
        context: rd,
    }));
    assert!(!w.matches(&Rule::SubstituteIfFollowedByFrontVowel {
        target: Segment::short(ph('d')),
        replacement: ph('t'),
    }));
    assert!(word("di").matches(&Rule::SubstituteIfFollowedByFrontVowel {
        target: Segment::short(ph('d')),
        replacement: ph('t'),
    }));
    assert!(w.matches(&Rule::SubstituteAtWordStart {
        target: Segment::short(ph('d')),
        replacements: vec![],
    }));
    assert!(!w.matches(&Rule::SubstituteAtWordStart {
        target: Segment::short(ph('r')),
        replacements: vec![],
    }));
    assert!(!word("").matches(&Rule::SubstituteAtWordStart {
        target: Segment::short(ph('r')),
        replacements: vec![],
    }));
}

#[test]
fn step_matches_needs_trigger_and_target() {
    let raise = pipeline_step(2);
    assert!(word("le").is_triggered(&raise));
    assert!(word("le").step_matches(&raise));
    assert!(word("la").is_triggered(&raise));
    assert!(!word("la").step_matches(&raise));
    assert!(!word("de").is_triggered(&raise));
    assert!(!word("de").step_matches(&raise));
    assert!(word("de").is_triggered(&pipeline_step(7)));
    assert!(word("de").step_matches(&pipeline_step(7)));
}

#[test]
fn settled_word_is_left_as_it_is() {
    let steps = pipeline();
    for s in ["", "a", "baka", "hriŋ", "fylja", "ðulði", "keðja", "mɯɲ"] {
        let mut w = word(s);
        assert!(w.is_settled(&steps), "{}", s);
        w.transform();
        assert_eq!(w.transcription(), s);
    }
    for s in ["ba:ka", "riŋ", "det", "ɧ", "ji"] {
        assert!(!word(s).is_settled(&steps), "{}", s);
    }
    assert!(word("det").is_settled(&[]));
}
