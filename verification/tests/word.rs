use sound_change::phones::Phone;
use sound_change::word::{Segment, UnknownSymbol, Word, LENGTH_MARK};

fn seg(c: char, is_long: bool) -> Segment {
    Segment { phone: Phone::from(c).unwrap(), is_long }
}

#[test]
fn decode_reads_phones_and_length_marks() {
    let w = Word::from("go:ɖ").unwrap();
    assert_eq!(w.phones, vec![seg('g', false), seg('o', true), seg('ɖ', false)]);
}

#[test]
fn length_mark_is_used_up() {
    let w = Word::from("a:").unwrap();
    assert_eq!(w.phones, vec![seg('a', true)]);
    let w = Word::from("t:a:k:").unwrap();
    assert_eq!(w.phones, vec![seg('t', true), seg('a', true), seg('k', true)]);
}

#[test]
fn empty_transcription_is_empty_word() {
    let w = Word::from("").unwrap();
    assert!(w.phones.is_empty());
    assert_eq!(w.transcription(), "");
}

#[test]
fn transcription_writes_symbols_and_marks() {
    let w = Word { phones: vec![seg('f', false), seg('o', true), seg('g', false)] };
    assert_eq!(w.transcription(), "fo:g");
    let w = Word { phones: vec![seg('s', true)] };
    assert_eq!(w.transcription(), "s:");
    assert_eq!(LENGTH_MARK, ':');
}

#[test]
fn transcription_round_trips() {
    for s in [
        "go:ɖ", "ba:ka", "riŋ", "følja", "dolde", "det", "ɕedja", "dʉ:", "ska:", "fo:gel", "a",
        "ɧø:", "ɭ:ɭ", "ⱱäɒ:",
    ] {
        assert_eq!(Word::from(s).unwrap().transcription(), s);
    }
}

#[test]
fn unknown_symbol_is_reported_with_its_place() {
    assert_eq!(Word::from("riq").unwrap_err(), UnknownSymbol { symbol: 'q', position: 2 });
    assert_eq!(Word::from("q").unwrap_err(), UnknownSymbol { symbol: 'q', position: 0 });
    assert_eq!(Word::from("a b").unwrap_err(), UnknownSymbol { symbol: ' ', position: 1 });
}

#[test]
fn place_counts_characters() {
    assert_eq!(Word::from("øɖq").unwrap_err(), UnknownSymbol { symbol: 'q', position: 2 });
    assert_eq!(Word::from("ø:ɖ:w").unwrap_err(), UnknownSymbol { symbol: 'w', position: 4 });
}

#[test]
fn first_unknown_symbol_is_the_one_reported() {
    assert_eq!(Word::from("aqw").unwrap_err(), UnknownSymbol { symbol: 'q', position: 1 });
}

#[test]
fn unknown_symbol_before_a_length_mark() {
    assert_eq!(Word::from("aq:").unwrap_err(), UnknownSymbol { symbol: 'q', position: 1 });
}

#[test]
fn stray_length_mark_is_unknown() {
    assert_eq!(Word::from(":a").unwrap_err(), UnknownSymbol { symbol: ':', position: 0 });
    assert_eq!(Word::from("a::").unwrap_err(), UnknownSymbol { symbol: ':', position: 2 });
    assert_eq!(Word::from(":").unwrap_err(), UnknownSymbol { symbol: ':', position: 0 });
    assert_eq!(Word::from("::").unwrap_err(), UnknownSymbol { symbol: ':', position: 0 });
}

#[test]
fn placeholder_is_not_read_back() {
    assert_eq!(Word::from("a0").unwrap_err(), UnknownSymbol { symbol: '0', position: 1 });
}

#[test]
fn short_and_long_segments() {
    let a = Phone::from('a').unwrap();
    assert_eq!(Segment::short(a), Segment { phone: a, is_long: false });
    assert_eq!(Segment::long(a), Segment { phone: a, is_long: true });
    assert_ne!(Segment::short(a), Segment::long(a));
}
