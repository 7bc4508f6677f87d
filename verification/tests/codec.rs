use sound_change::chart::{consonant_entry, vowel_entry, CONSONANT_COUNT, VOWEL_COUNT};
use sound_change::phones::{ArtPlace, Consonant, Manner, Phone, Voicing, Vowel, PLACEHOLDER};
use sound_change::vector2::Vector2;

fn consonant(place: ArtPlace, manner: Manner, voiced: Voicing) -> Consonant {
    Consonant { place, manner, voiced }
}

fn vowel(x: i32, y: i32, rounded: bool) -> Vowel {
    Vowel { pos: Vector2 { x, y }, rounded }
}

#[test]
fn vowel_symbols_round_trip() {
    let symbols = "iyɯuɨʉɪʏeøɘɵɤoəɛœɜɞʌɔæɐaɶäɑɒ";
    assert_eq!(symbols.chars().count(), 28);
    for c in symbols.chars() {
        let p = Phone::from(c).unwrap();
        assert!(p.is_vowel());
        assert_eq!(p.transcription(), c);
    }
}

#[test]
fn consonant_symbols_round_trip() {
    let symbols = "mɱnɳɲŋpbtdʈɖcɟkgʔszʂʐɕʑɸβfvθðɻçʝxɣhɦʋɹjɰⱱɾɽʙrlɭɧ";
    assert_eq!(symbols.chars().count(), 48);
    for c in symbols.chars() {
        let p = Phone::from(c).unwrap();
        assert!(p.is_consonant());
        assert_eq!(p.transcription(), c);
    }
}

#[test]
fn every_chart_line_is_written_with_its_symbol() {
    for i in 0..VOWEL_COUNT {
        let e = vowel_entry(i);
        assert_eq!(e.vowel().transcription(), e.symbol);
        assert_eq!(Phone::from(e.symbol), Some(Phone::Vowel(e.vowel())));
    }
    for i in 0..CONSONANT_COUNT {
        let e = consonant_entry(i);
        assert_eq!(e.consonant.transcription(), e.symbol);
    }
}

#[test]
fn chart_sizes() {
    assert_eq!(VOWEL_COUNT, 28);
    assert_eq!(CONSONANT_COUNT, 73);
    assert_eq!(vowel_entry(0).symbol, 'i');
    assert_eq!(vowel_entry(27).symbol, 'ɒ');
    assert_eq!(consonant_entry(0).symbol, 'm');
    assert_eq!(consonant_entry(72).symbol, 'ɧ');
}

#[test]
fn decode_gives_the_chart_values() {
    assert_eq!(Phone::from('i'), Some(Phone::Vowel(vowel(0, 0, false))));
    assert_eq!(Phone::from('y'), Some(Phone::Vowel(vowel(0, 0, true))));
    assert_eq!(Phone::from('e'), Some(Phone::Vowel(vowel(16_650, 33_300, false))));
    assert_eq!(Phone::from('ɵ'), Some(Phone::Vowel(vowel(58_325, 33_300, true))));
    assert_eq!(Phone::from('ɐ'), Some(Phone::Vowel(vowel(70_825, 83_300, false))));
    assert_eq!(Phone::from('ɒ'), Some(Phone::Vowel(vowel(100_000, 100_000, true))));
    assert_eq!(
        Phone::from('t'),
        Some(Phone::Consonant(consonant(ArtPlace::Dental, Manner::Plosive, Voicing::Voiceless)))
    );
    assert_eq!(
        Phone::from('ɣ'),
        Some(Phone::Consonant(consonant(ArtPlace::Velar, Manner::Fricative, Voicing::Voiced)))
    );
    assert_eq!(
        Phone::from('ɧ'),
        Some(Phone::Consonant(consonant(ArtPlace::Velar, Manner::Sibilant, Voicing::Voiceless)))
    );
}

#[test]
fn shared_symbol_reads_as_its_first_line() {
    let cases = [
        ('m', consonant(ArtPlace::Bilabial, Manner::Nasal, Voicing::Voiceless)),
        ('p', consonant(ArtPlace::Bilabial, Manner::Plosive, Voicing::Voiceless)),
        ('b', consonant(ArtPlace::Bilabial, Manner::Plosive, Voicing::Voiced)),
        ('ɻ', consonant(ArtPlace::Retroflex, Manner::Fricative, Voicing::Voiceless)),
        ('ɽ', consonant(ArtPlace::Retroflex, Manner::Tap, Voicing::Voiceless)),
        ('r', consonant(ArtPlace::Dental, Manner::Trill, Voicing::Voiceless)),
        ('l', consonant(ArtPlace::Dental, Manner::Lateral, Voicing::Voiceless)),
        ('ɭ', consonant(ArtPlace::Retroflex, Manner::Lateral, Voicing::Voiceless)),
    ];
    for (c, k) in cases {
        assert_eq!(Phone::from(c), Some(Phone::Consonant(k)));
    }
}

#[test]
fn later_line_of_a_shared_symbol_does_not_read_back() {
    let voiced_m = consonant(ArtPlace::Bilabial, Manner::Nasal, Voicing::Voiced);
    assert_eq!(voiced_m.transcription(), 'm');
    assert_ne!(Phone::from('m'), Some(Phone::Consonant(voiced_m)));
    let trill = consonant(ArtPlace::Retroflex, Manner::Trill, Voicing::Voiced);
    assert_eq!(trill.transcription(), 'ɽ');
    assert_ne!(Phone::from('ɽ'), Some(Phone::Consonant(trill)));
}

#[test]
fn unknown_symbols_are_none() {
    for c in ['q', ' ', ':', '0', 'A', 'w', 'ʃ', '\n'] {
        assert_eq!(Phone::from(c), None);
    }
}

#[test]
fn consonant_without_symbol_is_placeholder() {
    assert_eq!(PLACEHOLDER, '0');
    let gaps = [
        consonant(ArtPlace::Glottal, Manner::Nasal, Voicing::Voiced),
        consonant(ArtPlace::Velar, Manner::Sibilant, Voicing::Voiced),
        consonant(ArtPlace::Bilabial, Manner::Lateral, Voicing::Voiceless),
        consonant(ArtPlace::Palatal, Manner::Trill, Voicing::Voiced),
        consonant(ArtPlace::Glottal, Manner::Tap, Voicing::Voiceless),
    ];
    for k in gaps {
        assert_eq!(k.transcription(), '0');
        assert_eq!(Phone::Consonant(k).transcription(), '0');
    }
}

#[test]
fn vowel_snaps_to_nearest_of_its_rounding() {
    assert_eq!(vowel(10_000, 30_000, false).transcription(), 'e');
    assert_eq!(vowel(10_000, 30_000, true).transcription(), 'ø');
    assert_eq!(vowel(62_500, 50_000, false).transcription(), 'ə');
    assert_eq!(vowel(62_500, 50_000, true).transcription(), 'ɞ');
    assert_eq!(vowel(25_000, 0, false).transcription(), 'ɪ');
    assert_eq!(vowel(50_000, 16_650, true).transcription(), 'ʉ');
    assert_eq!(vowel(100_000, 100_000, false).transcription(), 'ɑ');
    assert_eq!(Phone::Vowel(vowel(0, 0, true)).transcription(), 'y');
}

#[test]
fn vowel_outside_the_chart_still_snaps() {
    assert_eq!(vowel(-5, 200_000, true).transcription(), 'ɶ');
    assert_eq!(vowel(i32::MAX, i32::MIN, false).transcription(), 'ɯ');
    assert_eq!(vowel(i32::MIN, i32::MAX, true).transcription(), 'ɶ');
}

#[test]
fn tie_goes_to_first_line_in_chart_order() {
    let v = vowel(75_000, 0, false);
    let far = Vector2 { x: 100_000, y: 0 };
    let central = Vector2 { x: 50_000, y: 0 };
    assert_eq!(v.pos.dist_sq(far), v.pos.dist_sq(central));
    for _ in 0..5 {
        assert_eq!(v.transcription(), 'ɯ');
    }
    let r = vowel(75_000, 0, true);
    for _ in 0..5 {
        assert_eq!(r.transcription(), 'u');
    }
}

#[test]
fn dist_sq_is_exact() {
    let o = Vector2 { x: 0, y: 0 };
    assert_eq!(Vector2 { x: 3, y: 4 }.dist_sq(o), 25);
    assert_eq!(o.dist_sq(Vector2 { x: 3, y: 4 }), 25);
    assert_eq!(o.dist_sq(o), 0);
    assert_eq!(Vector2 { x: -3, y: 7 }.dist_sq(Vector2 { x: 2, y: -5 }), 25 + 144);
    let a = Vector2 { x: i32::MIN, y: i32::MIN };
    let b = Vector2 { x: i32::MAX, y: i32::MAX };
    let side: u128 = (1u128 << 32) - 1;
    assert_eq!(a.dist_sq(b), 2 * side * side);
    assert_eq!(
        Vector2 { x: 16_650, y: 33_300 }.dist_sq(Vector2 { x: 10_000, y: 30_000 }),
        6_650 * 6_650 + 3_300 * 3_300
    );
}

#[test]
fn front_vowels_are_the_nine_of_the_front_half() {
    let front = "iyɪʏeøɛœæ";
    for i in 0..VOWEL_COUNT {
        let e = vowel_entry(i);
        let p = Phone::Vowel(e.vowel());
        assert_eq!(p.is_front_vowel(), front.contains(e.symbol), "{}", e.symbol);
    }
    assert!(!Phone::from('j').unwrap().is_front_vowel());
    assert!(!Phone::from('s').unwrap().is_front_vowel());
}

#[test]
fn front_is_strictly_below_the_middle() {
    assert!(Phone::Vowel(vowel(49_999, 0, false)).is_front_vowel());
    assert!(!Phone::Vowel(vowel(50_000, 0, false)).is_front_vowel());
    assert!(!Phone::Vowel(vowel(50_001, 0, true)).is_front_vowel());
    assert!(Phone::Vowel(vowel(-1, 70_000, true)).is_front_vowel());
}

#[test]
fn vowel_and_consonant_are_told_apart() {
    let a = Phone::from('a').unwrap();
    let k = Phone::from('k').unwrap();
    assert!(a.is_vowel() && !a.is_consonant());
    assert!(k.is_consonant() && !k.is_vowel());
}

#[test]
fn equality_is_structural() {
    assert_eq!(Phone::from('a'), Phone::from('a'));
    assert_ne!(Phone::from('a'), Phone::from('ɶ'));
    assert_ne!(Phone::from('i'), Phone::from('y'));
    assert_ne!(
        Phone::Vowel(vowel(50_000, 100_000, false)),
        Phone::Vowel(vowel(50_001, 100_000, false))
    );
    assert_ne!(Phone::from('t'), Phone::from('d'));
}
