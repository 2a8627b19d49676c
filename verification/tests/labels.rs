use ascii_3d::labels::{first_name, marine_glyph, split_words, to_initial_caps};

#[test]
fn marine_initial_caps_preserves_lowercase_word_bodies() {
    assert_eq!(to_initial_caps("ATLANTIC OCEAN"), "Atlantic Ocean");
    assert_eq!(to_initial_caps("GULF OF GUINEA"), "Gulf of Guinea");
    assert_eq!(to_initial_caps("SOUTHERN OCEAN"), "Southern Ocean");
}

#[test]
fn lowercase_marine_glyphs_are_distinct_from_uppercase() {
    assert_ne!(marine_glyph('t'), marine_glyph('T'));
    assert_ne!(marine_glyph('c'), marine_glyph('C'));
    assert_ne!(marine_glyph('e'), marine_glyph('E'));
}

#[test]
fn every_small_letter_differs_from_its_capital() {
    for letter in 'a'..='z' {
        assert_ne!(marine_glyph(letter), marine_glyph(letter.to_ascii_uppercase()));
    }
}

#[test]
fn glyph_bitmaps_and_blank_fallback() {
    assert_eq!(
        marine_glyph('A'),
        [0b01110, 0b10001, 0b10001, 0b11111, 0b10001, 0b10001, 0b10001]
    );
    assert_eq!(marine_glyph('-'), [0, 0, 0, 0b11111, 0, 0, 0]);
    assert_eq!(marine_glyph('?'), [0; 7]);
    assert_eq!(marine_glyph('7'), [0; 7]);
}

#[test]
fn small_words_stay_small_except_at_the_start() {
    assert_eq!(to_initial_caps("THE BAY OF BENGAL"), "The Bay of Bengal");
    assert_eq!(to_initial_caps("mar del plata"), "Mar del Plata");
    assert_eq!(to_initial_caps("of mice and men"), "Of Mice and Men");
}

#[test]
fn whitespace_runs_collapse_to_single_spaces() {
    assert_eq!(to_initial_caps("  north \t SEA\n"), "North Sea");
    assert_eq!(to_initial_caps(""), "");
    assert_eq!(to_initial_caps(" \u{3000} "), "");
}

#[test]
fn only_ascii_letters_change_case() {
    assert_eq!(to_initial_caps("ÉTANG DE THAU"), "Étang de Thau");
    assert_eq!(to_initial_caps("o'higgins"), "O'higgins");
}

#[test]
fn split_words_matches_split_whitespace() {
    let text = " a  bc\u{00A0}d\te ";
    let expected: Vec<String> = text.split_whitespace().map(str::to_string).collect();
    assert_eq!(split_words(text), expected);
}

#[test]
fn first_name_skips_missing_and_blank_candidates() {
    let candidates = vec![None, Some("   ".to_string()), Some("  Gulf of Guinea ".to_string()), Some("Other".to_string())];
    assert_eq!(first_name(&candidates), Some("Gulf of Guinea".to_string()));
    assert_eq!(first_name(&[None, Some("\t".to_string())]), None);
    assert_eq!(first_name(&[]), None);
}
