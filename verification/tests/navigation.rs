use vamos::card_view::{compose_panel, progress_label, star_glyph};
use vamos::cursor::CardCursor;
use vamos::data::{Corpus, LearningDirection, StageDocument, StageEntry, VocabularyCard};
use vamos::direction::{favorites_link, stage_index_link, stage_link, stage_links, toggle_link};
use vamos::language::Language;
use vamos::route::{not_found_notice, resolve, stage_from_param, Route};
use vamos::text::{holds_from, parse_u32, render_decimal, same_text, starts_with};

fn cursor(index: usize, example_shown: bool, translation_shown: bool) -> CardCursor {
    CardCursor { index, example_shown, translation_shown }
}

#[test]
fn a_new_cursor_is_on_the_first_card_with_nothing_revealed() {
    assert_eq!(CardCursor::new(), cursor(0, false, false));
}

#[test]
fn next_advances_until_the_last_card() {
    let mut c = CardCursor::new();
    for expected in 1..20usize {
        c.next(20);
        assert_eq!(c, cursor(expected, false, false));
    }
    c.next(20);
    assert_eq!(c, cursor(19, false, false));
}

#[test]
fn next_on_the_last_card_keeps_the_flags() {
    let mut c = cursor(19, true, true);
    c.next(20);
    assert_eq!(c, cursor(19, true, true));
    let mut single = cursor(0, true, false);
    single.next(1);
    assert_eq!(single, cursor(0, true, false));
}

#[test]
fn next_on_an_empty_list_changes_nothing() {
    let mut c = cursor(0, false, true);
    c.next(0);
    assert_eq!(c, cursor(0, false, true));
}

#[test]
fn prev_goes_back_until_the_first_card() {
    let mut c = cursor(2, true, true);
    c.prev();
    assert_eq!(c, cursor(1, false, false));
    c.prev();
    assert_eq!(c, cursor(0, false, false));
    c.reveal_example();
    c.prev();
    assert_eq!(c, cursor(0, true, false));
}

#[test]
fn moving_resets_both_reveal_flags() {
    let mut c = CardCursor::new();
    c.reveal_example();
    c.reveal_translation();
    assert_eq!(c, cursor(0, true, true));
    c.next(5);
    assert_eq!(c, cursor(1, false, false));
    c.reveal_translation();
    c.prev();
    assert_eq!(c, cursor(0, false, false));
}

#[test]
fn reveal_flags_are_independent_and_stay_set() {
    let mut c = cursor(3, false, false);
    c.reveal_translation();
    assert_eq!(c, cursor(3, false, true));
    c.reveal_translation();
    assert_eq!(c, cursor(3, false, true));
    c.reveal_example();
    assert_eq!(c, cursor(3, true, true));
    c.reveal_example();
    assert_eq!(c, cursor(3, true, true));
}

#[test]
fn cursor_stays_in_bounds_through_a_walk() {
    let count = 4usize;
    let mut c = CardCursor::new();
    let steps = [1, 1, 1, 1, 1, -1, -1, 1, -1, -1, -1, -1, 1, 1, 1, 1, 1, 1];
    let mut expected: i64 = 0;
    for step in steps {
        if step > 0 {
            c.next(count);
            if expected < count as i64 - 1 {
                expected += 1;
            }
        } else {
            c.prev();
            if expected > 0 {
                expected -= 1;
            }
        }
        assert!(c.index < count);
        assert_eq!(c.index as i64, expected);
    }
}

#[test]
fn settle_clamps_the_cursor_after_a_removal() {
    let mut last = cursor(2, true, true);
    last.settle(2);
    assert_eq!(last, cursor(1, false, false));
    let mut middle = cursor(1, true, false);
    middle.settle(2);
    assert_eq!(middle, cursor(1, false, false));
    let mut only = cursor(0, false, true);
    only.settle(0);
    assert_eq!(only, cursor(0, false, false));
    let mut far = cursor(9, false, false);
    far.settle(0);
    assert_eq!(far, cursor(0, false, false));
}

#[test]
fn show_resets_the_flags_only_when_the_position_changes() {
    let mut c = cursor(2, true, true);
    c.show(2);
    assert_eq!(c, cursor(2, true, true));
    c.show(3);
    assert_eq!(c, cursor(3, false, false));
    c.reveal_example();
    c.show(0);
    assert_eq!(c, cursor(0, false, false));
}

#[test]
fn direction_is_read_from_the_query() {
    assert_eq!(LearningDirection::from_query(None), LearningDirection::SpanishToEnglish);
    assert_eq!(
        LearningDirection::from_query(Some("es-to-en")),
        LearningDirection::SpanishToEnglish
    );
    assert_eq!(
        LearningDirection::from_query(Some("en-to-es")),
        LearningDirection::EnglishToSpanish
    );
    for other in ["", "bogus", "EN-TO-ES", "en-to-es ", "en-to-e", "fr-to-en"] {
        assert_eq!(LearningDirection::from_query(Some(other)), LearningDirection::SpanishToEnglish);
    }
}

#[test]
fn direction_has_its_query_value_and_label() {
    assert_eq!(LearningDirection::SpanishToEnglish.query_value(), "es-to-en");
    assert_eq!(LearningDirection::EnglishToSpanish.query_value(), "en-to-es");
    assert_eq!(LearningDirection::SpanishToEnglish.label(), "🇪🇸 → 🇬🇧");
    assert_eq!(LearningDirection::EnglishToSpanish.label(), "🇬🇧 → 🇪🇸");
    assert_eq!(LearningDirection::SpanishToEnglish.source_language(), Language::Spanish);
    assert_eq!(LearningDirection::SpanishToEnglish.target_language(), Language::English);
    assert_eq!(LearningDirection::EnglishToSpanish.source_language(), Language::English);
    assert_eq!(LearningDirection::EnglishToSpanish.target_language(), Language::Spanish);
}

#[test]
fn toggling_the_direction_twice_restores_the_query_value() {
    for start in [None, Some("es-to-en"), Some("en-to-es")] {
        let direction = LearningDirection::from_query(start);
        let once = stage_index_link(direction.toggled());
        assert_eq!(once, toggle_link(direction));
        let after_once = LearningDirection::from_query(Some(direction.toggled().query_value()));
        assert_ne!(after_once, direction);
        let after_twice = LearningDirection::from_query(Some(after_once.toggled().query_value()));
        assert_eq!(after_twice, direction);
        assert_eq!(after_twice.query_value(), direction.query_value());
        assert_eq!(toggle_link(after_once), stage_index_link(direction));
    }
}

#[test]
fn links_keep_the_direction() {
    let to_english = LearningDirection::SpanishToEnglish;
    let to_spanish = LearningDirection::EnglishToSpanish;
    assert_eq!(stage_index_link(to_english), "/vocabulary?dir=es-to-en");
    assert_eq!(stage_index_link(to_spanish), "/vocabulary?dir=en-to-es");
    assert_eq!(toggle_link(to_english), "/vocabulary?dir=en-to-es");
    assert_eq!(toggle_link(to_spanish), "/vocabulary?dir=es-to-en");
    assert_eq!(stage_link(1, to_english), "/vocabulary/1?dir=es-to-en");
    assert_eq!(stage_link(21, to_spanish), "/vocabulary/21?dir=en-to-es");
    assert_eq!(stage_link(0, to_spanish), "/vocabulary/0?dir=en-to-es");
    assert_eq!(stage_link(u32::MAX, to_english), "/vocabulary/4294967295?dir=es-to-en");
    assert_eq!(favorites_link(to_english), "/vocabulary/favorites?dir=es-to-en");
    assert_eq!(favorites_link(to_spanish), "/vocabulary/favorites?dir=en-to-es");
}

#[test]
fn stage_grid_links_to_every_stage() {
    let entry = StageEntry {
        spanish: StageDocument::Cards(Vec::new()),
        english: StageDocument::Cards(Vec::new()),
    };
    let corpus = Corpus { stages: vec![entry; 21] };
    let links = stage_links(&corpus, LearningDirection::EnglishToSpanish);
    assert_eq!(links.len(), 21);
    for (i, link) in links.iter().enumerate() {
        assert_eq!(*link, format!("/vocabulary/{}?dir=en-to-es", i + 1));
    }
    let none = Corpus { stages: Vec::new() };
    assert!(stage_links(&none, LearningDirection::SpanishToEnglish).is_empty());
}

#[test]
fn routes_are_matched_exactly() {
    let default = LearningDirection::SpanishToEnglish;
    assert_eq!(resolve("/", None), Route::Home);
    assert_eq!(resolve("/vocabulary", None), Route::StageIndex { direction: default });
    assert_eq!(resolve("/vocabulary/favorites", None), Route::Favorites { direction: default });
    assert_eq!(resolve("/vocabulary/7", None), Route::StageCards { stage: 7, direction: default });
    assert_eq!(resolve("/grammar", None), Route::Grammar);
}

#[test]
fn unknown_paths_are_not_found() {
    for path in [
        "",
        "vocabulary",
        "/nowhere",
        "/vocabulary/",
        "/vocabulary/1/2",
        "/vocabulary/1/",
        "/grammar/",
        "/Vocabulary",
        "/vocabularyx",
        "//",
        "/grammar/1",
    ] {
        assert_eq!(resolve(path, Some("en-to-es")), Route::NotFound);
    }
    assert_eq!(not_found_notice(), "Page not found");
}

#[test]
fn routes_carry_the_direction_of_the_query() {
    let to_spanish = LearningDirection::EnglishToSpanish;
    let default = LearningDirection::SpanishToEnglish;
    assert_eq!(resolve("/vocabulary", Some("en-to-es")), Route::StageIndex { direction: to_spanish });
    assert_eq!(
        resolve("/vocabulary/favorites", Some("en-to-es")),
        Route::Favorites { direction: to_spanish }
    );
    assert_eq!(
        resolve("/vocabulary/3", Some("en-to-es")),
        Route::StageCards { stage: 3, direction: to_spanish }
    );
    assert_eq!(resolve("/vocabulary/3", Some("nonsense")), Route::StageCards { stage: 3, direction: default });
    assert_eq!(resolve("/", Some("en-to-es")), Route::Home);
    assert_eq!(resolve("/grammar", Some("en-to-es")), Route::Grammar);
}

#[test]
fn a_stage_segment_that_is_no_number_means_stage_one() {
    let default = LearningDirection::SpanishToEnglish;
    for path in ["/vocabulary/abc", "/vocabulary/-3", "/vocabulary/1.5", "/vocabulary/4294967296", "/vocabulary/ 2", "/vocabulary/+"] {
        assert_eq!(resolve(path, None), Route::StageCards { stage: 1, direction: default });
    }
    assert_eq!(resolve("/vocabulary/999", None), Route::StageCards { stage: 999, direction: default });
    assert_eq!(resolve("/vocabulary/0", None), Route::StageCards { stage: 0, direction: default });
    assert_eq!(resolve("/vocabulary/007", None), Route::StageCards { stage: 7, direction: default });
    assert_eq!(resolve("/vocabulary/+12", None), Route::StageCards { stage: 12, direction: default });
    assert_eq!(
        resolve("/vocabulary/4294967295", None),
        Route::StageCards { stage: u32::MAX, direction: default }
    );
}

#[test]
fn stage_param_defaults_to_one() {
    assert_eq!(stage_from_param(None), 1);
    assert_eq!(stage_from_param(Some("")), 1);
    assert_eq!(stage_from_param(Some("x")), 1);
    assert_eq!(stage_from_param(Some("12")), 12);
    assert_eq!(stage_from_param(Some("0")), 0);
    assert_eq!(stage_from_param(Some("99999999999")), 1);
}

#[test]
fn parse_reads_what_the_standard_parser_reads() {
    for text in [
        "", "0", "1", "+1", "+", "-1", "++1", "1+", "42", "0042", "4294967295", "4294967296",
        "42949672950", "99999999999999999999999", " 1", "1 ", "1_000", "0x10", "١٢", "12a", "+0",
        "00000000000000000000000000001",
    ] {
        assert_eq!(parse_u32(text), text.parse::<u32>().ok());
    }
    assert_eq!(parse_u32("4294967295"), Some(u32::MAX));
    assert_eq!(parse_u32("+17"), Some(17));
    assert_eq!(parse_u32("4294967296"), None);
}

#[test]
fn render_writes_decimal_numerals() {
    assert_eq!(render_decimal(0), "0");
    assert_eq!(render_decimal(7), "7");
    assert_eq!(render_decimal(10), "10");
    assert_eq!(render_decimal(1234567890), "1234567890");
    assert_eq!(render_decimal(u32::MAX as u128), "4294967295");
    assert_eq!(render_decimal(u128::MAX), u128::MAX.to_string());
    for n in [9u32, 99, 100, 101, 999, 1000, 65535, 4000000000] {
        assert_eq!(parse_u32(&render_decimal(n as u128)), Some(n));
    }
}

#[test]
fn text_helpers_compare_characters() {
    assert!(same_text("es", "es"));
    assert!(!same_text("es", "en"));
    assert!(!same_text("es", "es "));
    assert!(same_text("", ""));
    assert!(same_text("Español", "Español"));
    assert!(starts_with("/vocabulary/3", "/vocabulary/"));
    assert!(starts_with("abc", ""));
    assert!(!starts_with("/vocabulary", "/vocabulary/"));
    assert!(!starts_with("/vocabularx/3", "/vocabulary/"));
}

#[test]
fn progress_label_counts_from_one() {
    assert_eq!(progress_label(0, 20, None), "1 / 20");
    assert_eq!(progress_label(1, 20, None), "2 / 20");
    assert_eq!(progress_label(19, 20, None), "20 / 20");
    assert_eq!(progress_label(0, 3, Some(2)), "1 / 3 (Stage 2)");
    assert_eq!(progress_label(2, 3, Some(21)), "3 / 3 (Stage 21)");
    assert_eq!(progress_label(0, 0, None), "1 / 0");
    assert_eq!(
        progress_label(usize::MAX, usize::MAX, None),
        format!("{} / {}", usize::MAX as u128 + 1, usize::MAX)
    );
}

#[test]
fn star_is_filled_on_a_favorite() {
    assert_eq!(star_glyph(true), "⭐");
    assert_eq!(star_glyph(false), "☆");
}

#[test]
fn panel_shows_what_the_flags_let_through() {
    let source = VocabularyCard { id: 5, word: "casa".to_string(), example: "La casa es grande.".to_string() };
    let target = VocabularyCard { id: 5, word: "house".to_string(), example: "The house is big.".to_string() };
    let hidden = compose_panel(
        &source,
        &target,
        &cursor(4, false, false),
        20,
        false,
        LearningDirection::SpanishToEnglish,
        None,
    );
    assert_eq!(hidden.progress, "5 / 20");
    assert_eq!(hidden.star, "☆");
    assert_eq!(hidden.heading, "casa");
    assert_eq!(hidden.source_voice, "es-ES");
    assert_eq!(hidden.target_voice, "en-US");
    assert_eq!(hidden.example, None);
    assert_eq!(hidden.translation, None);

    let translated = compose_panel(
        &source,
        &target,
        &cursor(4, false, true),
        20,
        true,
        LearningDirection::SpanishToEnglish,
        Some(1),
    );
    assert_eq!(translated.progress, "5 / 20 (Stage 1)");
    assert_eq!(translated.star, "⭐");
    assert_eq!(translated.example, None);
    assert_eq!(
        translated.translation,
        Some(("house".to_string(), "The house is big.".to_string()))
    );

    let reversed = compose_panel(
        &target,
        &source,
        &cursor(0, true, false),
        1,
        false,
        LearningDirection::EnglishToSpanish,
        None,
    );
    assert_eq!(reversed.heading, "house");
    assert_eq!(reversed.source_voice, "en-US");
    assert_eq!(reversed.target_voice, "es-ES");
    assert_eq!(reversed.example, Some("The house is big.".to_string()));
    assert_eq!(reversed.translation, None);
}

#[test]
fn holds_from_looks_only_at_the_rest() {
    assert!(holds_from("/vocabulary/1/2", 12, '/'));
    assert!(!holds_from("/vocabulary/12", 12, '/'));
    assert!(holds_from("/vocabulary/12", 0, '/'));
    assert!(!holds_from("abc", 3, 'c'));
    assert!(holds_from("abc", 2, 'c'));
    assert!(!holds_from("abc", 4, 'c'));
    assert!(!holds_from("", 0, 'a'));
}

#[test]
fn ends_of_the_list_are_where_steps_change_nothing() {
    assert!(cursor(0, false, false).at_first());
    assert!(!cursor(1, false, false).at_first());
    assert!(cursor(19, false, false).at_last(20));
    assert!(!cursor(18, false, false).at_last(20));
    assert!(cursor(0, false, false).at_last(1));
    assert!(cursor(0, false, false).at_last(0));
    assert!(cursor(5, false, false).at_last(3));
    assert!(!cursor(0, false, false).at_last(2));
    assert!(cursor(usize::MAX, false, false).at_last(usize::MAX));
}
