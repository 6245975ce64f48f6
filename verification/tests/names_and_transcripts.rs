use telegram_task_bot::domain::person_name::{PersonName, MAX_PERSON_NAME_PART_LENGTH};
use telegram_task_bot::domain::voice_transcript::NormalizedTranscript;
use telegram_task_bot::limits::MAX_TRANSCRIPT_LENGTH;

#[test]
fn given_valid_raw_parts_when_parse_then_returns_normalized_name() {
    let parsed = PersonName::parse("  Иван  ", "Иванов").expect("parse should succeed");

    assert_eq!(parsed.first(), "Иван");
    assert_eq!(parsed.last(), "Иванов");
    assert_eq!(parsed.display(), "Иван Иванов");
    assert_eq!(parsed.display_reversed(), "Иванов Иван");
}

#[test]
fn given_empty_first_when_parse_then_returns_validation_error() {
    let error = PersonName::parse("", "Иванов").expect_err("parse should reject empty first");

    assert_eq!(error.code(), "PERSON_NAME_EMPTY");
}

#[test]
fn given_name_exceeding_limit_when_parse_then_returns_validation_error() {
    let long = "и".repeat(MAX_PERSON_NAME_PART_LENGTH + 1);

    let error = PersonName::parse(&long, "Иванов").expect_err("parse should reject overlong part");

    assert_eq!(error.code(), "PERSON_NAME_TOO_LONG");
}

#[test]
fn given_symbols_when_parse_then_rejects_disallowed_characters() {
    let error = PersonName::parse("Ив@н", "Иванов").expect_err("parse should reject symbols");

    assert_eq!(error.code(), "PERSON_NAME_INVALID_CHARACTERS");
}

#[test]
fn given_parsed_name_when_trigrams_then_lowercases_and_replaces_yo() {
    let parsed = PersonName::parse("Алёша", "Пушкин").expect("parse should succeed");

    let trigrams = parsed.trigrams();

    assert!(trigrams.iter().any(|trigram| trigram == "але"));
    assert!(trigrams.iter().all(|trigram| !trigram.contains('ё')));
}

#[test]
fn name_at_exact_limit_is_accepted() {
    let exact = "и".repeat(MAX_PERSON_NAME_PART_LENGTH);
    let parsed = PersonName::parse(&exact, "Иванов").expect("a part of exactly the limit is valid");
    assert_eq!(parsed.first().chars().count(), MAX_PERSON_NAME_PART_LENGTH);
}

#[test]
fn hyphenated_and_inner_spaces_are_kept_single() {
    let parsed = PersonName::parse("Анна-Мария", "  Ван   дер  Берг ").expect("valid");
    assert_eq!(parsed.first(), "Анна-Мария");
    assert_eq!(parsed.last(), "Ван дер Берг");
}

#[test]
fn given_whitespace_heavy_input_when_normalised_then_collapsed_and_trimmed() {
    let t = NormalizedTranscript::from_raw("  Подготовь  отчёт\n\nк пятнице   ").unwrap();
    assert_eq!(t.text, "Подготовь отчёт к пятнице");
    assert!(!t.truncated);
}

#[test]
fn given_empty_input_when_normalised_then_returns_stable_error_code() {
    let err = NormalizedTranscript::from_raw("   \n  ").unwrap_err();
    assert_eq!(err.code(), "TRANSCRIPTION_EMPTY");
}

#[test]
fn given_oversized_input_when_normalised_then_clips_and_flags_truncated() {
    let long = "Подготовить отчёт. ".repeat(1_000);
    let t = NormalizedTranscript::from_raw(&long).unwrap();
    assert!(t.truncated);
    assert!(
        t.text.chars().count() <= MAX_TRANSCRIPT_LENGTH + 1,
        "clipped length: {}",
        t.text.chars().count()
    );
    assert!(t.text.ends_with('…'));
}

#[test]
fn given_mid_word_boundary_when_clipping_then_backoff_to_whitespace() {
    let long = format!("{}ABCDEFG", "slово ".repeat(MAX_TRANSCRIPT_LENGTH));
    let t = NormalizedTranscript::from_raw(&long).unwrap();
    assert!(t.truncated);
    assert!(!t.text.contains("ABCDEFG"));
}

#[test]
fn short_transcript_keeps_its_length() {
    let t = NormalizedTranscript::from_raw("короткий текст").unwrap();
    assert_eq!(t.original_length, 14);
    assert_eq!(t.text, "короткий текст");
}

#[test]
fn long_word_past_the_window_is_not_split() {
    let long = format!("ab cd {}", "x".repeat(MAX_TRANSCRIPT_LENGTH));
    let t = NormalizedTranscript::from_raw(&long).unwrap();
    assert!(t.truncated);
    assert_eq!(t.text, "ab cd…");
}

#[test]
fn unicode_spaces_collapse_and_controls_drop() {
    let t = NormalizedTranscript::from_raw("a\u{2003}\u{3000}b\u{85}c\u{7}d").unwrap();
    assert_eq!(t.text, "a b cd");
}
