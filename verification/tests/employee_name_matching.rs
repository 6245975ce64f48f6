use telegram_task_bot::domain::employee::{Employee, EmployeeMatch, EmployeeMatchOutcome, EmployeeSource, MatchStrategy};
use telegram_task_bot::domain::name_matching::{
    match_employee_name, rank_outcome, RankedOutcome, HIGH_CONFIDENCE_THRESHOLD, PREFIX_MATCH_CONFIDENCE,
    SUGGESTED_CONFIDENCE_THRESHOLD,
};

fn make_employee(full_name: &str, username: Option<&str>) -> Employee {
    let now = chrono::Utc::now().timestamp();
    Employee {
        id: Some(1),
        full_name: full_name.to_owned(),
        telegram_username: username.map(str::to_owned),
        email: None,
        phone: None,
        department: None,
        is_active: true,
        source: EmployeeSource::GoogleSheets,
        synced_at: None,
        created_at: now,
        updated_at: now,
    }
}

#[test]
fn exact_full_name_match_returns_unique_at_100() {
    let employees = vec![make_employee("Иван Иванов", Some("ivanov"))];

    let outcome = match_employee_name("Иван Иванов", &employees);

    assert!(
        matches!(outcome, EmployeeMatchOutcome::Unique(ref m) if m.confidence == 100),
        "exact full name must resolve to Unique(100)"
    );
}

#[test]
fn exact_username_match_returns_unique_at_100() {
    let employees = vec![make_employee("Иван Иванов", Some("ivanov"))];

    let outcome = match_employee_name("@ivanov", &employees);

    assert!(
        matches!(outcome, EmployeeMatchOutcome::Unique(ref m)
            if m.confidence == 100 && matches!(m.strategy, MatchStrategy::ExactUsername)),
        "username match must be Unique with ExactUsername strategy"
    );
}

#[test]
fn exact_first_name_single_match_returns_unique_at_100() {
    let employees = vec![make_employee("Иван Иванов", Some("ivanov")), make_employee("Пётр Петров", None)];

    let outcome = match_employee_name("Иван", &employees);

    assert!(
        matches!(outcome, EmployeeMatchOutcome::Unique(ref m) if m.confidence == 100),
        "unique exact first-name match must resolve to Unique(100)"
    );
}

#[test]
fn exact_first_name_two_matches_returns_ambiguous() {
    let employees = vec![make_employee("Иван Иванов", None), make_employee("Иван Сидоров", None)];

    let outcome = match_employee_name("Иван", &employees);

    assert!(
        matches!(outcome, EmployeeMatchOutcome::Ambiguous(ref v) if v.len() == 2),
        "duplicate first name must produce Ambiguous"
    );
}

#[test]
fn prefix_abbreviation_unique_returns_unique_at_prefix_confidence() {
    let employees = vec![make_employee("Abdullazi Zazizov", None), make_employee("Иван Иванов", None)];

    let outcome = match_employee_name("ABD", &employees);

    match outcome {
        EmployeeMatchOutcome::Unique(ref m) => {
            assert_eq!(m.confidence, PREFIX_MATCH_CONFIDENCE, "prefix match confidence must equal PREFIX_MATCH_CONFIDENCE");
            assert!(matches!(m.strategy, MatchStrategy::PrefixFirstName), "strategy must be PrefixFirstName");
            assert_eq!(m.employee.full_name, "Abdullazi Zazizov");
        }
        other => panic!("expected Unique, got {other:?}"),
    }
}

#[test]
fn prefix_abbreviation_lowercase_is_normalised() {
    let employees = vec![make_employee("Abdullazi Zazizov", None)];

    let outcome = match_employee_name("abd", &employees);

    assert!(
        matches!(outcome, EmployeeMatchOutcome::Unique(ref m) if matches!(m.strategy, MatchStrategy::PrefixFirstName)),
        "lowercase prefix must match after normalisation"
    );
}

#[test]
fn prefix_ambiguous_when_multiple_employees_share_prefix() {
    let employees = vec![make_employee("Abdullazi Zazizov", None), make_employee("Abdulla Karimov", None)];

    let outcome = match_employee_name("Abd", &employees);

    assert!(
        matches!(outcome, EmployeeMatchOutcome::Ambiguous(ref v) if v.len() == 2),
        "shared prefix must produce Ambiguous with all matching employees"
    );
}

#[test]
fn prefix_single_char_query_does_not_match() {
    let employees = vec![make_employee("Abdullazi Zazizov", None)];

    let outcome = match_employee_name("A", &employees);

    assert!(
        !matches!(outcome, EmployeeMatchOutcome::Unique(ref m) if matches!(m.strategy, MatchStrategy::PrefixFirstName)),
        "single-char query must not trigger prefix match"
    );
}

#[test]
fn prefix_exact_match_falls_through_to_exact_first_name() {
    let employees = vec![make_employee("Abdullazi Zazizov", None)];

    let outcome = match_employee_name("Abdullazi", &employees);

    assert!(
        matches!(outcome, EmployeeMatchOutcome::Unique(ref m) if matches!(m.strategy, MatchStrategy::ExactFirstName)),
        "exact first-name query must use ExactFirstName, not PrefixFirstName"
    );
}

#[test]
fn rank_outcome_unique_above_high_threshold_stays_unique() {
    let m = EmployeeMatch {
        employee: make_employee("Иван Иванов", None),
        confidence: HIGH_CONFIDENCE_THRESHOLD,
        strategy: MatchStrategy::SuggestedFullName,
    };
    let outcome = EmployeeMatchOutcome::Unique(m);

    assert!(matches!(rank_outcome(outcome), RankedOutcome::Unique(_)));
}

#[test]
fn rank_outcome_prefix_confidence_becomes_suggested_not_unique() {
    let m = EmployeeMatch {
        employee: make_employee("Abdullazi Zazizov", None),
        confidence: PREFIX_MATCH_CONFIDENCE,
        strategy: MatchStrategy::PrefixFirstName,
    };
    let outcome = EmployeeMatchOutcome::Unique(m);

    assert!(
        matches!(rank_outcome(outcome), RankedOutcome::Suggested(_, _)),
        "prefix match confidence ({PREFIX_MATCH_CONFIDENCE}) must rank as Suggested, never auto-assigned"
    );
}

#[test]
fn rank_outcome_below_suggested_threshold_becomes_not_found() {
    let m = EmployeeMatch {
        employee: make_employee("Иван Иванов", None),
        confidence: SUGGESTED_CONFIDENCE_THRESHOLD - 1,
        strategy: MatchStrategy::SuggestedFullName,
    };
    let outcome = EmployeeMatchOutcome::Unique(m);

    assert!(
        matches!(rank_outcome(outcome), RankedOutcome::NotFound),
        "confidence below suggestion floor must downgrade to NotFound"
    );
}

#[test]
fn yo_normalisation_allows_match_regardless_of_letter_variant() {
    let employees = vec![make_employee("Алёша Пушкин", None)];

    assert!(matches!(match_employee_name("Алёша", &employees), EmployeeMatchOutcome::Unique(_)));
    assert!(matches!(match_employee_name("Алеша", &employees), EmployeeMatchOutcome::Unique(_)));
}

#[test]
fn completely_unrelated_query_returns_not_found() {
    let employees = vec![make_employee("Иван Иванов", Some("ivanov"))];

    let outcome = match_employee_name("Зzzz", &employees);

    assert!(matches!(rank_outcome(outcome), RankedOutcome::NotFound));
}

#[test]
fn misspelt_full_name_is_only_suggested() {
    let employees = vec![make_employee("Иван Иванов", None)];

    let outcome = match_employee_name("Иван Иваноф", &employees);

    match rank_outcome(outcome) {
        RankedOutcome::Suggested(top, _) => {
            assert_eq!(top.employee.full_name, "Иван Иванов");
            assert!(top.confidence >= SUGGESTED_CONFIDENCE_THRESHOLD);
            assert!(top.confidence < 100);
        }
        RankedOutcome::Unique(m) => assert!(m.confidence >= HIGH_CONFIDENCE_THRESHOLD),
        _ => panic!("a one-letter typo must still be offered"),
    }
}

#[test]
fn two_confident_candidates_are_both_listed() {
    let pick = |name: &str, confidence: u8| EmployeeMatch {
        employee: make_employee(name, None),
        confidence,
        strategy: MatchStrategy::ExactFirstName,
    };
    let outcome = EmployeeMatchOutcome::Ambiguous(vec![
        pick("Иван Иванов", 100),
        pick("Иван Сидоров", 100),
        pick("Иван Петров", SUGGESTED_CONFIDENCE_THRESHOLD - 1),
    ]);
    match rank_outcome(outcome) {
        RankedOutcome::Ambiguous(listed) => {
            assert_eq!(listed.len(), 2);
            assert_eq!(listed[0].employee.full_name, "Иван Иванов");
            assert_eq!(listed[1].employee.full_name, "Иван Сидоров");
        }
        _ => panic!("two credible candidates must be listed"),
    }
}
