//! Fuzzy matching of a free-text assignee query against the employee
//! directory, and the ranking rules that decide whether a match may be
//! auto-assigned, suggested, or must be clarified.
use vstd::prelude::*;

use crate::domain::employee::{Employee, EmployeeMatch, EmployeeMatchOutcome, EmployeeView, MatchStrategy};
use crate::limits::MIN_EMPLOYEE_MATCH_SIMILARITY_PERCENT;
use crate::text::{
    chars_of, collapse_whitespace, collapse_ws, has_prefix, is_ws, lowercase, lowercase_chars,
    replace_char, replace_char_exec, split_whitespace, starts_with, strip_leading,
    strip_leading_exec, string_of, trim, trim_chars, trim_start, words, chars_views,
};

verus! {

/// At or above this confidence a single candidate may be auto-resolved.
pub const HIGH_CONFIDENCE_THRESHOLD: u8 = 95;
/// At or above this confidence a top candidate is offered as a suggestion.
pub const SUGGESTED_CONFIDENCE_THRESHOLD: u8 = 75;
/// Confidence of a first-name prefix match ("ABD" → "Abdullazi"): always a
/// suggestion, never an auto-assignment.
pub const PREFIX_MATCH_CONFIDENCE: u8 = 78;
/// Minimum query length (characters) for prefix matching.
pub const MIN_PREFIX_QUERY_LEN: usize = 2;
/// At most this many fuzzy suggestions are kept.
pub const MAX_SUGGESTIONS: usize = 3;

/// Levenshtein edit distance of two character sequences, counted in
/// characters as strsim counts it: the fewest single-character insertions,
/// deletions and substitutions that turn `a` into `b`.
pub open spec fn levenshtein(a: Seq<char>, b: Seq<char>) -> nat
    decreases a.len() + b.len(),
{
    if a.len() == 0 {
        b.len()
    } else if b.len() == 0 {
        a.len()
    } else {
        let substitute = levenshtein(a.drop_last(), b.drop_last()) + (if a.last() == b.last() { 0nat } else { 1nat });
        let delete = levenshtein(a.drop_last(), b) + 1;
        let insert = levenshtein(a, b.drop_last()) + 1;
        if substitute <= delete && substitute <= insert {
            substitute
        } else if delete <= insert {
            delete
        } else {
            insert
        }
    }
}

/// Wraps `strsim::levenshtein`: the edit distance `levenshtein`.
/// strsim documents the normalised score `1 - d / max_len` as lying in
/// [0, 1] and being 1 exactly for equal strings.
#[verifier::external_body]
fn levenshtein_distance(a: &str, b: &str) -> (r: usize)
    ensures
        r == levenshtein(a@, b@),
        r <= (if a@.len() >= b@.len() { a@.len() } else { b@.len() }),
        (r == 0) == (a@ == b@),
{
    strsim::levenshtein(a, b)
}

/// A match as a mathematical value.
pub struct MatchView {
    pub employee: EmployeeView,
    pub confidence: u8,
    pub strategy: MatchStrategy,
}

pub enum OutcomeView {
    Unique(MatchView),
    Ambiguous(Seq<MatchView>),
    NotFound,
}

pub open spec fn match_view(m: EmployeeMatch) -> MatchView {
    MatchView { employee: m.employee@, confidence: m.confidence, strategy: m.strategy }
}

pub open spec fn match_views(v: Seq<EmployeeMatch>) -> Seq<MatchView> {
    v.map_values(|m: EmployeeMatch| match_view(m))
}

pub open spec fn outcome_view(o: EmployeeMatchOutcome) -> OutcomeView {
    match o {
        EmployeeMatchOutcome::Unique(m) => OutcomeView::Unique(match_view(m)),
        EmployeeMatchOutcome::Ambiguous(v) => OutcomeView::Ambiguous(match_views(v@)),
        EmployeeMatchOutcome::NotFound => OutcomeView::NotFound,
    }
}

pub open spec fn employee_views(v: Seq<Employee>) -> Seq<EmployeeView> {
    v.map_values(|e: Employee| e@)
}

// ── Normalisation ──────────────────────────────────────────────────────────

/// Trimmed, lower-cased, `ё` folded to `е`, whitespace collapsed.
pub open spec fn normalize_name(s: Seq<char>) -> Seq<char> {
    collapse_ws(replace_char(lowercase(trim(s)), 'ё', 'е'))
}

/// Trimmed, leading `@` removed, lower-cased.
pub open spec fn normalize_username(s: Seq<char>) -> Seq<char> {
    lowercase(strip_leading(trim(s), '@'))
}

pub fn normalize_name_exec(value: &Vec<char>) -> (r: Vec<char>)
    ensures
        r@ == normalize_name(value@),
{
    let trimmed = trim_chars(value);
    let lowered = lowercase_chars(&trimmed);
    let folded = replace_char_exec(&lowered, 'ё', 'е');
    collapse_whitespace(&folded)
}

pub fn normalize_username_exec(value: &Vec<char>) -> (r: Vec<char>)
    ensures
        r@ == normalize_username(value@),
{
    let trimmed = trim_chars(value);
    let stripped = strip_leading_exec(&trimmed, '@');
    lowercase_chars(&stripped)
}

/// Normalised first word of a full name ("" when there is none).
pub open spec fn first_name_of(full_name: Seq<char>) -> Seq<char> {
    let w = words(full_name);
    if w.len() > 0 { normalize_name(w[0]) } else { seq![] }
}

pub(crate) fn first_name_exec(full_name: &Vec<char>) -> (r: Vec<char>)
    ensures
        r@ == first_name_of(full_name@),
{
    let ws = split_whitespace(full_name);
    if ws.len() > 0 {
        assert(chars_views(ws@)[0] == ws@[0]@);
        normalize_name_exec(&ws[0])
    } else {
        Vec::new()
    }
}

#[derive(Debug, Clone, Copy, PartialEq, Eq, Structural)]
pub enum EmployeeQueryKind {
    Username,
    FirstName,
    FullName,
}

pub open spec fn query_kind(q: Seq<char>) -> EmployeeQueryKind {
    let s = trim_start(q);
    if s.len() > 0 && s[0] == '@' {
        EmployeeQueryKind::Username
    } else if words(normalize_name(q)).len() <= 1 {
        EmployeeQueryKind::FirstName
    } else {
        EmployeeQueryKind::FullName
    }
}

fn trim_start_exec(s: &Vec<char>) -> (r: usize)
    ensures
        r <= s@.len(),
        s@.skip(r as int) == trim_start(s@),
{
    let mut i: usize = 0;
    proof {
        assert(s@.skip(0) =~= s@);
    }
    while i < s.len() && crate::text::char_is_whitespace(s[i])
        invariant
            i <= s.len(),
            trim_start(s@) == trim_start(s@.skip(i as int)),
        decreases s.len() - i,
    {
        proof {
            assert(s@.skip(i as int).drop_first() =~= s@.skip(i + 1));
        }
        i = i + 1;
    }
    i
}

/// Classifies a query as a username, a single first name or a full name.
pub fn classify_query(value: &Vec<char>) -> (r: EmployeeQueryKind)
    ensures
        r == query_kind(value@),
{
    let start = trim_start_exec(value);
    if start < value.len() && value[start] == '@' {
        return EmployeeQueryKind::Username;
    }
    let normalized = normalize_name_exec(value);
    let ws = split_whitespace(&normalized);
    if ws.len() <= 1 {
        EmployeeQueryKind::FirstName
    } else {
        EmployeeQueryKind::FullName
    }
}

// ── Ordering of candidates ────────────────────────────────────────────────

/// Lexicographic order of character sequences by code point (the order of
/// `String` comparison).
pub open spec fn lex_lt(a: Seq<char>, b: Seq<char>) -> bool
    decreases a.len(),
{
    if a.len() == 0 {
        b.len() > 0
    } else if b.len() == 0 {
        false
    } else if a[0] != b[0] {
        (a[0] as u32) < (b[0] as u32)
    } else {
        lex_lt(a.drop_first(), b.drop_first())
    }
}

pub(crate) fn lex_less(a: &Vec<char>, b: &Vec<char>) -> (r: bool)
    ensures
        r == lex_lt(a@, b@),
{
    let mut i: usize = 0;
    proof {
        assert(a@.skip(0) =~= a@);
        assert(b@.skip(0) =~= b@);
    }
    while i < a.len() && i < b.len()
        invariant
            i <= a.len(),
            i <= b.len(),
            lex_lt(a@, b@) == lex_lt(a@.skip(i as int), b@.skip(i as int)),
        decreases a.len() - i,
    {
        proof {
            assert(a@.skip(i as int).drop_first() =~= a@.skip(i + 1));
            assert(b@.skip(i as int).drop_first() =~= b@.skip(i + 1));
        }
        if a[i] != b[i] {
            return (a[i] as u32) < (b[i] as u32);
        }
        i = i + 1;
    }
    i == a.len() && i < b.len()
}

/// The code-point order of character sequences is irreflexive.
pub proof fn lemma_lex_irreflexive(a: Seq<char>)
    ensures
        !lex_lt(a, a),
    decreases a.len(),
{
    if a.len() > 0 {
        lemma_lex_irreflexive(a.drop_first());
    }
}

/// The code-point order of character sequences is transitive.
pub proof fn lemma_lex_transitive(a: Seq<char>, b: Seq<char>, c: Seq<char>)
    requires
        lex_lt(a, b),
        lex_lt(b, c),
    ensures
        lex_lt(a, c),
    decreases a.len(),
{
    if a.len() > 0 && b.len() > 0 && c.len() > 0 && a[0] == b[0] && b[0] == c[0] {
        lemma_lex_transitive(a.drop_first(), b.drop_first(), c.drop_first());
    }
}

/// Two different character sequences are ordered one way or the other.
pub proof fn lemma_lex_total(a: Seq<char>, b: Seq<char>)
    requires
        a != b,
    ensures
        lex_lt(a, b) || lex_lt(b, a),
    decreases a.len(),
{
    if a.len() > 0 && b.len() > 0 && a[0] == b[0] {
        if a.drop_first() == b.drop_first() {
            assert(a =~= seq![a[0]] + a.drop_first());
            assert(b =~= seq![b[0]] + b.drop_first());
        }
        lemma_lex_total(a.drop_first(), b.drop_first());
    } else if a.len() > 0 && b.len() > 0 {
        vstd::utf8::char_u32_cast(a[0], a[0] as u32);
        vstd::utf8::char_u32_cast(b[0], b[0] as u32);
    } else if a.len() == 0 && b.len() == 0 {
        assert(a =~= b);
    }
}

/// `x` sorts strictly before `y`: higher confidence first, then by name.
pub open spec fn ranks_before(x: MatchView, y: MatchView) -> bool {
    x.confidence > y.confidence || (x.confidence == y.confidence
        && lex_lt(x.employee.full_name, y.employee.full_name))
}

/// `x` inserted into `s` before the first element it ranks before.
pub open spec fn insert_ranked(s: Seq<MatchView>, x: MatchView) -> Seq<MatchView>
    decreases s.len(),
{
    if s.len() == 0 {
        seq![x]
    } else if ranks_before(x, s[0]) {
        seq![x] + s
    } else {
        seq![s[0]] + insert_ranked(s.drop_first(), x)
    }
}

/// Stable sort by rank: confidence descending, then full name ascending.
pub open spec fn sort_ranked(s: Seq<MatchView>) -> Seq<MatchView>
    decreases s.len(),
{
    if s.len() == 0 {
        s
    } else {
        insert_ranked(sort_ranked(s.drop_last()), s.last())
    }
}

/// Index at which `insert_ranked` places `x`.
pub open spec fn insert_index(s: Seq<MatchView>, x: MatchView) -> int
    decreases s.len(),
{
    if s.len() == 0 || ranks_before(x, s[0]) { 0 } else { 1 + insert_index(s.drop_first(), x) }
}

proof fn lemma_insert_index(s: Seq<MatchView>, x: MatchView)
    ensures
        0 <= insert_index(s, x) <= s.len(),
        insert_ranked(s, x) == s.insert(insert_index(s, x), x),
        forall|j: int| 0 <= j < insert_index(s, x) ==> !ranks_before(x, s[j]),
        insert_index(s, x) < s.len() ==> ranks_before(x, s[insert_index(s, x)]),
    decreases s.len(),
{
    if s.len() == 0 {
        assert(seq![x] =~= s.insert(0, x));
    } else if ranks_before(x, s[0]) {
        assert(seq![x] + s =~= s.insert(0, x));
    } else {
        lemma_insert_index(s.drop_first(), x);
        assert(seq![s[0]] + s.drop_first().insert(insert_index(s.drop_first(), x), x)
            =~= s.insert(insert_index(s, x), x));
        assert forall|j: int| 0 <= j < insert_index(s, x) implies !ranks_before(x, s[j]) by {
            if j > 0 {
                assert(s[j] == s.drop_first()[j - 1]);
            }
        }
    }
}

fn ranks_before_exec(x: &EmployeeMatch, y: &EmployeeMatch) -> (r: bool)
    ensures
        r == ranks_before(match_view(*x), match_view(*y)),
{
    if x.confidence != y.confidence {
        return x.confidence > y.confidence;
    }
    let a = chars_of(x.employee.full_name.as_str());
    let b = chars_of(y.employee.full_name.as_str());
    lex_less(&a, &b)
}

proof fn lemma_match_views_insert(v: Seq<EmployeeMatch>, i: int, x: EmployeeMatch)
    requires
        0 <= i <= v.len(),
    ensures
        match_views(v.insert(i, x)) == match_views(v).insert(i, match_view(x)),
{
    assert(match_views(v.insert(i, x)) =~= match_views(v).insert(i, match_view(x)));
}

/// `matches` in rank order (stable).
fn sort_matches(matches: Vec<EmployeeMatch>) -> (r: Vec<EmployeeMatch>)
    ensures
        match_views(r@) == sort_ranked(match_views(matches@)),
{
    let ghost input = match_views(matches@);
    let mut rest = matches;
    let mut sorted: Vec<EmployeeMatch> = Vec::new();
    let ghost mut taken: int = 0;
    // Insert elements in input order; `rest` holds the suffix not yet taken.
    let n = rest.len();
    let mut k: usize = 0;
    let mut items: Vec<EmployeeMatch> = Vec::new();
    // Reverse `rest` so that popping yields the input order.
    while rest.len() > 0
        invariant
            items@.len() + rest@.len() == n,
            forall|j: int| 0 <= j < items@.len() ==> match_view(items@[j]) == input[n - 1 - j],
            forall|j: int| 0 <= j < rest@.len() ==> match_view(rest@[j]) == input[j],
            input.len() == n,
        decreases rest.len(),
    {
        let item = rest.pop().unwrap();
        items.push(item);
    }
    while k < n
        invariant
            k <= n,
            items@.len() == n - k,
            forall|j: int| 0 <= j < items@.len() ==> match_view(items@[j]) == input[n - 1 - j],
            input.len() == n,
            match_views(sorted@) == sort_ranked(input.take(k as int)),
        decreases n - k,
    {
        let item = items.pop().unwrap();
        assert(match_view(item) == input[k as int]);
        let ghost before = match_views(sorted@);
        let mut pos: usize = 0;
        while pos < sorted.len() && !ranks_before_exec(&item, &sorted[pos])
            invariant
                pos <= sorted@.len(),
                before == match_views(sorted@),
                forall|j: int| 0 <= j < pos ==> !ranks_before(match_view(item), before[j]),
            decreases sorted.len() - pos,
        {
            pos = pos + 1;
        }
        proof {
            lemma_insert_index(before, match_view(item));
            let idx = insert_index(before, match_view(item));
            assert(idx == pos) by {
                if idx < pos {
                    assert(ranks_before(match_view(item), before[idx]));
                } else if idx > pos {
                    assert(!ranks_before(match_view(item), before[pos as int]));
                }
            }
            lemma_match_views_insert(sorted@, pos as int, item);
            assert(input.take(k + 1).drop_last() =~= input.take(k as int));
        }
        sorted.insert(pos, item);
        k = k + 1;
    }
    assert(input.take(n as int) =~= input);
    sorted
}

// ── Similarity ────────────────────────────────────────────────────────────

pub open spec fn max_len(a: Seq<char>, b: Seq<char>) -> nat {
    if a.len() >= b.len() { a.len() } else { b.len() }
}

/// strsim's normalised Levenshtein similarity is at least the threshold.
pub open spec fn similar_enough(q: Seq<char>, c: Seq<char>) -> bool {
    let m = max_len(q, c);
    m == 0 || 100 * (m - levenshtein(q, c)) >= MIN_EMPLOYEE_MATCH_SIMILARITY_PERCENT * m
}

/// The similarity in percent, rounded half up.
pub open spec fn similarity_percent(q: Seq<char>, c: Seq<char>) -> int {
    let m = max_len(q, c);
    if m == 0 { 100 } else { (200 * (m - levenshtein(q, c)) + m) / ((2 * m) as int) }
}

/// The candidate text an employee is compared by.
pub open spec fn candidate_text(e: EmployeeView, by_first_name: bool) -> Seq<char> {
    if by_first_name { first_name_of(e.full_name) } else { normalize_name(e.full_name) }
}

/// Fuzzy candidates in directory order, before ranking.
pub open spec fn fuzzy_candidates(emps: Seq<EmployeeView>, q: Seq<char>, strategy: MatchStrategy, by_first_name: bool) -> Seq<MatchView>
    decreases emps.len(),
{
    if emps.len() == 0 {
        seq![]
    } else {
        let rest = fuzzy_candidates(emps.drop_last(), q, strategy, by_first_name);
        let e = emps.last();
        let c = candidate_text(e, by_first_name);
        if similar_enough(q, c) {
            rest.push(MatchView { employee: e, confidence: similarity_percent(q, c) as u8, strategy })
        } else {
            rest
        }
    }
}

/// The best (at most three) fuzzy suggestions, in rank order.
pub open spec fn suggestions(emps: Seq<EmployeeView>, q: Seq<char>, strategy: MatchStrategy, by_first_name: bool) -> Seq<MatchView> {
    let sorted = sort_ranked(fuzzy_candidates(emps, q, strategy, by_first_name));
    if sorted.len() > MAX_SUGGESTIONS { sorted.take(MAX_SUGGESTIONS as int) } else { sorted }
}

proof fn lemma_sort_len(s: Seq<MatchView>)
    ensures
        sort_ranked(s).len() == s.len(),
    decreases s.len(),
{
    if s.len() > 0 {
        lemma_sort_len(s.drop_last());
        lemma_insert_index(sort_ranked(s.drop_last()), s.last());
    }
}

fn collect_matches(
    employees: &Vec<Employee>,
    normalized_query: &Vec<char>,
    strategy: MatchStrategy,
    by_first_name: bool,
) -> (r: Vec<EmployeeMatch>)
    ensures
        match_views(r@) == suggestions(employee_views(employees@), normalized_query@, strategy, by_first_name),
{
    let ghost emps = employee_views(employees@);
    let query_text = string_of(normalized_query.as_slice());
    let mut found: Vec<EmployeeMatch> = Vec::new();
    let mut i: usize = 0;
    while i < employees.len()
        invariant
            i <= employees.len(),
            emps == employee_views(employees@),
            query_text@ == normalized_query@,
            match_views(found@) == fuzzy_candidates(emps.take(i as int), normalized_query@, strategy, by_first_name),
        decreases employees.len() - i,
    {
        let employee = &employees[i];
        proof {
            assert(emps.take(i + 1).drop_last() =~= emps.take(i as int));
            assert(emps.take(i + 1).last() == employee@);
        }
        let candidate = if by_first_name {
            first_name_exec(&chars_of(employee.full_name.as_str()))
        } else {
            normalize_name_exec(&chars_of(employee.full_name.as_str()))
        };
        let candidate_text_s = string_of(candidate.as_slice());
        let distance = levenshtein_distance(query_text.as_str(), candidate_text_s.as_str());
        let m = if normalized_query.len() >= candidate.len() { normalized_query.len() } else { candidate.len() };
        let ghost prev = match_views(found@);
        if m == 0 || 100 * ((m - distance) as u128) >= (MIN_EMPLOYEE_MATCH_SIMILARITY_PERCENT as u128) * (m as u128) {
            let confidence: u8 = if m == 0 {
                100
            } else {
                let num = 200 * ((m - distance) as u128) + (m as u128);
                let den = 2 * (m as u128);
                assert(num / den <= 100) by (nonlinear_arith)
                    requires
                        num == 200 * (m - distance) + m,
                        den == 2 * m,
                        distance <= m,
                        m > 0,
                {
                }
                (num / den) as u8
            };
            found.push(EmployeeMatch { employee: employee.duplicate(), confidence, strategy });
            assert(match_views(found@) =~= prev.push(MatchView {
                employee: employee@,
                confidence: similarity_percent(normalized_query@, candidate@) as u8,
                strategy,
            }));
        } else {
            assert(match_views(found@) =~= prev);
        }
        i = i + 1;
    }
    assert(emps.take(employees.len() as int) =~= emps);
    let mut sorted = sort_matches(found);
    proof {
        lemma_sort_len(fuzzy_candidates(emps, normalized_query@, strategy, by_first_name));
    }
    if sorted.len() > MAX_SUGGESTIONS {
        sorted.truncate(MAX_SUGGESTIONS);
        assert(match_views(sorted@) =~= sort_ranked(fuzzy_candidates(emps, normalized_query@, strategy, by_first_name)).take(MAX_SUGGESTIONS as int));
    }
    sorted
}


// ── Exact and prefix probes ──────────────────────────────────────────────

/// A test an employee record is put to by the exact matchers.
pub enum Probe {
    /// Normalised username equal to the (normalised) query.
    Username(Seq<char>),
    /// Normalised full name equal to the normalised query.
    FullName(Seq<char>),
    /// Normalised first name equal to the normalised query.
    FirstName(Seq<char>),
    /// The normalised query is a proper prefix of the first name.
    Prefix(Seq<char>),
}

pub open spec fn probe_holds(p: Probe, e: EmployeeView) -> bool {
    match p {
        Probe::Username(u) => e.telegram_username matches Some(name) && normalize_username(name) == u,
        Probe::FullName(q) => normalize_name(e.full_name) == q,
        Probe::FirstName(q) => first_name_of(e.full_name) == q,
        Probe::Prefix(q) => has_prefix(first_name_of(e.full_name), q)
            && first_name_of(e.full_name).len() > q.len(),
    }
}

/// The first employee (in directory order) passing the probe.
pub open spec fn find_first(emps: Seq<EmployeeView>, p: Probe) -> Option<EmployeeView>
    decreases emps.len(),
{
    if emps.len() == 0 {
        None
    } else if probe_holds(p, emps[0]) {
        Some(emps[0])
    } else {
        find_first(emps.drop_first(), p)
    }
}

/// Every employee passing the probe, in directory order, as a match.
pub open spec fn select(emps: Seq<EmployeeView>, p: Probe, confidence: u8, strategy: MatchStrategy) -> Seq<MatchView>
    decreases emps.len(),
{
    if emps.len() == 0 {
        seq![]
    } else {
        let rest = select(emps.drop_last(), p, confidence, strategy);
        if probe_holds(p, emps.last()) {
            rest.push(MatchView { employee: emps.last(), confidence, strategy })
        } else {
            rest
        }
    }
}

fn probe_exec(kind: u8, query: &Vec<char>, employee: &Employee) -> (r: bool)
    requires
        kind < 4,
    ensures
        r == probe_holds(probe_of(kind, query@), employee@),
{
    if kind == 0 {
        match &employee.telegram_username {
            Some(name) => {
                let normalized = normalize_username_exec(&chars_of(name.as_str()));
                crate::text::seq_equal(&normalized, query)
            },
            None => false,
        }
    } else if kind == 1 {
        let normalized = normalize_name_exec(&chars_of(employee.full_name.as_str()));
        crate::text::seq_equal(&normalized, query)
    } else {
        let first = first_name_exec(&chars_of(employee.full_name.as_str()));
        if kind == 2 {
            crate::text::seq_equal(&first, query)
        } else {
            starts_with(&first, query) && first.len() > query.len()
        }
    }
}

pub open spec fn probe_of(kind: u8, q: Seq<char>) -> Probe {
    if kind == 0 {
        Probe::Username(q)
    } else if kind == 1 {
        Probe::FullName(q)
    } else if kind == 2 {
        Probe::FirstName(q)
    } else {
        Probe::Prefix(q)
    }
}

fn find_first_exec(employees: &Vec<Employee>, kind: u8, query: &Vec<char>) -> (r: Option<usize>)
    requires
        kind < 4,
    ensures
        match find_first(employee_views(employees@), probe_of(kind, query@)) {
            Some(e) => r matches Some(i) && i < employees.len() && employees@[i as int]@ == e,
            None => r is None,
        },
{
    let ghost emps = employee_views(employees@);
    let ghost p = probe_of(kind, query@);
    let mut i: usize = 0;
    proof {
        assert(emps.skip(0) =~= emps);
    }
    while i < employees.len()
        invariant
            i <= employees.len(),
            emps == employee_views(employees@),
            p == probe_of(kind, query@),
            kind < 4,
            find_first(emps, p) == find_first(emps.skip(i as int), p),
        decreases employees.len() - i,
    {
        proof {
            assert(emps.skip(i as int).drop_first() =~= emps.skip(i + 1));
            assert(emps.skip(i as int)[0] == employees@[i as int]@);
        }
        if probe_exec(kind, query, &employees[i]) {
            return Some(i);
        }
        i = i + 1;
    }
    None
}

fn select_exec(employees: &Vec<Employee>, kind: u8, query: &Vec<char>, confidence: u8, strategy: MatchStrategy) -> (r: Vec<EmployeeMatch>)
    requires
        kind < 4,
    ensures
        match_views(r@) == select(employee_views(employees@), probe_of(kind, query@), confidence, strategy),
{
    let ghost emps = employee_views(employees@);
    let ghost p = probe_of(kind, query@);
    let mut found: Vec<EmployeeMatch> = Vec::new();
    let mut i: usize = 0;
    while i < employees.len()
        invariant
            i <= employees.len(),
            emps == employee_views(employees@),
            p == probe_of(kind, query@),
            kind < 4,
            match_views(found@) == select(emps.take(i as int), p, confidence, strategy),
        decreases employees.len() - i,
    {
        proof {
            assert(emps.take(i + 1).drop_last() =~= emps.take(i as int));
            assert(emps.take(i + 1).last() == employees@[i as int]@);
        }
        let ghost prev = match_views(found@);
        if probe_exec(kind, query, &employees[i]) {
            found.push(EmployeeMatch { employee: employees[i].duplicate(), confidence, strategy });
            assert(match_views(found@) =~= prev.push(
                MatchView { employee: employees@[i as int]@, confidence, strategy },
            ));
        } else {
            assert(match_views(found@) =~= prev);
        }
        i = i + 1;
    }
    assert(emps.take(employees.len() as int) =~= emps);
    found
}

// ── The matcher ───────────────────────────────────────────────────────────

/// Ambiguous when there are candidates, not found otherwise.
pub open spec fn from_suggestions(s: Seq<MatchView>) -> OutcomeView {
    if s.len() == 0 { OutcomeView::NotFound } else { OutcomeView::Ambiguous(s) }
}

/// The outcome of matching `query` against the directory `emps`:
/// an exact username, then an exact full name; for a single-word query an
/// exact first name, then (from two characters on) a proper first-name
/// prefix, then fuzzy first-name suggestions; otherwise fuzzy full-name
/// suggestions.
pub open spec fn match_outcome(query: Seq<char>, emps: Seq<EmployeeView>) -> OutcomeView {
    let nq = normalize_name(query);
    let nu = normalize_username(query);
    let exact_first = select(emps, Probe::FirstName(nq), 100, MatchStrategy::ExactFirstName);
    let prefixed = select(emps, Probe::Prefix(nq), PREFIX_MATCH_CONFIDENCE, MatchStrategy::PrefixFirstName);
    if let Some(e) = find_first(emps, Probe::Username(nu)) {
        OutcomeView::Unique(MatchView { employee: e, confidence: 100, strategy: MatchStrategy::ExactUsername })
    } else if let Some(e) = find_first(emps, Probe::FullName(nq)) {
        OutcomeView::Unique(MatchView { employee: e, confidence: 100, strategy: MatchStrategy::ExactFullName })
    } else if query_kind(query) == EmployeeQueryKind::FirstName {
        if exact_first.len() == 1 {
            OutcomeView::Unique(exact_first[0])
        } else if exact_first.len() > 1 {
            OutcomeView::Ambiguous(exact_first)
        } else if nq.len() >= MIN_PREFIX_QUERY_LEN && prefixed.len() == 1 {
            OutcomeView::Unique(prefixed[0])
        } else if nq.len() >= MIN_PREFIX_QUERY_LEN && prefixed.len() > 1 {
            OutcomeView::Ambiguous(sort_ranked(prefixed))
        } else {
            from_suggestions(suggestions(emps, nq, MatchStrategy::SuggestedFirstName, true))
        }
    } else {
        from_suggestions(suggestions(emps, nq, MatchStrategy::SuggestedFullName, false))
    }
}

fn take_single(mut v: Vec<EmployeeMatch>) -> (r: EmployeeMatch)
    requires
        v.len() == 1,
    ensures
        match_view(r) == match_view(v@[0]),
{
    v.pop().unwrap()
}

fn outcome_from_suggestions(v: Vec<EmployeeMatch>) -> (r: EmployeeMatchOutcome)
    ensures
        outcome_view(r) == from_suggestions(match_views(v@)),
{
    if v.len() == 0 {
        EmployeeMatchOutcome::NotFound
    } else {
        EmployeeMatchOutcome::Ambiguous(v)
    }
}

/// Matches a free-text assignee query against the employee directory.
pub fn match_employee_name(query: &str, employees: &Vec<Employee>) -> (r: EmployeeMatchOutcome)
    ensures
        outcome_view(r) == match_outcome(query@, employee_views(employees@)),
{
    let ghost emps = employee_views(employees@);
    let raw = chars_of(query);
    let normalized_query = normalize_name_exec(&raw);
    let normalized_username_query = normalize_username_exec(&raw);
    let kind = classify_query(&raw);

    if let Some(i) = find_first_exec(employees, 0, &normalized_username_query) {
        return EmployeeMatchOutcome::Unique(EmployeeMatch {
            employee: employees[i].duplicate(),
            confidence: 100,
            strategy: MatchStrategy::ExactUsername,
        });
    }
    if let Some(i) = find_first_exec(employees, 1, &normalized_query) {
        return EmployeeMatchOutcome::Unique(EmployeeMatch {
            employee: employees[i].duplicate(),
            confidence: 100,
            strategy: MatchStrategy::ExactFullName,
        });
    }
    if kind == EmployeeQueryKind::FirstName {
        let exact = select_exec(employees, 2, &normalized_query, 100, MatchStrategy::ExactFirstName);
        if exact.len() == 1 {
            return EmployeeMatchOutcome::Unique(take_single(exact));
        }
        if exact.len() > 1 {
            return EmployeeMatchOutcome::Ambiguous(exact);
        }
        if normalized_query.len() >= MIN_PREFIX_QUERY_LEN {
            let prefixed = select_exec(
                employees,
                3,
                &normalized_query,
                PREFIX_MATCH_CONFIDENCE,
                MatchStrategy::PrefixFirstName,
            );
            if prefixed.len() == 1 {
                return EmployeeMatchOutcome::Unique(take_single(prefixed));
            }
            if prefixed.len() > 1 {
                return EmployeeMatchOutcome::Ambiguous(sort_matches(prefixed));
            }
        }
        let suggested = collect_matches(employees, &normalized_query, MatchStrategy::SuggestedFirstName, true);
        return outcome_from_suggestions(suggested);
    }
    let suggested = collect_matches(employees, &normalized_query, MatchStrategy::SuggestedFullName, false);
    outcome_from_suggestions(suggested)
}

// ── Ranking ───────────────────────────────────────────────────────────────

/// How a match outcome is acted upon: auto-assign, suggest for
/// confirmation, ask to choose, or report nothing found.
#[derive(Debug)]
pub enum RankedOutcome {
    Unique(EmployeeMatch),
    Suggested(EmployeeMatch, Vec<EmployeeMatch>),
    Ambiguous(Vec<EmployeeMatch>),
    NotFound,
}

pub enum RankedView {
    Unique(MatchView),
    Suggested(MatchView, Seq<MatchView>),
    Ambiguous(Seq<MatchView>),
    NotFound,
}

pub open spec fn ranked_view(r: RankedOutcome) -> RankedView {
    match r {
        RankedOutcome::Unique(m) => RankedView::Unique(match_view(m)),
        RankedOutcome::Suggested(m, rest) => RankedView::Suggested(match_view(m), match_views(rest@)),
        RankedOutcome::Ambiguous(v) => RankedView::Ambiguous(match_views(v@)),
        RankedOutcome::NotFound => RankedView::NotFound,
    }
}

/// The candidates at or above the suggestion threshold, in order.
pub open spec fn confident(s: Seq<MatchView>) -> Seq<MatchView>
    decreases s.len(),
{
    if s.len() == 0 {
        seq![]
    } else if s.last().confidence >= SUGGESTED_CONFIDENCE_THRESHOLD {
        confident(s.drop_last()).push(s.last())
    } else {
        confident(s.drop_last())
    }
}

/// A single candidate: auto-assign from the high threshold, suggest from the
/// suggestion threshold, otherwise nothing.
pub open spec fn rank_single(m: MatchView) -> RankedView {
    if m.confidence >= HIGH_CONFIDENCE_THRESHOLD {
        RankedView::Unique(m)
    } else if m.confidence >= SUGGESTED_CONFIDENCE_THRESHOLD {
        RankedView::Suggested(m, seq![])
    } else {
        RankedView::NotFound
    }
}

/// The ranking rules applied to an outcome.  Several confident candidates
/// are all listed for the caller to choose from.
pub open spec fn rank(o: OutcomeView) -> RankedView {
    match o {
        OutcomeView::Unique(m) => rank_single(m),
        OutcomeView::Ambiguous(c) => {
            let f = confident(c);
            if f.len() == 0 {
                RankedView::NotFound
            } else if f.len() == 1 {
                rank_single(f[0])
            } else {
                RankedView::Ambiguous(f)
            }
        },
        OutcomeView::NotFound => RankedView::NotFound,
    }
}

proof fn lemma_confident(s: Seq<MatchView>)
    ensures
        forall|i: int| 0 <= i < confident(s).len() ==> confident(s)[i].confidence >= SUGGESTED_CONFIDENCE_THRESHOLD,
        confident(s).len() <= s.len(),
    decreases s.len(),
{
    if s.len() > 0 {
        lemma_confident(s.drop_last());
    }
}

/// Applies the ranking thresholds to a match outcome.
pub fn rank_outcome(outcome: EmployeeMatchOutcome) -> (r: RankedOutcome)
    ensures
        ranked_view(r) == rank(outcome_view(outcome)),
{
    match outcome {
        EmployeeMatchOutcome::Unique(top) => {
            if top.confidence >= HIGH_CONFIDENCE_THRESHOLD {
                RankedOutcome::Unique(top)
            } else if top.confidence >= SUGGESTED_CONFIDENCE_THRESHOLD {
                let none: Vec<EmployeeMatch> = Vec::new();
                assert(match_views(none@) =~= seq![]);
                RankedOutcome::Suggested(top, none)
            } else {
                RankedOutcome::NotFound
            }
        },
        EmployeeMatchOutcome::Ambiguous(candidates) => {
            let ghost input = match_views(candidates@);
            let mut filtered: Vec<EmployeeMatch> = Vec::new();
            let mut rest_in = candidates;
            let n = rest_in.len();
            let mut reversed: Vec<EmployeeMatch> = Vec::new();
            while rest_in.len() > 0
                invariant
                    reversed@.len() + rest_in@.len() == n,
                    input.len() == n,
                    forall|j: int| 0 <= j < reversed@.len() ==> match_view(reversed@[j]) == input[n - 1 - j],
                    forall|j: int| 0 <= j < rest_in@.len() ==> match_view(rest_in@[j]) == input[j],
                decreases rest_in.len(),
            {
                let item = rest_in.pop().unwrap();
                reversed.push(item);
            }
            let mut k: usize = 0;
            while k < n
                invariant
                    k <= n,
                    input.len() == n,
                    reversed@.len() == n - k,
                    forall|j: int| 0 <= j < reversed@.len() ==> match_view(reversed@[j]) == input[n - 1 - j],
                    match_views(filtered@) == confident(input.take(k as int)),
                decreases n - k,
            {
                let item = reversed.pop().unwrap();
                proof {
                    assert(input.take(k + 1).drop_last() =~= input.take(k as int));
                    assert(input.take(k + 1).last() == match_view(item));
                }
                let ghost prev = match_views(filtered@);
                if item.confidence >= SUGGESTED_CONFIDENCE_THRESHOLD {
                    filtered.push(item);
                    assert(match_views(filtered@) =~= prev.push(input[k as int]));
                }
                k = k + 1;
            }
            assert(input.take(n as int) =~= input);
            proof {
                lemma_confident(input);
            }
            if filtered.len() == 0 {
                RankedOutcome::NotFound
            } else if filtered.len() == 1 {
                let top = take_single(filtered);
                if top.confidence >= HIGH_CONFIDENCE_THRESHOLD {
                    RankedOutcome::Unique(top)
                } else {
                    let none: Vec<EmployeeMatch> = Vec::new();
                    assert(match_views(none@) =~= seq![]);
                    RankedOutcome::Suggested(top, none)
                }
            } else {
                RankedOutcome::Ambiguous(filtered)
            }
        },
        EmployeeMatchOutcome::NotFound => RankedOutcome::NotFound,
    }
}

/// Ranking never auto-assigns below the high threshold, and every candidate
/// it offers clears the suggestion threshold.
pub proof fn ranking_never_auto_assigns_low_confidence(o: OutcomeView)
    ensures
        rank(o) matches RankedView::Unique(m) ==> m.confidence >= HIGH_CONFIDENCE_THRESHOLD,
        rank(o) matches RankedView::Suggested(m, rest) ==> m.confidence >= SUGGESTED_CONFIDENCE_THRESHOLD
            && forall|i: int| 0 <= i < rest.len() ==> rest[i].confidence >= SUGGESTED_CONFIDENCE_THRESHOLD,
        rank(o) matches RankedView::Ambiguous(c) ==> forall|i: int| 0 <= i < c.len() ==> c[i].confidence >= SUGGESTED_CONFIDENCE_THRESHOLD,
{
    if let OutcomeView::Ambiguous(c) = o {
        lemma_confident(c);
    }
}

/// A prefix match is always offered for confirmation, never auto-assigned.
pub proof fn prefix_match_is_only_suggested(m: MatchView)
    requires
        m.confidence == PREFIX_MATCH_CONFIDENCE,
    ensures
        rank(OutcomeView::Unique(m)) == RankedView::Suggested(m, seq![]),
{
}

} // verus!
