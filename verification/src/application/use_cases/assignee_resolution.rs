//! Resolving a free-text assignee query to an employee and/or a registered
//! user.  Resolution alternates directory lookups with decisions; the
//! decisions are the steps below, the lookups are performed by the caller
//! between them:
//!
//! 1. [`start_resolution`]: an empty query resolves to "unassigned",
//!    anything else needs the active employees.
//! 2. [`after_employees_loaded`]: the employee matcher decides; a unique
//!    employee with a username needs that user looked up, a bare
//!    `@username`-like query needs the user looked up by name.
//! 3. [`after_username_lookup`] / [`after_employee_user_lookup`] finish.
use vstd::prelude::*;

use crate::application::dto::{ClarificationRequest, EmployeeCandidateView};
use crate::domain::employee::{Employee, EmployeeMatch, EmployeeMatchOutcome, EmployeeView};
use crate::domain::name_matching::{
    employee_views, match_employee_name, match_outcome, MatchView, OutcomeView,
};
use crate::domain::user::User;
use crate::text::{
    chars_of, is_ascii_alnum, opt_view, split_whitespace, string_of, strip_leading,
    strip_leading_exec, trim, trim_str, words,
};

verus! {

/// Message when a `@username`-like query names nobody registered.
pub const UNKNOWN_USERNAME_MESSAGE: &'static str = "Не вижу этого @username среди зарегистрированных пользователей. Попросите коллегу открыть бота через /start или выберите нужного сотрудника ниже.";
/// Message when a full name matched several employees.
pub const AMBIGUOUS_FULL_NAME_MESSAGE: &'static str = "Нашёл похожих сотрудников, но не могу безопасно назначить задачу автоматически. Выберите правильного человека явно, чтобы задача не ушла не тому.";
/// Message when a single name matched several employees.
pub const AMBIGUOUS_NAME_MESSAGE: &'static str = "С этим именем есть несколько сотрудников. Выберите точного исполнителя явно, чтобы задача не ушла не тому.";
/// Message when a full name matched nobody.
pub const UNMATCHED_FULL_NAME_MESSAGE: &'static str = "Не могу безопасно сопоставить это полное имя. Проверьте написание, выберите подходящего сотрудника или создайте задачу без исполнителя.";
/// Message when nothing matched.
pub const UNMATCHED_MESSAGE: &'static str = "Не могу безопасно определить исполнителя. Укажите @username или точное полное имя, либо создайте задачу без исполнителя.";

/// The chosen assignee: a registered user, a directory employee, both or
/// neither (unassigned).
#[derive(Debug)]
pub struct ResolvedAssignee {
    pub user: Option<User>,
    pub employee: Option<Employee>,
}

#[derive(Debug)]
pub enum AssigneeResolution {
    Resolved(Box<ResolvedAssignee>),
    ClarificationRequired(ClarificationRequest),
}

/// Why an assignee is being resolved; only a new task may stay unassigned.
#[derive(Debug, Clone, Copy, PartialEq, Eq, Structural)]
pub enum AssigneeResolutionPurpose {
    TaskCreation,
    Reassignment,
}

/// The next step of a resolution.
#[derive(Debug)]
pub enum ResolutionStep {
    /// Finished.
    Done(AssigneeResolution),
    /// Load the active employees and call [`after_employees_loaded`].
    LoadEmployees,
    /// Look up the registered user with this username and call
    /// [`after_employee_user_lookup`] with the employee.
    LookupEmployeeUser { employee: Employee, username: String },
    /// Look up the registered user with this username and call
    /// [`after_username_lookup`].
    LookupUsername { username: String },
}

/// A query shaped like a Telegram username: after trimming and dropping
/// leading `@`, 5 to 32 ASCII letters, digits or underscores.
pub open spec fn looks_like_username(value: Seq<char>) -> bool {
    let n = strip_leading(trim(value), '@');
    &&& 5 <= n.len() <= 32
    &&& forall|i: int| 0 <= i < n.len() ==> is_ascii_alnum(#[trigger] n[i]) || n[i] == '_'
}

/// A query of at least two words.
pub open spec fn looks_like_full_name(value: Seq<char>) -> bool {
    words(value).len() >= 2
}

pub fn is_username_like(value: &str) -> (r: bool)
    ensures
        r == looks_like_username(value@),
{
    let trimmed = trim_str(value);
    let n = strip_leading_exec(&trimmed, '@');
    if n.len() < 5 || n.len() > 32 {
        return false;
    }
    let mut i: usize = 0;
    while i < n.len()
        invariant
            i <= n.len(),
            n@ == strip_leading(trim(value@), '@'),
            5 <= n.len() <= 32,
            forall|j: int| 0 <= j < i ==> is_ascii_alnum(#[trigger] n@[j]) || n@[j] == '_',
        decreases n.len() - i,
    {
        let c = n[i];
        if !(('a' <= c && c <= 'z') || ('A' <= c && c <= 'Z') || ('0' <= c && c <= '9') || c == '_') {
            return false;
        }
        i = i + 1;
    }
    true
}

pub fn is_full_name_like(value: &str) -> (r: bool)
    ensures
        r == looks_like_full_name(value@),
{
    split_whitespace(&chars_of(value)).len() >= 2
}

/// The clarification message for several matching employees.
pub open spec fn clarification_message(query: Seq<char>) -> Seq<char> {
    if looks_like_full_name(query) { AMBIGUOUS_FULL_NAME_MESSAGE@ } else { AMBIGUOUS_NAME_MESSAGE@ }
}

/// The clarification message when nothing matched.
pub open spec fn no_match_message(query: Seq<char>) -> Seq<char> {
    if looks_like_full_name(query) { UNMATCHED_FULL_NAME_MESSAGE@ } else { UNMATCHED_MESSAGE@ }
}

/// A candidate as shown to the user: name, username and confidence.
pub open spec fn candidate_of(m: MatchView) -> (Seq<char>, Option<Seq<char>>, u8) {
    (m.employee.full_name, m.employee.telegram_username, m.confidence)
}

pub open spec fn candidate_view(c: EmployeeCandidateView) -> (Seq<char>, Option<Seq<char>>, u8) {
    (c.full_name@, opt_view(c.telegram_username), c.confidence)
}

pub open spec fn candidate_views(c: Seq<EmployeeCandidateView>) -> Seq<(Seq<char>, Option<Seq<char>>, u8)> {
    c.map_values(|v: EmployeeCandidateView| candidate_view(v))
}

/// `r` asks to clarify `query` with `message` and `candidates`; only a new
/// task may be left unassigned.
pub open spec fn is_clarification(
    r: ClarificationRequest,
    query: Seq<char>,
    purpose: AssigneeResolutionPurpose,
    message: Seq<char>,
    candidates: Seq<(Seq<char>, Option<Seq<char>>, u8)>,
) -> bool {
    &&& r.message@ == message
    &&& opt_view(r.requested_query) == Some(query)
    &&& r.allow_unassigned == (purpose == AssigneeResolutionPurpose::TaskCreation)
    &&& candidate_views(r.candidates@) == candidates
}

pub fn clarification_request(
    normalized_query: &Vec<char>,
    purpose: AssigneeResolutionPurpose,
    message: &str,
    candidates: Vec<EmployeeCandidateView>,
) -> (r: ClarificationRequest)
    ensures
        is_clarification(r, normalized_query@, purpose, message@, candidate_views(candidates@)),
{
    ClarificationRequest {
        message: String::from_str(message),
        requested_query: Some(string_of(normalized_query.as_slice())),
        allow_unassigned: purpose == AssigneeResolutionPurpose::TaskCreation,
        candidates,
    }
}

/// First step: an empty (after trimming) query resolves to nobody.
pub fn start_resolution(query: &str) -> (r: ResolutionStep)
    ensures
        trim(query@).len() == 0 ==> (r matches ResolutionStep::Done(AssigneeResolution::Resolved(a))
            && a.user is None && a.employee is None),
        trim(query@).len() != 0 ==> r is LoadEmployees,
{
    let trimmed = trim_str(query);
    if trimmed.len() == 0 {
        ResolutionStep::Done(AssigneeResolution::Resolved(Box::new(ResolvedAssignee { user: None, employee: None })))
    } else {
        ResolutionStep::LoadEmployees
    }
}

fn candidates_from(matches: &Vec<EmployeeMatch>) -> (r: Vec<EmployeeCandidateView>)
    ensures
        candidate_views(r@) == crate::domain::name_matching::match_views(matches@).map_values(
            |m: MatchView| candidate_of(m),
        ),
{
    let mut out: Vec<EmployeeCandidateView> = Vec::new();
    let mut i: usize = 0;
    while i < matches.len()
        invariant
            i <= matches.len(),
            out@.len() == i,
            forall|j: int| 0 <= j < i ==> candidate_view(#[trigger] out@[j])
                == candidate_of(crate::domain::name_matching::match_view(matches@[j])),
        decreases matches.len() - i,
    {
        out.push(EmployeeCandidateView::from_match(&matches[i]));
        i = i + 1;
    }
    assert(candidate_views(out@) =~= crate::domain::name_matching::match_views(matches@).map_values(
        |m: MatchView| candidate_of(m),
    ));
    out
}

/// The step after the active employees were loaded, for a non-empty query.
pub open spec fn employees_step_ok(
    query: Seq<char>,
    purpose: AssigneeResolutionPurpose,
    emps: Seq<EmployeeView>,
    r: ResolutionStep,
) -> bool {
    let q = trim(query);
    match match_outcome(q, emps) {
        OutcomeView::Unique(m) => match m.employee.telegram_username {
            Some(u) => r matches ResolutionStep::LookupEmployeeUser { employee, username }
                && employee@ == m.employee && username@ == strip_leading(u, '@'),
            None => r matches ResolutionStep::Done(AssigneeResolution::Resolved(a))
                && a.user is None && (match a.employee {
                    Some(e) => e@ == m.employee,
                    None => false,
                }),
        },
        OutcomeView::Ambiguous(c) => r matches ResolutionStep::Done(AssigneeResolution::ClarificationRequired(req))
            && is_clarification(req, q, purpose, clarification_message(q), c.map_values(|m: MatchView| candidate_of(m))),
        OutcomeView::NotFound => if looks_like_username(q) {
            r matches ResolutionStep::LookupUsername { username } && username@ == strip_leading(q, '@')
        } else {
            r matches ResolutionStep::Done(AssigneeResolution::ClarificationRequired(req))
                && is_clarification(req, q, purpose, no_match_message(q), seq![])
        },
    }
}

/// Decides on the trimmed query against the active employees.
pub fn after_employees_loaded(query: &str, purpose: AssigneeResolutionPurpose, employees: &Vec<Employee>) -> (r: ResolutionStep)
    ensures
        employees_step_ok(query@, purpose, employee_views(employees@), r),
{
    let normalized = trim_str(query);
    let normalized_text = string_of(normalized.as_slice());
    proof {
        assert(trim(normalized_text@) == trim(trim(query@))) by {
            crate::text::lemma_trim_idempotent(query@);
        }
    }
    match match_employee_name(normalized_text.as_str(), employees) {
        EmployeeMatchOutcome::Unique(candidate) => {
            let employee = candidate.employee;
            match &employee.telegram_username {
                Some(u) => {
                    let username = string_of(strip_leading_exec(&chars_of(u.as_str()), '@').as_slice());
                    ResolutionStep::LookupEmployeeUser { employee, username }
                },
                None => ResolutionStep::Done(AssigneeResolution::Resolved(
                    Box::new(ResolvedAssignee { user: None, employee: Some(employee) }),
                )),
            }
        },
        EmployeeMatchOutcome::Ambiguous(candidates) => {
            let message = if is_full_name_like(normalized_text.as_str()) {
                AMBIGUOUS_FULL_NAME_MESSAGE
            } else {
                AMBIGUOUS_NAME_MESSAGE
            };
            let views = candidates_from(&candidates);
            ResolutionStep::Done(AssigneeResolution::ClarificationRequired(
                clarification_request(&normalized, purpose, message, views),
            ))
        },
        EmployeeMatchOutcome::NotFound => {
            if is_username_like(normalized_text.as_str()) {
                let username = string_of(strip_leading_exec(&normalized, '@').as_slice());
                ResolutionStep::LookupUsername { username }
            } else {
                let message = if is_full_name_like(normalized_text.as_str()) {
                    UNMATCHED_FULL_NAME_MESSAGE
                } else {
                    UNMATCHED_MESSAGE
                };
                let none: Vec<EmployeeCandidateView> = Vec::new();
                assert(candidate_views(none@) =~= seq![]);
                ResolutionStep::Done(AssigneeResolution::ClarificationRequired(
                    clarification_request(&normalized, purpose, message, none),
                ))
            }
        },
    }
}

/// Finishes a `@username` lookup: the user when registered, otherwise a
/// clarification without candidates.
pub fn after_username_lookup(query: &str, purpose: AssigneeResolutionPurpose, user: Option<User>) -> (r: AssigneeResolution)
    ensures
        user is Some ==> (r matches AssigneeResolution::Resolved(a) && a.user == user && a.employee is None),
        user is None ==> (r matches AssigneeResolution::ClarificationRequired(req)
            && is_clarification(req, trim(query@), purpose, UNKNOWN_USERNAME_MESSAGE@, seq![])),
{
    if user.is_some() {
        return AssigneeResolution::Resolved(Box::new(ResolvedAssignee { user, employee: None }));
    }
    let normalized = trim_str(query);
    let none: Vec<EmployeeCandidateView> = Vec::new();
    assert(candidate_views(none@) =~= seq![]);
    AssigneeResolution::ClarificationRequired(clarification_request(&normalized, purpose, UNKNOWN_USERNAME_MESSAGE, none))
}

/// Finishes the lookup of a matched employee's registered user.
pub fn after_employee_user_lookup(employee: Employee, user: Option<User>) -> (r: AssigneeResolution)
    ensures
        r matches AssigneeResolution::Resolved(a) && a.user == user && a.employee == Some(employee),
{
    AssigneeResolution::Resolved(Box::new(ResolvedAssignee { user, employee: Some(employee) }))
}

/// The username under which an employee's registered user is looked up:
/// the employee's username without leading `@`.
pub fn employee_lookup_username(employee: &Employee) -> (r: Option<String>)
    ensures
        match employee.telegram_username {
            Some(u) => r matches Some(name) && name@ == strip_leading(u@, '@'),
            None => r is None,
        },
{
    match &employee.telegram_username {
        Some(u) => Some(string_of(strip_leading_exec(&chars_of(u.as_str()), '@').as_slice())),
        None => None,
    }
}

} // verus!
