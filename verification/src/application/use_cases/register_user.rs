//! Registration decisions: which directory employee a user who sent
//! `/start` is, whether that needs the user's confirmation, and how tasks
//! assigned to that employee before registration are taken over.
//! Registration matching is strict: an exact username, else an exact
//! normalised full name; anything else needs an explicit choice.
use vstd::prelude::*;

use crate::application::dto::EmployeeCandidateView;
use crate::application::use_cases::assignee_resolution::{candidate_of, candidate_views};
use crate::domain::audit::{AuditAction, AuditLogEntry};
use crate::domain::employee::{Employee, EmployeeMatch, EmployeeView, MatchStrategy};
use crate::domain::errors::{ctx_one, AppError, AppResult, ContextEntry, ContextValue, ErrorKind};
use crate::domain::message::IncomingMessage;
use crate::domain::name_matching::{employee_views, match_view, match_views, MatchView};
use crate::application::use_cases::create_task_from_message::{assignment_dedupe_key, task_card};
use crate::domain::notification::{Notification, NotificationDeliveryState, NotificationType};
use crate::domain::task::entity::{push_uid, task_uid_text, uid_text, Task};
use crate::domain::task::types::{status_code, status_terminal};
use crate::domain::user::{User, UserRole};
use crate::text::{
    ascii_lower, chars_of, collapse_whitespace, collapse_ws, has_prefix, lowercase, lowercase_chars,
    opt_view, push_signed, push_str, signed_decimal, starts_with, string_of, strip_leading,
    strip_leading_exec, trim, trim_chars, trim_start,
};
use crate::time::Timestamp;

verus! {

/// Asked of a user who resembles several employees.
pub const REGISTRATION_AMBIGUOUS_MESSAGE: &'static str = "Нашёл несколько сотрудников, на которых вы похожи. Выберите себя явно, чтобы задачи не ушли не тому человеку.";
/// Error code of a concurrent task update.
pub const TASK_VERSION_CONFLICT_ERROR: &'static str = "TASK_VERSION_CONFLICT";
/// Batches of recovered tasks per registration.
pub const MAX_REGISTRATION_RECOVERY_BATCHES: usize = 20;
/// Tasks per recovery batch.
pub const REGISTRATION_RECOVERY_TASK_BATCH_SIZE: i64 = 50;

/// How a new user is to be linked to the employee directory.
#[derive(Debug, Clone, Copy, PartialEq, Eq, Structural)]
pub enum RegistrationLinkDecision {
    /// Resolve automatically.
    Auto,
    /// Link to this employee.
    EmployeeId(i64),
    /// Register without a link.
    ContinueUnlinked,
}

/// Ready to register, or the user has to pick.
#[derive(Debug)]
pub enum RegistrationLinkPreview {
    Ready(RegistrationLinkDecision),
    ClarificationRequired(RegistrationLinkClarification),
}

/// The employee-selection screen.
#[derive(Debug)]
pub struct RegistrationLinkClarification {
    pub message: String,
    pub candidates: Vec<EmployeeCandidateView>,
    pub allow_continue_unlinked: bool,
}

/// Outcome of matching a registering user against the directory.
#[derive(Debug)]
pub enum RegistrationEmployeeMatch {
    Unique(Employee),
    Ambiguous(Vec<EmployeeMatch>),
    NotFound,
}

// ── Names ─────────────────────────────────────────────────────────────────

/// Whitespace collapsed, then lower-cased.
pub open spec fn normalized_person_name(s: Seq<char>) -> Seq<char> {
    lowercase(collapse_ws(s))
}

pub fn normalize_person_name(value: &str) -> (r: String)
    ensures
        r@ == normalized_person_name(value@),
{
    let collapsed = collapse_whitespace(&chars_of(value));
    string_of(lowercase_chars(&collapsed).as_slice())
}

/// ASCII case-insensitive equality (`str::eq_ignore_ascii_case`).
pub open spec fn eq_ignore_ascii_case(a: Seq<char>, b: Seq<char>) -> bool {
    a.len() == b.len() && forall|i: int| 0 <= i < a.len() ==> ascii_lower(#[trigger] a[i]) == ascii_lower(b[i])
}

fn ascii_lower_exec(c: char) -> (r: char)
    ensures
        r == ascii_lower(c),
{
    if 'A' <= c && c <= 'Z' {
        let code = (c as u8) + 32;
        code as char
    } else {
        c
    }
}

pub fn equals_ignore_ascii_case(a: &Vec<char>, b: &Vec<char>) -> (r: bool)
    ensures
        r == eq_ignore_ascii_case(a@, b@),
{
    if a.len() != b.len() {
        return false;
    }
    let mut i: usize = 0;
    while i < a.len()
        invariant
            a.len() == b.len(),
            i <= a.len(),
            forall|j: int| 0 <= j < i ==> ascii_lower(#[trigger] a@[j]) == ascii_lower(b@[j]),
        decreases a.len() - i,
    {
        if ascii_lower_exec(a[i]) != ascii_lower_exec(b[i]) {
            return false;
        }
        i = i + 1;
    }
    true
}

// ── Strict registration matching ──────────────────────────────────────────

/// The sender's username, trimmed and without leading `@`, when non-empty.
pub open spec fn sender_handle(m: IncomingMessage) -> Option<Seq<char>> {
    match m.sender_username {
        Some(u) => {
            let h = strip_leading(trim(u@), '@');
            if h.len() > 0 { Some(h) } else { None }
        },
        None => None,
    }
}

pub open spec fn username_matches(e: EmployeeView, handle: Seq<char>) -> bool {
    e.telegram_username matches Some(u) && eq_ignore_ascii_case(strip_leading(trim(u), '@'), handle)
}

pub open spec fn full_name_matches(e: EmployeeView, name: Seq<char>) -> bool {
    normalized_person_name(e.full_name) == name
}

/// Employees (in order) whose username matches `handle`.
pub open spec fn by_username(emps: Seq<EmployeeView>, handle: Seq<char>) -> Seq<EmployeeView>
    decreases emps.len(),
{
    if emps.len() == 0 {
        seq![]
    } else if username_matches(emps.last(), handle) {
        by_username(emps.drop_last(), handle).push(emps.last())
    } else {
        by_username(emps.drop_last(), handle)
    }
}

/// Employees (in order) whose normalised full name is `name`.
pub open spec fn by_full_name(emps: Seq<EmployeeView>, name: Seq<char>) -> Seq<EmployeeView>
    decreases emps.len(),
{
    if emps.len() == 0 {
        seq![]
    } else if full_name_matches(emps.last(), name) {
        by_full_name(emps.drop_last(), name).push(emps.last())
    } else {
        by_full_name(emps.drop_last(), name)
    }
}

/// An exact match shown for confirmation.
pub open spec fn exact_match_view(e: EmployeeView) -> MatchView {
    MatchView { employee: e, confidence: 100, strategy: MatchStrategy::ExactFullName }
}

pub enum RegistrationMatchView {
    Unique(EmployeeView),
    Ambiguous(Seq<MatchView>),
    NotFound,
}

pub open spec fn registration_match_view(r: RegistrationEmployeeMatch) -> RegistrationMatchView {
    match r {
        RegistrationEmployeeMatch::Unique(e) => RegistrationMatchView::Unique(e@),
        RegistrationEmployeeMatch::Ambiguous(v) => RegistrationMatchView::Ambiguous(match_views(v@)),
        RegistrationEmployeeMatch::NotFound => RegistrationMatchView::NotFound,
    }
}

/// One match is unique, several are ambiguous.
pub open spec fn from_matches(found: Seq<EmployeeView>) -> RegistrationMatchView {
    if found.len() == 1 {
        RegistrationMatchView::Unique(found[0])
    } else {
        RegistrationMatchView::Ambiguous(found.map_values(|e: EmployeeView| exact_match_view(e)))
    }
}

/// Username matches first, then full-name matches, else not found.
pub open spec fn registration_match(m: IncomingMessage, emps: Seq<EmployeeView>) -> RegistrationMatchView {
    let by_user = match sender_handle(m) {
        Some(h) => by_username(emps, h),
        None => seq![],
    };
    let name = normalized_person_name(m.sender_name@);
    let by_name = if name.len() > 0 { by_full_name(emps, name) } else { seq![] };
    if by_user.len() > 0 {
        from_matches(by_user)
    } else if by_name.len() > 0 {
        from_matches(by_name)
    } else {
        RegistrationMatchView::NotFound
    }
}

fn sender_handle_exec(message: &IncomingMessage) -> (r: Option<Vec<char>>)
    ensures
        match sender_handle(*message) {
            Some(h) => r matches Some(v) && v@ == h,
            None => r is None,
        },
{
    match &message.sender_username {
        Some(u) => {
            let h = strip_leading_exec(&trim_chars(&chars_of(u.as_str())), '@');
            if h.len() > 0 { Some(h) } else { None }
        },
        None => None,
    }
}

fn employee_username_matches(employee: &Employee, handle: &Vec<char>) -> (r: bool)
    ensures
        r == username_matches(employee@, handle@),
{
    match &employee.telegram_username {
        Some(u) => {
            let v = strip_leading_exec(&trim_chars(&chars_of(u.as_str())), '@');
            equals_ignore_ascii_case(&v, handle)
        },
        None => false,
    }
}

fn select_by_username(employees: &Vec<Employee>, handle: &Vec<char>) -> (r: Vec<Employee>)
    ensures
        employee_views(r@) == by_username(employee_views(employees@), handle@),
{
    let ghost emps = employee_views(employees@);
    let mut out: Vec<Employee> = Vec::new();
    let mut i: usize = 0;
    while i < employees.len()
        invariant
            i <= employees.len(),
            emps == employee_views(employees@),
            employee_views(out@) == by_username(emps.take(i as int), handle@),
        decreases employees.len() - i,
    {
        proof {
            assert(emps.take(i + 1).drop_last() =~= emps.take(i as int));
            assert(emps.take(i + 1).last() == employees@[i as int]@);
        }
        let ghost prev = employee_views(out@);
        if employee_username_matches(&employees[i], handle) {
            out.push(employees[i].duplicate());
            assert(employee_views(out@) =~= prev.push(employees@[i as int]@));
        }
        i = i + 1;
    }
    assert(emps.take(employees.len() as int) =~= emps);
    out
}

fn select_by_full_name(employees: &Vec<Employee>, name: &String) -> (r: Vec<Employee>)
    ensures
        employee_views(r@) == by_full_name(employee_views(employees@), name@),
{
    let ghost emps = employee_views(employees@);
    let target = chars_of(name.as_str());
    let mut out: Vec<Employee> = Vec::new();
    let mut i: usize = 0;
    while i < employees.len()
        invariant
            i <= employees.len(),
            emps == employee_views(employees@),
            target@ == name@,
            employee_views(out@) == by_full_name(emps.take(i as int), name@),
        decreases employees.len() - i,
    {
        proof {
            assert(emps.take(i + 1).drop_last() =~= emps.take(i as int));
            assert(emps.take(i + 1).last() == employees@[i as int]@);
        }
        let ghost prev = employee_views(out@);
        let candidate = chars_of(normalize_person_name(employees[i].full_name.as_str()).as_str());
        if crate::text::seq_equal(&candidate, &target) {
            out.push(employees[i].duplicate());
            assert(employee_views(out@) =~= prev.push(employees@[i as int]@));
        }
        i = i + 1;
    }
    assert(emps.take(employees.len() as int) =~= emps);
    out
}

fn to_matches(found: Vec<Employee>) -> (r: RegistrationEmployeeMatch)
    requires
        found.len() > 0,
    ensures
        registration_match_view(r) == from_matches(employee_views(found@)),
{
    if found.len() == 1 {
        let mut found = found;
        let only = found.pop().unwrap();
        return RegistrationEmployeeMatch::Unique(only);
    }
    let ghost src = employee_views(found@);
    let mut out: Vec<EmployeeMatch> = Vec::new();
    let mut i: usize = 0;
    while i < found.len()
        invariant
            i <= found.len(),
            src == employee_views(found@),
            out@.len() == i,
            forall|j: int| 0 <= j < i ==> #[trigger] match_view(out@[j]) == exact_match_view(src[j]),
        decreases found.len() - i,
    {
        out.push(EmployeeMatch { employee: found[i].duplicate(), confidence: 100, strategy: MatchStrategy::ExactFullName });
        i = i + 1;
    }
    assert(match_views(out@) =~= src.map_values(|e: EmployeeView| exact_match_view(e)));
    RegistrationEmployeeMatch::Ambiguous(out)
}

/// Matches the sender of `/start` against the active employees.
pub fn resolve_registration_match(message: &IncomingMessage, employees: &Vec<Employee>) -> (r: RegistrationEmployeeMatch)
    ensures
        registration_match_view(r) == registration_match(*message, employee_views(employees@)),
{
    let by_user = match sender_handle_exec(message) {
        Some(handle) => select_by_username(employees, &handle),
        None => {
            let none: Vec<Employee> = Vec::new();
            assert(employee_views(none@) =~= seq![]);
            none
        },
    };
    if by_user.len() > 0 {
        return to_matches(by_user);
    }
    let name = normalize_person_name(message.sender_name.as_str());
    if name.as_str().unicode_len() == 0 {
        return RegistrationEmployeeMatch::NotFound;
    }
    let by_name = select_by_full_name(employees, &name);
    if by_name.len() > 0 {
        return to_matches(by_name);
    }
    RegistrationEmployeeMatch::NotFound
}

/// The candidates shown for an ambiguous match.
pub fn candidates_from_matches(matches: &Vec<EmployeeMatch>) -> (r: Vec<EmployeeCandidateView>)
    ensures
        candidate_views(r@) == match_views(matches@).map_values(|m: MatchView| candidate_of(m)),
{
    let mut out: Vec<EmployeeCandidateView> = Vec::new();
    let mut i: usize = 0;
    while i < matches.len()
        invariant
            i <= matches.len(),
            out@.len() == i,
            forall|j: int| 0 <= j < i ==> crate::application::use_cases::assignee_resolution::candidate_view(#[trigger] out@[j])
                == candidate_of(match_view(matches@[j])),
        decreases matches.len() - i,
    {
        out.push(EmployeeCandidateView::from_match(&matches[i]));
        i = i + 1;
    }
    assert(candidate_views(out@) =~= match_views(matches@).map_values(|m: MatchView| candidate_of(m)));
    out
}

// ── The earlier, single-answer matcher ────────────────────────────────────

/// The first employee whose username (without leading `@`) equals the
/// sender's (without leading `@`) ignoring ASCII case.
pub open spec fn first_username_match(emps: Seq<EmployeeView>, handle: Seq<char>) -> Option<EmployeeView>
    decreases emps.len(),
{
    if emps.len() == 0 {
        None
    } else if emps[0].telegram_username matches Some(u) && eq_ignore_ascii_case(strip_leading(u, '@'), handle) {
        Some(emps[0])
    } else {
        first_username_match(emps.drop_first(), handle)
    }
}

/// The registered employee: a username match, else the only employee with
/// the sender's normalised full name.
pub open spec fn registered_employee(m: IncomingMessage, emps: Seq<EmployeeView>) -> Option<EmployeeView> {
    let by_user = match m.sender_username {
        Some(u) => first_username_match(emps, strip_leading(u@, '@')),
        None => None,
    };
    let name = normalized_person_name(m.sender_name@);
    let by_name = by_full_name(emps, name);
    if by_user is Some {
        by_user
    } else if name.len() > 0 && by_name.len() == 1 {
        Some(by_name[0])
    } else {
        None
    }
}

/// Matches the sender to at most one employee (no ambiguity handling).
pub fn resolve_registered_employee(message: &IncomingMessage, employees: &Vec<Employee>) -> (r: Option<Employee>)
    ensures
        match registered_employee(*message, employee_views(employees@)) {
            Some(e) => r matches Some(x) && x@ == e,
            None => r is None,
        },
{
    let ghost emps = employee_views(employees@);
    if let Some(u) = &message.sender_username {
        let handle = strip_leading_exec(&chars_of(u.as_str()), '@');
        let mut i: usize = 0;
        proof {
            assert(emps.skip(0) =~= emps);
        }
        while i < employees.len()
            invariant
                i <= employees.len(),
                emps == employee_views(employees@),
                handle@ == strip_leading(u@, '@'),
                message.sender_username == Some(*u),
                first_username_match(emps, handle@) == first_username_match(emps.skip(i as int), handle@),
            decreases employees.len() - i,
        {
            proof {
                assert(emps.skip(i as int).drop_first() =~= emps.skip(i + 1));
                assert(emps.skip(i as int)[0] == employees@[i as int]@);
            }
            let hit = match &employees[i].telegram_username {
                Some(v) => equals_ignore_ascii_case(&strip_leading_exec(&chars_of(v.as_str()), '@'), &handle),
                None => false,
            };
            if hit {
                return Some(employees[i].duplicate());
            }
            i = i + 1;
        }
    }
    let name = normalize_person_name(message.sender_name.as_str());
    if name.as_str().unicode_len() == 0 {
        return None;
    }
    let mut by_name = select_by_full_name(employees, &name);
    if by_name.len() == 1 {
        return by_name.pop();
    }
    None
}

// ── Previewing the link ───────────────────────────────────────────────────

/// An explicit `/start` (after leading whitespace) asks to retry linking.
pub open spec fn explicit_start(m: IncomingMessage) -> bool {
    m.spec_text_payload() matches Some(t) && has_prefix(trim_start(t), "/start"@)
}

pub fn is_explicit_start_command(message: &IncomingMessage) -> (r: bool)
    ensures
        r == explicit_start(*message),
{
    match message.text_payload() {
        Some(payload) => {
            let chars = chars_of(payload);
            let mut i: usize = 0;
            proof {
                assert(chars@.skip(0) =~= chars@);
            }
            while i < chars.len() && crate::text::char_is_whitespace(chars[i])
                invariant
                    i <= chars.len(),
                    trim_start(chars@) == trim_start(chars@.skip(i as int)),
                decreases chars.len() - i,
            {
                proof {
                    assert(chars@.skip(i as int).drop_first() =~= chars@.skip(i + 1));
                }
                i = i + 1;
            }
            proof {
                if i < chars.len() {
                    assert(trim_start(chars@.skip(i as int)) == chars@.skip(i as int));
                } else {
                    assert(chars@.skip(i as int).len() == 0);
                }
            }
            let mut rest: Vec<char> = Vec::new();
            let mut j = i;
            while j < chars.len()
                invariant
                    i <= j <= chars.len(),
                    rest@ == chars@.subrange(i as int, j as int),
                decreases chars.len() - j,
            {
                rest.push(chars[j]);
                j = j + 1;
                assert(rest@ =~= chars@.subrange(i as int, j as int));
            }
            assert(rest@ =~= chars@.skip(i as int));
            starts_with(&rest, &chars_of("/start"))
        },
        None => false,
    }
}

/// The preview that needs no directory scan: an already linked user keeps
/// the link; an existing user who does not send `/start` stays unlinked.
pub fn preview_without_directory(existing: Option<&User>, message: &IncomingMessage) -> (r: Option<RegistrationLinkDecision>)
    ensures
        match existing {
            Some(u) => match u.linked_employee_id {
                Some(id) => r == Some(RegistrationLinkDecision::EmployeeId(id)),
                None => r == (if explicit_start(*message) { None } else { Some(RegistrationLinkDecision::ContinueUnlinked) }),
            },
            None => r is None,
        },
{
    match existing {
        Some(user) => {
            if let Some(id) = user.linked_employee_id {
                return Some(RegistrationLinkDecision::EmployeeId(id));
            }
            if !is_explicit_start_command(message) {
                return Some(RegistrationLinkDecision::ContinueUnlinked);
            }
            None
        },
        None => None,
    }
}

/// The preview from the directory match: a unique employee is linked (it
/// must have an identifier), several need a choice, none registers
/// unlinked.
pub fn preview_from_match(found: RegistrationEmployeeMatch) -> (r: AppResult<RegistrationLinkPreview>)
    ensures
        match registration_match_view(found) {
            RegistrationMatchView::Unique(e) => match e.id {
                Some(id) => r matches Ok(RegistrationLinkPreview::Ready(d)) && d == RegistrationLinkDecision::EmployeeId(id),
                None => r matches Err(err) && err.is_error(ErrorKind::Internal, "EMPLOYEE_ID_MISSING"@),
            },
            RegistrationMatchView::Ambiguous(c) => r matches Ok(RegistrationLinkPreview::ClarificationRequired(cl))
                && cl.message@ == REGISTRATION_AMBIGUOUS_MESSAGE@
                && candidate_views(cl.candidates@) == c.map_values(|m: MatchView| candidate_of(m))
                && cl.allow_continue_unlinked,
            RegistrationMatchView::NotFound => r matches Ok(RegistrationLinkPreview::Ready(d))
                && d == RegistrationLinkDecision::ContinueUnlinked,
        },
        r matches Err(e) ==> e.message_view() == "Directory employee must contain an identifier before linking registration"@,
{
    match found {
        RegistrationEmployeeMatch::Unique(employee) => match employee.id {
            Some(id) => Ok(RegistrationLinkPreview::Ready(RegistrationLinkDecision::EmployeeId(id))),
            None => Err(AppError::internal(
                "EMPLOYEE_ID_MISSING",
                String::from_str("Directory employee must contain an identifier before linking registration"),
                ctx_one("full_name", ContextValue::Text(employee.full_name)),
            )),
        },
        RegistrationEmployeeMatch::Ambiguous(candidates) => Ok(RegistrationLinkPreview::ClarificationRequired(
            RegistrationLinkClarification {
                message: String::from_str(REGISTRATION_AMBIGUOUS_MESSAGE),
                candidates: candidates_from_matches(&candidates),
                allow_continue_unlinked: true,
            },
        )),
        RegistrationEmployeeMatch::NotFound => Ok(RegistrationLinkPreview::Ready(RegistrationLinkDecision::ContinueUnlinked)),
    }
}

/// Registration without a decision fails when a choice is needed.
pub fn require_ready(preview: RegistrationLinkPreview, telegram_id: i64) -> (r: AppResult<RegistrationLinkDecision>)
    ensures
        match preview {
            RegistrationLinkPreview::Ready(d) => r == Ok::<RegistrationLinkDecision, AppError>(d),
            RegistrationLinkPreview::ClarificationRequired(_) => r matches Err(e)
                && e.is_error(ErrorKind::Validation, "REGISTRATION_LINK_CLARIFICATION_REQUIRED"@),
        },
        r matches Err(e) ==> e.message_view() == "Registration requires explicit employee clarification"@,
{
    match preview {
        RegistrationLinkPreview::Ready(decision) => Ok(decision),
        RegistrationLinkPreview::ClarificationRequired(_) => Err(AppError::business_rule(
            "REGISTRATION_LINK_CLARIFICATION_REQUIRED",
            String::from_str("Registration requires explicit employee clarification"),
            ctx_one("telegram_id", ContextValue::Int(telegram_id)),
        )),
    }
}

/// The employee to look up for an automatic decision, once previewed:
/// a ready link names it, "unlinked" names none, anything else is refused.
pub fn employee_for_previewed(preview: RegistrationLinkPreview, telegram_id: i64) -> (r: AppResult<Option<i64>>)
    ensures
        match preview {
            RegistrationLinkPreview::Ready(RegistrationLinkDecision::EmployeeId(id)) => r == Ok::<Option<i64>, AppError>(Some(id)),
            RegistrationLinkPreview::Ready(RegistrationLinkDecision::ContinueUnlinked) => r == Ok::<Option<i64>, AppError>(None),
            _ => r matches Err(e) && e.is_error(ErrorKind::Validation, "REGISTRATION_LINK_DECISION_REQUIRED"@),
        },
        r matches Err(e) ==> e.message_view() == "Registration requires an explicit linking decision"@,
{
    match preview {
        RegistrationLinkPreview::Ready(RegistrationLinkDecision::EmployeeId(id)) => Ok(Some(id)),
        RegistrationLinkPreview::Ready(RegistrationLinkDecision::ContinueUnlinked) => Ok(None),
        _ => Err(AppError::business_rule(
            "REGISTRATION_LINK_DECISION_REQUIRED",
            String::from_str("Registration requires an explicit linking decision"),
            ctx_one("telegram_id", ContextValue::Int(telegram_id)),
        )),
    }
}

/// The user record stored for the sender, linked to `employee` if any.
pub fn registration_user(message: &IncomingMessage, employee: Option<&Employee>) -> (r: User)
    ensures
        r.telegram_id == message.sender_id,
        r.is_employee == employee is Some,
        r.linked_employee_id == (match employee {
            Some(e) => e.id,
            None => None,
        }),
        r.role == UserRole::User,
{
    let mut user = User::from_message(message, UserRole::User, employee.is_some());
    user.linked_employee_id = match employee {
        Some(e) => e.id,
        None => None,
    };
    user
}

// ── Recovering earlier assignments ────────────────────────────────────────

/// A task still waiting for this employee to register.
pub fn should_link_task(task: &Task, employee_id: i64) -> (r: bool)
    ensures
        r == (task.assigned_to_user_id is None && task.assigned_to_employee_id == Some(employee_id)
            && !status_terminal(task.status)),
{
    task.assigned_to_user_id.is_none() && task.assigned_to_employee_id == Some(employee_id) && !task.status.is_terminal()
}

/// An assignment notice that is queued, retrying or sent is kept; a failed
/// one is queued again.
pub fn should_keep_existing_notification(notification: &Notification) -> (r: bool)
    ensures
        r == (notification.delivery_state != NotificationDeliveryState::Failed),
{
    match notification.delivery_state {
        NotificationDeliveryState::Pending | NotificationDeliveryState::RetryPending | NotificationDeliveryState::Sent => true,
        NotificationDeliveryState::Failed => false,
    }
}

pub fn assignment_notification_dedupe_key(task: &Task, user_id: i64) -> (r: String)
    ensures
        r@ == "task_assigned:"@ + uid_text(task.task_uid) + ":"@ + signed_decimal(user_id as int),
{
    let mut key = chars_of("task_assigned:");
    push_uid(&mut key, task.task_uid);
    push_str(&mut key, ":");
    push_signed(&mut key, user_id);
    string_of(key.as_slice())
}

/// The stored identifier of a task whose assignment notice is about to be
/// scheduled.
pub fn scheduled_task_id(task: &Task) -> (r: AppResult<i64>)
    ensures
        match task.id {
            Some(id) => r == Ok::<i64, AppError>(id),
            None => r matches Err(e) && e.is_error(ErrorKind::Internal, "TASK_ID_MISSING"@)
                && e.message_view() == "Task must contain an identifier before scheduling delivery"@,
        },
{
    match task.id {
        Some(id) => Ok(id),
        None => Err(AppError::internal(
            "TASK_ID_MISSING",
            String::from_str("Task must contain an identifier before scheduling delivery"),
            ctx_one("task_uid", ContextValue::Text(task_uid_text(task.task_uid))),
        )),
    }
}

/// What to do about the assignment notice of a task taken over by its
/// registered assignee.
#[derive(Debug)]
pub enum AssignmentNoticeStep {
    /// A notice is queued, retrying or sent already.
    Keep,
    /// The failed notice with this identifier is queued again.
    Requeue(i64),
    /// A failed notice that was never stored: nothing to requeue.
    Skip,
    /// No notice exists yet: this one is queued.
    Enqueue(Notification),
}

/// Keeps a live notice, queues a failed one again, or queues the task card
/// for `user_id` when there is none.
pub fn assignment_notice_step(
    task: &Task,
    user_id: i64,
    existing: Option<&Notification>,
    now: Timestamp,
) -> (r: AssignmentNoticeStep)
    requires
        task.deadline matches Some(d) ==> d.wf(),
    ensures
        match existing {
            Some(n) => if n.delivery_state != NotificationDeliveryState::Failed {
                r is Keep
            } else {
                match n.id {
                    Some(id) => r == AssignmentNoticeStep::Requeue(id),
                    None => r is Skip,
                }
            },
            None => r matches AssignmentNoticeStep::Enqueue(n) && {
                &&& n.id is None
                &&& n.task_id == task.id
                &&& n.recipient_user_id == user_id
                &&& n.notification_type == NotificationType::TaskAssigned
                &&& n.message@ == task_card(*task)
                &&& n.dedupe_key@ == assignment_dedupe_key(task.task_uid, user_id)
                &&& n.telegram_message_id is None
                &&& n.delivery_state == NotificationDeliveryState::Pending
                &&& !n.is_sent && !n.is_read && n.attempt_count == 0
                &&& n.sent_at is None && n.read_at is None && n.next_attempt_at is None
                &&& n.last_error_code is None
                &&& n.created_at == now
            },
        },
{
    match existing {
        Some(notification) => {
            if should_keep_existing_notification(notification) {
                AssignmentNoticeStep::Keep
            } else {
                match notification.id {
                    Some(id) => AssignmentNoticeStep::Requeue(id),
                    None => AssignmentNoticeStep::Skip,
                }
            }
        },
        None => AssignmentNoticeStep::Enqueue(Notification {
            id: None,
            task_id: task.id,
            recipient_user_id: user_id,
            notification_type: NotificationType::TaskAssigned,
            message: task.render_for_telegram(None),
            dedupe_key: assignment_notification_dedupe_key(task, user_id),
            telegram_message_id: None,
            delivery_state: NotificationDeliveryState::Pending,
            is_sent: false,
            is_read: false,
            attempt_count: 0,
            sent_at: None,
            read_at: None,
            next_attempt_at: None,
            last_error_code: None,
            created_at: now,
        }),
    }
}

/// After a batch: stop when nothing was recovered or the batch was short.
pub fn continue_recovery(batch_len: usize, recovered: usize) -> (r: bool)
    ensures
        r == (recovered > 0 && batch_len >= REGISTRATION_RECOVERY_TASK_BATCH_SIZE),
{
    recovered > 0 && batch_len as u64 >= REGISTRATION_RECOVERY_TASK_BATCH_SIZE as u64
}

/// The audit record of a task taken over by its newly registered assignee.
pub fn recovered_assignment_entry(task: &Task, user_id: i64, employee_id: i64, now: Timestamp) -> (r: AppResult<AuditLogEntry>)
    ensures
        r is Ok <==> task.id is Some,
        r matches Ok(e) ==> {
            &&& Some(e.task_id) == task.id
            &&& e.id is None
            &&& e.action == AuditAction::Assigned
            &&& opt_view(e.old_status) == Some(status_code(task.status))
            &&& opt_view(e.new_status) == Some(status_code(task.status))
            &&& e.changed_by_user_id == Some(user_id)
            &&& e.created_at == now
            &&& e.metadata@.len() == 3
            &&& e.metadata@[1].value == ContextValue::Int(user_id)
            &&& e.metadata@[2].value == ContextValue::Int(employee_id)
        },
        r matches Err(e) ==> e.is_error(ErrorKind::Internal, "TASK_ID_MISSING"@),
        r matches Err(e) ==> e.message_view() == "Recovered task must contain a database identifier"@,
{
    let task_id = match task.id {
        Some(id) => id,
        None => {
            return Err(AppError::internal(
                "TASK_ID_MISSING",
                String::from_str("Recovered task must contain a database identifier"),
                ctx_one("task_uid", ContextValue::Text(task_uid_text(task.task_uid))),
            ));
        },
    };
    let mut metadata: Vec<ContextEntry> = Vec::new();
    metadata.push(ContextEntry {
        key: String::from_str("resolution"),
        value: ContextValue::Text(String::from_str("assignee_registered")),
    });
    metadata.push(ContextEntry { key: String::from_str("assigned_to_user_id"), value: ContextValue::Int(user_id) });
    metadata.push(ContextEntry { key: String::from_str("assigned_to_employee_id"), value: ContextValue::Int(employee_id) });
    Ok(AuditLogEntry {
        id: None,
        task_id,
        action: AuditAction::Assigned,
        old_status: Some(task.status.to_text()),
        new_status: Some(task.status.to_text()),
        changed_by_user_id: Some(user_id),
        metadata,
        created_at: now,
    })
}

} // verus!
