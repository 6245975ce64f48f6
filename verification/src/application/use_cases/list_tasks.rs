//! Task lists: which tasks a scope loads, how a page is cut, and how the
//! page is grouped into titled sections with a highlight per task.
use vstd::prelude::*;

use crate::application::dto::{TaskListItem, TaskListPage, TaskListSection};
use crate::application::policies::RoleAuthorizationPolicy;
use crate::domain::errors::{ctx_one, AppError, AppResult, ContextValue, ErrorKind};
use crate::domain::task::entity::{task_uid_text, task_views, uid_text, Task, TaskView};
use crate::domain::task::types::{status_terminal, TaskStatus};
use crate::domain::user::User;
use crate::limits::{DEFAULT_PAGE_SIZE, MANAGER_INBOX_STALE_DAYS, MAX_PAGE_SIZE};
use crate::text::opt_view;
use crate::time::{day_of, day_of_seconds, Date, Timestamp, TIMESTAMP_LIMIT};

verus! {

#[derive(Debug, Clone, Copy, PartialEq, Eq, Structural)]
pub enum TaskListScope {
    AssignedToMe,
    CreatedByMe,
    Team,
    Focus,
    ManagerInbox,
}

/// The page size: the requested one (default when absent) within
/// `1..=MAX_PAGE_SIZE`.
pub open spec fn page_size_of(limit: Option<u32>) -> u32 {
    let l = match limit { Some(l) => l, None => DEFAULT_PAGE_SIZE };
    if l < 1 { 1 } else if l > MAX_PAGE_SIZE { MAX_PAGE_SIZE } else { l }
}

pub fn sanitize_limit(limit: Option<u32>) -> (r: u32)
    ensures
        r == page_size_of(limit),
        1 <= r <= MAX_PAGE_SIZE,
{
    let l = match limit {
        Some(l) => l,
        None => DEFAULT_PAGE_SIZE,
    };
    if l < 1 { 1 } else if l > MAX_PAGE_SIZE { MAX_PAGE_SIZE } else { l }
}

/// Which stored tasks a scope lists.
#[derive(Debug, Clone, Copy, PartialEq, Eq, Structural)]
pub enum TaskSource {
    AssignedToUser,
    CreatedByUser,
    All,
    Active,
}

/// What to load for a listing: the actor's id, the source and the number
/// of rows (one more than the page, to learn whether more exist).
pub struct ListRequest {
    pub actor_id: i64,
    pub source: TaskSource,
    pub fetch_size: u32,
    pub page_size: u32,
}

/// Registered users list their own tasks; team views need a manager.
pub fn list_request(actor: &User, scope: TaskListScope, limit: Option<u32>) -> (r: AppResult<ListRequest>)
    ensures
        actor.id is None ==> (r matches Err(e) && e.is_error(ErrorKind::Auth, "UNAUTHENTICATED"@)),
        actor.id is Some && (scope == TaskListScope::Team || scope == TaskListScope::ManagerInbox)
            && !actor.role.spec_is_manager_or_admin() ==> (r matches Err(e) && e.is_error(ErrorKind::Auth, "UNAUTHORIZED"@)),
        r is Ok <==> actor.id is Some && (scope == TaskListScope::Team || scope == TaskListScope::ManagerInbox
            ==> actor.role.spec_is_manager_or_admin()),
        r matches Ok(req) ==> {
            &&& Some(req.actor_id) == actor.id
            &&& req.page_size == page_size_of(limit)
            &&& req.fetch_size == req.page_size + 1
            &&& req.source == match scope {
                TaskListScope::AssignedToMe | TaskListScope::Focus => TaskSource::AssignedToUser,
                TaskListScope::CreatedByMe => TaskSource::CreatedByUser,
                TaskListScope::Team => TaskSource::All,
                TaskListScope::ManagerInbox => TaskSource::Active,
            }
        },
        r matches Err(e) ==> e.message_view() == (
            if actor.id is None { "User must be registered before listing tasks"@ } else { "Only managers and admins can view team task dashboards"@ }),
{
    let actor_id = match actor.id {
        Some(id) => id,
        None => {
            return Err(AppError::unauthenticated(
                String::from_str("User must be registered before listing tasks"),
                ctx_one("telegram_id", ContextValue::Int(actor.telegram_id)),
            ));
        },
    };
    let page_size = sanitize_limit(limit);
    let source = match scope {
        TaskListScope::AssignedToMe | TaskListScope::Focus => TaskSource::AssignedToUser,
        TaskListScope::CreatedByMe => TaskSource::CreatedByUser,
        TaskListScope::Team => {
            RoleAuthorizationPolicy::ensure_can_view_team_tasks(actor)?;
            TaskSource::All
        },
        TaskListScope::ManagerInbox => {
            RoleAuthorizationPolicy::ensure_can_view_team_tasks(actor)?;
            TaskSource::Active
        },
    };
    Ok(ListRequest { actor_id, source, fetch_size: page_size + 1, page_size })
}

// ── Sections ──────────────────────────────────────────────────────────────

/// The section tests.
#[derive(Debug, Clone, Copy, PartialEq, Eq, Structural)]
pub enum SectionKind {
    Overdue,
    DueToday,
    InReview,
    Blocked,
    New,
    InProgress,
    Completed,
    Cancelled,
    Attention,
    FocusUrgent,
    PendingRegistration,
    DeadlineRisk,
    Stale,
}

/// The UTC calendar day of an instant.
pub open spec fn utc_day(t: Timestamp) -> int {
    day_of(t as int)
}

pub open spec fn is_new_status(s: TaskStatus) -> bool {
    s == TaskStatus::Created || s == TaskStatus::Sent
}

pub open spec fn overdue(t: TaskView, today: Date) -> bool {
    (t.deadline matches Some(d) && d.days < today.days) && !status_terminal(t.status)
}

pub open spec fn due_today(t: TaskView, today: Date) -> bool {
    t.deadline == Some(today) && !status_terminal(t.status) && t.status != TaskStatus::Blocked
}

pub open spec fn pending_registration(t: TaskView) -> bool {
    t.assigned_to_employee_id is Some && t.assigned_to_user_id is None
}

pub open spec fn stale(t: TaskView, today: Date) -> bool {
    !status_terminal(t.status) && today.days - utc_day(t.updated_at) >= MANAGER_INBOX_STALE_DAYS
}

/// Whether task `t` belongs in a section of kind `k` on `today`.
pub open spec fn in_section(k: SectionKind, t: TaskView, today: Date) -> bool {
    match k {
        SectionKind::Overdue => overdue(t, today),
        SectionKind::DueToday => due_today(t, today),
        SectionKind::InReview => t.status == TaskStatus::InReview,
        SectionKind::Blocked => t.status == TaskStatus::Blocked,
        SectionKind::New => is_new_status(t.status),
        SectionKind::InProgress => t.status == TaskStatus::InProgress,
        SectionKind::Completed => t.status == TaskStatus::Completed,
        SectionKind::Cancelled => t.status == TaskStatus::Cancelled,
        SectionKind::Attention => overdue(t, today) || t.status == TaskStatus::Blocked || is_new_status(t.status)
            || pending_registration(t),
        SectionKind::FocusUrgent => overdue(t, today) || due_today(t, today),
        SectionKind::PendingRegistration => pending_registration(t) && !status_terminal(t.status),
        SectionKind::DeadlineRisk => !status_terminal(t.status) && (t.deadline matches Some(d) && d.days <= today.days),
        SectionKind::Stale => stale(t, today),
    }
}

/// The highlight shown next to a task.
pub open spec fn highlight(t: TaskView, today: Date) -> Option<Seq<char>> {
    if pending_registration(t) {
        Some("нужен /start от исполнителя"@)
    } else if t.status == TaskStatus::Blocked {
        t.blocked_reason
    } else if overdue(t, today) {
        Some("дедлайн уже прошёл"@)
    } else if due_today(t, today) {
        Some("срок сегодня"@)
    } else if stale(t, today) {
        Some("по задаче давно не было движения"@)
    } else {
        None
    }
}

/// The titled sections of a scope, in display order.
pub open spec fn scope_sections(scope: TaskListScope) -> Seq<(Seq<char>, SectionKind)> {
    match scope {
        TaskListScope::AssignedToMe => seq![
            ("🔥 Просрочено"@, SectionKind::Overdue),
            ("🧪 Ждёт проверки"@, SectionKind::InReview),
            ("🚧 Есть блокеры"@, SectionKind::Blocked),
            ("⏰ На сегодня"@, SectionKind::DueToday),
            ("📥 Новые"@, SectionKind::New),
            ("▶️ В работе"@, SectionKind::InProgress),
            ("✅ Завершено"@, SectionKind::Completed),
            ("⛔ Отменено"@, SectionKind::Cancelled),
        ],
        TaskListScope::CreatedByMe | TaskListScope::Team => seq![
            ("⚠️ Требует внимания"@, SectionKind::Attention),
            ("🧪 На проверке"@, SectionKind::InReview),
            ("🚧 Есть блокеры"@, SectionKind::Blocked),
            ("▶️ В работе"@, SectionKind::InProgress),
            ("✅ Завершено"@, SectionKind::Completed),
            ("⛔ Отменено"@, SectionKind::Cancelled),
        ],
        TaskListScope::Focus => seq![
            ("🔥 Горит сейчас"@, SectionKind::FocusUrgent),
            ("🧭 Ждёт моего действия"@, SectionKind::New),
            ("🚧 Заблокировано"@, SectionKind::Blocked),
            ("🧪 На проверке"@, SectionKind::InReview),
            ("▶️ Остальное в работе"@, SectionKind::InProgress),
        ],
        TaskListScope::ManagerInbox => seq![
            ("🧪 Ждёт решения менеджера"@, SectionKind::InReview),
            ("🚧 Нужна помощь с блокером"@, SectionKind::Blocked),
            ("👋 Исполнитель ещё не подключил бота"@, SectionKind::PendingRegistration),
            ("🔥 Риск по срокам"@, SectionKind::DeadlineRisk),
            ("🕰️ Без движения"@, SectionKind::Stale),
        ],
    }
}

/// The tasks of `s` in section `k`, in order.
pub open spec fn members(s: Seq<TaskView>, k: SectionKind, today: Date) -> Seq<TaskView>
    decreases s.len(),
{
    if s.len() == 0 {
        seq![]
    } else if in_section(k, s.last(), today) {
        members(s.drop_last(), k, today).push(s.last())
    } else {
        members(s.drop_last(), k, today)
    }
}

/// The non-empty sections among `descs`: title and member tasks.
pub open spec fn sections_of(descs: Seq<(Seq<char>, SectionKind)>, s: Seq<TaskView>, today: Date) -> Seq<(Seq<char>, Seq<TaskView>)>
    decreases descs.len(),
{
    if descs.len() == 0 {
        seq![]
    } else {
        let rest = sections_of(descs.drop_last(), s, today);
        let m = members(s, descs.last().1, today);
        if m.len() > 0 { rest.push((descs.last().0, m)) } else { rest }
    }
}

/// `item` lists `t` with its highlight on `today`.
pub open spec fn listed(item: TaskListItem, t: TaskView, today: Date) -> bool {
    &&& item.task_uid == t.task_uid
    &&& item.title@ == t.title
    &&& item.status == t.status
    &&& item.deadline == t.deadline
    &&& item.assigned_to_display is None
    &&& item.delivery_status is None
    &&& opt_view(item.highlight) == highlight(t, today)
}

/// `sec` shows the title and tasks `want`.
pub open spec fn section_is(sec: TaskListSection, want: (Seq<char>, Seq<TaskView>), today: Date) -> bool {
    &&& sec.title@ == want.0
    &&& sec.tasks@.len() == want.1.len()
    &&& forall|j: int| 0 <= j < want.1.len() ==> listed(#[trigger] sec.tasks@[j], want.1[j], today)
}

/// Timestamps of stored tasks lie in the range the calendar functions use.
pub open spec fn times_in_range(s: Seq<Task>) -> bool {
    forall|i: int| 0 <= i < s.len() ==> -TIMESTAMP_LIMIT <= #[trigger] s[i].updated_at <= TIMESTAMP_LIMIT
}

fn section_list(scope: TaskListScope) -> (r: Vec<(&'static str, SectionKind)>)
    ensures
        r@.len() == scope_sections(scope).len(),
        forall|i: int| 0 <= i < r@.len() ==> (#[trigger] r@[i]).0@ == scope_sections(scope)[i].0
            && r@[i].1 == scope_sections(scope)[i].1,
{
    let mut v: Vec<(&'static str, SectionKind)> = Vec::new();
    match scope {
        TaskListScope::AssignedToMe => {
            v.push(("🔥 Просрочено", SectionKind::Overdue));
            v.push(("🧪 Ждёт проверки", SectionKind::InReview));
            v.push(("🚧 Есть блокеры", SectionKind::Blocked));
            v.push(("⏰ На сегодня", SectionKind::DueToday));
            v.push(("📥 Новые", SectionKind::New));
            v.push(("▶️ В работе", SectionKind::InProgress));
            v.push(("✅ Завершено", SectionKind::Completed));
            v.push(("⛔ Отменено", SectionKind::Cancelled));
        },
        TaskListScope::CreatedByMe | TaskListScope::Team => {
            v.push(("⚠️ Требует внимания", SectionKind::Attention));
            v.push(("🧪 На проверке", SectionKind::InReview));
            v.push(("🚧 Есть блокеры", SectionKind::Blocked));
            v.push(("▶️ В работе", SectionKind::InProgress));
            v.push(("✅ Завершено", SectionKind::Completed));
            v.push(("⛔ Отменено", SectionKind::Cancelled));
        },
        TaskListScope::Focus => {
            v.push(("🔥 Горит сейчас", SectionKind::FocusUrgent));
            v.push(("🧭 Ждёт моего действия", SectionKind::New));
            v.push(("🚧 Заблокировано", SectionKind::Blocked));
            v.push(("🧪 На проверке", SectionKind::InReview));
            v.push(("▶️ Остальное в работе", SectionKind::InProgress));
        },
        TaskListScope::ManagerInbox => {
            v.push(("🧪 Ждёт решения менеджера", SectionKind::InReview));
            v.push(("🚧 Нужна помощь с блокером", SectionKind::Blocked));
            v.push(("👋 Исполнитель ещё не подключил бота", SectionKind::PendingRegistration));
            v.push(("🔥 Риск по срокам", SectionKind::DeadlineRisk));
            v.push(("🕰️ Без движения", SectionKind::Stale));
        },
    }
    v
}

fn is_stale(task: &Task, today: Date) -> (r: bool)
    requires
        today.wf(),
        -TIMESTAMP_LIMIT <= task.updated_at <= TIMESTAMP_LIMIT,
    ensures
        r == stale(task@, today),
{
    if task.status.is_terminal() {
        return false;
    }
    let updated = day_of_seconds(task.updated_at);
    today.days - updated.days >= MANAGER_INBOX_STALE_DAYS
}

fn is_overdue(task: &Task, today: Date) -> (r: bool)
    ensures
        r == overdue(task@, today),
{
    let past = match task.deadline {
        Some(d) => d.days < today.days,
        None => false,
    };
    past && !task.status.is_terminal()
}

fn is_due_today(task: &Task, today: Date) -> (r: bool)
    ensures
        r == due_today(task@, today),
{
    task.deadline == Some(today) && !task.status.is_terminal() && task.status != TaskStatus::Blocked
}

/// Whether `task` belongs in a section of kind `kind`.
pub fn section_matches(kind: SectionKind, task: &Task, today: Date) -> (r: bool)
    requires
        today.wf(),
        -TIMESTAMP_LIMIT <= task.updated_at <= TIMESTAMP_LIMIT,
    ensures
        r == in_section(kind, task@, today),
{
    let s = task.status;
    match kind {
        SectionKind::Overdue => is_overdue(task, today),
        SectionKind::DueToday => is_due_today(task, today),
        SectionKind::InReview => s == TaskStatus::InReview,
        SectionKind::Blocked => s == TaskStatus::Blocked,
        SectionKind::New => s == TaskStatus::Created || s == TaskStatus::Sent,
        SectionKind::InProgress => s == TaskStatus::InProgress,
        SectionKind::Completed => s == TaskStatus::Completed,
        SectionKind::Cancelled => s == TaskStatus::Cancelled,
        SectionKind::Attention => is_overdue(task, today) || s == TaskStatus::Blocked || s == TaskStatus::Created
            || s == TaskStatus::Sent || (task.assigned_to_employee_id.is_some() && task.assigned_to_user_id.is_none()),
        SectionKind::FocusUrgent => is_overdue(task, today) || is_due_today(task, today),
        SectionKind::PendingRegistration => task.assigned_to_employee_id.is_some() && task.assigned_to_user_id.is_none()
            && !s.is_terminal(),
        SectionKind::DeadlineRisk => {
            if s.is_terminal() {
                return false;
            }
            match task.deadline {
                Some(d) => d.days <= today.days,
                None => false,
            }
        },
        SectionKind::Stale => is_stale(task, today),
    }
}

/// The highlight of `task` on `today`.
pub fn task_highlight(task: &Task, today: Date) -> (r: Option<String>)
    requires
        today.wf(),
        -TIMESTAMP_LIMIT <= task.updated_at <= TIMESTAMP_LIMIT,
    ensures
        opt_view(r) == highlight(task@, today),
{
    if task.assigned_to_employee_id.is_some() && task.assigned_to_user_id.is_none() {
        return Some(String::from_str("нужен /start от исполнителя"));
    }
    if task.status == TaskStatus::Blocked {
        return crate::text::clone_opt_string(&task.blocked_reason);
    }
    if is_overdue(task, today) {
        return Some(String::from_str("дедлайн уже прошёл"));
    }
    if is_due_today(task, today) {
        return Some(String::from_str("срок сегодня"));
    }
    if is_stale(task, today) {
        return Some(String::from_str("по задаче давно не было движения"));
    }
    None
}

fn section_items(tasks: &Vec<Task>, kind: SectionKind, today: Date) -> (r: Vec<TaskListItem>)
    requires
        today.wf(),
        times_in_range(tasks@),
    ensures
        r@.len() == members(task_views(tasks@), kind, today).len(),
        forall|j: int| 0 <= j < r@.len() ==> listed(#[trigger] r@[j], members(task_views(tasks@), kind, today)[j], today),
{
    let ghost v = task_views(tasks@);
    let mut out: Vec<TaskListItem> = Vec::new();
    let mut i: usize = 0;
    while i < tasks.len()
        invariant
            i <= tasks.len(),
            today.wf(),
            times_in_range(tasks@),
            v == task_views(tasks@),
            out@.len() == members(v.take(i as int), kind, today).len(),
            forall|j: int| 0 <= j < out@.len() ==> listed(#[trigger] out@[j], members(v.take(i as int), kind, today)[j], today),
        decreases tasks.len() - i,
    {
        let ghost prev = members(v.take(i as int), kind, today);
        proof {
            assert(v.take(i + 1).drop_last() =~= v.take(i as int));
            assert(v.take(i + 1).last() == tasks@[i as int]@);
        }
        let task = &tasks[i];
        if section_matches(kind, task, today) {
            let highlight_text = task_highlight(task, today);
            out.push(TaskListItem::from_task(task, None, None, highlight_text));
            assert(members(v.take(i + 1), kind, today) == prev.push(task@));
        } else {
            assert(members(v.take(i + 1), kind, today) == prev);
        }
        i = i + 1;
    }
    assert(v.take(tasks.len() as int) =~= v);
    out
}

/// The non-empty sections of `scope` over `tasks` on `today`.
pub fn build_sections(scope: TaskListScope, today: Date, tasks: &Vec<Task>) -> (r: Vec<TaskListSection>)
    requires
        today.wf(),
        times_in_range(tasks@),
    ensures
        r@.len() == sections_of(scope_sections(scope), task_views(tasks@), today).len(),
        forall|i: int| 0 <= i < r@.len() ==> section_is(
            #[trigger] r@[i],
            sections_of(scope_sections(scope), task_views(tasks@), today)[i],
            today,
        ),
{
    let ghost v = task_views(tasks@);
    let ghost descs = scope_sections(scope);
    let list = section_list(scope);
    let mut out: Vec<TaskListSection> = Vec::new();
    let mut i: usize = 0;
    while i < list.len()
        invariant
            i <= list@.len(),
            list@.len() == descs.len(),
            forall|k: int| 0 <= k < list@.len() ==> (#[trigger] list@[k]).0@ == descs[k].0 && list@[k].1 == descs[k].1,
            today.wf(),
            times_in_range(tasks@),
            v == task_views(tasks@),
            out@.len() == sections_of(descs.take(i as int), v, today).len(),
            forall|k: int| 0 <= k < out@.len() ==> section_is(#[trigger] out@[k], sections_of(descs.take(i as int), v, today)[k], today),
        decreases list.len() - i,
    {
        let ghost prev = sections_of(descs.take(i as int), v, today);
        proof {
            assert(descs.take(i + 1).drop_last() =~= descs.take(i as int));
            assert(descs.take(i + 1).last() == descs[i as int]);
        }
        let (title, kind) = list[i];
        let items = section_items(tasks, kind, today);
        if items.len() > 0 {
            out.push(TaskListSection { title: String::from_str(title), tasks: items });
            assert(sections_of(descs.take(i + 1), v, today) == prev.push((descs[i as int].0, members(v, kind, today))));
        } else {
            assert(sections_of(descs.take(i + 1), v, today) == prev);
        }
        i = i + 1;
    }
    assert(descs.take(list.len() as int) =~= descs);
    out
}

/// A page from the fetched rows: rows beyond `page_size` only prove that
/// more exist; the cursor is then the identifier of the last shown task.
pub fn build_page(scope: TaskListScope, today: Date, tasks: Vec<Task>, page_size: u32) -> (r: TaskListPage)
    requires
        today.wf(),
        times_in_range(tasks@),
    ensures
        ({
            let shown = if tasks@.len() > page_size { tasks@.take(page_size as int) } else { tasks@ };
            &&& r.sections@.len() == sections_of(scope_sections(scope), task_views(shown), today).len()
            &&& forall|i: int| 0 <= i < r.sections@.len() ==> section_is(
                #[trigger] r.sections@[i],
                sections_of(scope_sections(scope), task_views(shown), today)[i],
                today,
            )
            &&& (tasks@.len() > page_size && page_size > 0) ==> (r.next_cursor matches Some(c)
                && c@ == uid_text(shown.last().task_uid))
            &&& !(tasks@.len() > page_size && page_size > 0) ==> r.next_cursor is None
        }),
{
    let mut tasks = tasks;
    let has_more = tasks.len() > page_size as usize;
    if has_more {
        tasks.truncate(page_size as usize);
    }
    let next_cursor = if has_more && tasks.len() > 0 {
        Some(task_uid_text(tasks[tasks.len() - 1].task_uid))
    } else {
        None
    };
    let sections = build_sections(scope, today, &tasks);
    TaskListPage { sections, next_cursor }
}

/// A completed or cancelled task shows up in no section of the manager
/// inbox.
pub proof fn finished_task_stays_out_of_manager_inbox(t: TaskView, today: Date, i: int)
    requires
        status_terminal(t.status),
        0 <= i < scope_sections(TaskListScope::ManagerInbox).len(),
    ensures
        !in_section(scope_sections(TaskListScope::ManagerInbox)[i].1, t, today),
{
}

} // verus!
