//! The morning summary each assignee receives: how many open tasks they
//! have, how many are overdue, due today, blocked or in review, and the
//! first few titles.  The driver loads users and open tasks and queues the
//! notices computed here.
use vstd::prelude::*;

use crate::domain::notification::{Notification, NotificationDeliveryState, NotificationType};
use crate::domain::task::entity::{task_views, Task, TaskView};
use crate::domain::task::types::TaskStatus;
use crate::domain::user::User;
use crate::limits::{
    DAILY_SUMMARY_OPEN_TASK_SCAN_MULTIPLIER, MAX_DAILY_SUMMARY_PREVIEW_TASKS, MAX_DAILY_SUMMARY_TASKS,
};
use crate::text::{chars_of, decimal, join_chars, join_with, push_chars, push_decimal, push_signed, push_str, signed_decimal, string_of};
use crate::time::{formatted_date, Date, Timestamp};

verus! {

/// The first `k` tasks (in order) assigned to user `uid`.
pub open spec fn first_assigned(tasks: Seq<TaskView>, uid: i64, k: nat) -> Seq<TaskView>
    decreases tasks.len(),
{
    if tasks.len() == 0 || k == 0 {
        seq![]
    } else if tasks[0].assigned_to_user_id == Some(uid) {
        seq![tasks[0]] + first_assigned(tasks.drop_first(), uid, (k - 1) as nat)
    } else {
        first_assigned(tasks.drop_first(), uid, k)
    }
}

pub open spec fn is_overdue(t: TaskView, today: Date) -> bool {
    t.deadline matches Some(d) && d.days < today.days
}

pub open spec fn count_overdue(s: Seq<TaskView>, today: Date) -> nat
    decreases s.len(),
{
    if s.len() == 0 { 0 } else { count_overdue(s.drop_last(), today) + (if is_overdue(s.last(), today) { 1nat } else { 0 }) }
}

pub open spec fn count_due_on(s: Seq<TaskView>, today: Date) -> nat
    decreases s.len(),
{
    if s.len() == 0 { 0 } else { count_due_on(s.drop_last(), today) + (if s.last().deadline == Some(today) { 1nat } else { 0 }) }
}

pub open spec fn count_in_status(s: Seq<TaskView>, status: TaskStatus) -> nat
    decreases s.len(),
{
    if s.len() == 0 { 0 } else { count_in_status(s.drop_last(), status) + (if s.last().status == status { 1nat } else { 0 }) }
}

/// "• title" for the first few tasks, one per line.
pub open spec fn preview_of(s: Seq<TaskView>) -> Seq<char> {
    let n = if s.len() < MAX_DAILY_SUMMARY_PREVIEW_TASKS { s.len() } else { MAX_DAILY_SUMMARY_PREVIEW_TASKS as nat };
    join_with(Seq::new(n, |i: int| "• "@ + s[i].title), '\n')
}

/// The summary text of a user's assigned open tasks.
pub open spec fn summary_message(s: Seq<TaskView>, today: Date) -> Seq<char> {
    "Доброе утро. В работе у вас "@ + decimal(s.len()) + " задач.\n\nПросрочено: "@
        + decimal(count_overdue(s, today)) + "\nНа сегодня: "@ + decimal(count_due_on(s, today))
        + "\nС блокером: "@ + decimal(count_in_status(s, TaskStatus::Blocked))
        + "\nНа проверке: "@ + decimal(count_in_status(s, TaskStatus::InReview))
        + "\n\nБлижайшие задачи:\n"@ + preview_of(s)
}

/// `daily_summary:{user id}:{YYYY-MM-DD}`: one summary per user and day.
pub open spec fn summary_dedupe_key(uid: i64, today: Date) -> Seq<char> {
    "daily_summary:"@ + signed_decimal(uid as int) + ":"@ + formatted_date(today.days as int, "%Y-%m-%d"@)
}

/// (recipient, message) of every summary, in user order: users with an
/// identifier and at least one assigned open task get one.
pub open spec fn summaries(users: Seq<User>, tasks: Seq<TaskView>, today: Date) -> Seq<(i64, Seq<char>)>
    decreases users.len(),
{
    if users.len() == 0 {
        seq![]
    } else {
        let rest = summaries(users.drop_last(), tasks, today);
        match users.last().id {
            Some(uid) => {
                let mine = first_assigned(tasks, uid, MAX_DAILY_SUMMARY_TASKS as nat);
                if mine.len() > 0 { rest.push((uid, summary_message(mine, today))) } else { rest }
            },
            None => rest,
        }
    }
}

proof fn lemma_first_assigned_len(tasks: Seq<TaskView>, uid: i64, k: nat)
    ensures
        first_assigned(tasks, uid, k).len() <= k,
        first_assigned(tasks, uid, k).len() <= tasks.len(),
    decreases tasks.len(),
{
    if tasks.len() > 0 && k > 0 {
        if tasks[0].assigned_to_user_id == Some(uid) {
            lemma_first_assigned_len(tasks.drop_first(), uid, (k - 1) as nat);
        } else {
            lemma_first_assigned_len(tasks.drop_first(), uid, k);
        }
    }
}

/// Positions of the first `MAX_DAILY_SUMMARY_TASKS` tasks assigned to `uid`.
fn select_assigned(tasks: &Vec<Task>, uid: i64) -> (r: Vec<usize>)
    ensures
        r@.len() == first_assigned(task_views(tasks@), uid, MAX_DAILY_SUMMARY_TASKS as nat).len(),
        forall|j: int| 0 <= j < r@.len() ==> #[trigger] r@[j] < tasks@.len()
            && tasks@[r@[j] as int]@ == first_assigned(task_views(tasks@), uid, MAX_DAILY_SUMMARY_TASKS as nat)[j],
{
    let ghost all = task_views(tasks@);
    let ghost target = first_assigned(all, uid, MAX_DAILY_SUMMARY_TASKS as nat);
    let mut picked: Vec<usize> = Vec::new();
    let ghost mut acc: Seq<TaskView> = seq![];
    let mut i: usize = 0;
    proof {
        assert(all.skip(0) =~= all);
        lemma_first_assigned_len(all, uid, MAX_DAILY_SUMMARY_TASKS as nat);
    }
    while i < tasks.len() && picked.len() < MAX_DAILY_SUMMARY_TASKS
        invariant
            i <= tasks.len(),
            all == task_views(tasks@),
            target == first_assigned(all, uid, MAX_DAILY_SUMMARY_TASKS as nat),
            picked@.len() == acc.len(),
            acc.len() <= MAX_DAILY_SUMMARY_TASKS,
            target == acc + first_assigned(all.skip(i as int), uid, (MAX_DAILY_SUMMARY_TASKS - acc.len()) as nat),
            forall|j: int| 0 <= j < picked@.len() ==> #[trigger] picked@[j] < tasks@.len()
                && tasks@[picked@[j] as int]@ == acc[j],
        decreases tasks.len() - i,
    {
        proof {
            assert(all.skip(i as int).drop_first() =~= all.skip(i + 1));
            assert(all.skip(i as int)[0] == tasks@[i as int]@);
        }
        if tasks[i].assigned_to_user_id == Some(uid) {
            let ghost k = (MAX_DAILY_SUMMARY_TASKS - acc.len()) as nat;
            proof {
                assert(first_assigned(all.skip(i as int), uid, k)
                    == seq![all.skip(i as int)[0]] + first_assigned(all.skip(i + 1), uid, (k - 1) as nat));
                assert(acc.push(tasks@[i as int]@) + first_assigned(all.skip(i + 1), uid, (k - 1) as nat)
                    =~= acc + (seq![all.skip(i as int)[0]] + first_assigned(all.skip(i + 1), uid, (k - 1) as nat)));
                acc = acc.push(tasks@[i as int]@);
            }
            picked.push(i);
        }
        i = i + 1;
    }
    proof {
        if i == tasks.len() {
            assert(all.skip(i as int).len() == 0);
        }
        assert(target =~= acc);
    }
    picked
}

/// The summary of the selected tasks.
fn summary_text(tasks: &Vec<Task>, picked: &Vec<usize>, today: Date, Ghost(mine): Ghost<Seq<TaskView>>) -> (r: Vec<char>)
    requires
        picked@.len() == mine.len(),
        picked@.len() <= MAX_DAILY_SUMMARY_TASKS,
        forall|j: int| 0 <= j < picked@.len() ==> #[trigger] picked@[j] < tasks@.len()
            && tasks@[picked@[j] as int]@ == mine[j],
    ensures
        r@ == summary_message(mine, today),
{
    let mut overdue: u64 = 0;
    let mut due_today: u64 = 0;
    let mut blocked: u64 = 0;
    let mut review: u64 = 0;
    let mut lines: Vec<Vec<char>> = Vec::new();
    let mut j: usize = 0;
    while j < picked.len()
        invariant
            j <= picked@.len(),
            picked@.len() == mine.len(),
            picked@.len() <= MAX_DAILY_SUMMARY_TASKS,
            forall|k: int| 0 <= k < picked@.len() ==> #[trigger] picked@[k] < tasks@.len()
                && tasks@[picked@[k] as int]@ == mine[k],
            overdue == count_overdue(mine.take(j as int), today),
            due_today == count_due_on(mine.take(j as int), today),
            blocked == count_in_status(mine.take(j as int), TaskStatus::Blocked),
            review == count_in_status(mine.take(j as int), TaskStatus::InReview),
            overdue <= j && due_today <= j && blocked <= j && review <= j,
            lines@.len() == (if j < MAX_DAILY_SUMMARY_PREVIEW_TASKS { j as int } else { MAX_DAILY_SUMMARY_PREVIEW_TASKS as int }),
            forall|k: int| 0 <= k < lines@.len() ==> #[trigger] lines@[k]@ == "• "@ + mine[k].title,
        decreases picked.len() - j,
    {
        let task = &tasks[picked[j]];
        proof {
            assert(mine.take(j + 1).drop_last() =~= mine.take(j as int));
            assert(mine.take(j + 1).last() == task@);
        }
        match task.deadline {
            Some(d) => {
                if d.days < today.days {
                    overdue = overdue + 1;
                }
                if d == today {
                    due_today = due_today + 1;
                }
            },
            None => {},
        }
        if task.status == TaskStatus::Blocked {
            blocked = blocked + 1;
        }
        if task.status == TaskStatus::InReview {
            review = review + 1;
        }
        if lines.len() < MAX_DAILY_SUMMARY_PREVIEW_TASKS {
            let mut line = chars_of("• ");
            push_str(&mut line, task.title.as_str());
            lines.push(line);
        }
        j = j + 1;
    }
    proof {
        assert(mine.take(picked@.len() as int) =~= mine);
        let n = if mine.len() < MAX_DAILY_SUMMARY_PREVIEW_TASKS { mine.len() } else { MAX_DAILY_SUMMARY_PREVIEW_TASKS as nat };
        assert(lines@.map_values(|l: Vec<char>| l@) =~= Seq::new(n, |i: int| "• "@ + mine[i].title));
    }
    let preview = join_chars(&lines, '\n');
    let mut out = chars_of("Доброе утро. В работе у вас ");
    push_decimal(&mut out, picked.len() as u64);
    push_str(&mut out, " задач.\n\nПросрочено: ");
    push_decimal(&mut out, overdue);
    push_str(&mut out, "\nНа сегодня: ");
    push_decimal(&mut out, due_today);
    push_str(&mut out, "\nС блокером: ");
    push_decimal(&mut out, blocked);
    push_str(&mut out, "\nНа проверке: ");
    push_decimal(&mut out, review);
    push_str(&mut out, "\n\nБлижайшие задачи:\n");
    push_chars(&mut out, &preview);
    out
}

/// `n` is the daily summary of `message` for `recipient` on `today`.
pub open spec fn is_summary_notice(n: Notification, recipient: i64, message: Seq<char>, today: Date, now: Timestamp) -> bool {
    &&& n.id is None
    &&& n.task_id is None
    &&& n.recipient_user_id == recipient
    &&& n.notification_type == NotificationType::DailySummary
    &&& n.message@ == message
    &&& n.dedupe_key@ == summary_dedupe_key(recipient, today)
    &&& n.telegram_message_id is None
    &&& n.delivery_state == NotificationDeliveryState::Pending
    &&& !n.is_sent && !n.is_read && n.attempt_count == 0
    &&& n.sent_at is None && n.read_at is None && n.next_attempt_at is None
    &&& n.last_error_code is None
    &&& n.created_at == now
}

/// The daily summaries for `users` over the loaded open tasks.
pub fn build_daily_summaries(users: &Vec<User>, open_tasks: &Vec<Task>, today: Date, now: Timestamp) -> (r: Vec<Notification>)
    requires
        today.wf(),
    ensures
        r@.len() == summaries(users@, task_views(open_tasks@), today).len(),
        forall|i: int| 0 <= i < r@.len() ==> is_summary_notice(
            #[trigger] r@[i],
            summaries(users@, task_views(open_tasks@), today)[i].0,
            summaries(users@, task_views(open_tasks@), today)[i].1,
            today,
            now,
        ),
{
    let ghost tasks = task_views(open_tasks@);
    let date_text = today.format("%Y-%m-%d");
    let mut out: Vec<Notification> = Vec::new();
    let mut u: usize = 0;
    while u < users.len()
        invariant
            u <= users.len(),
            tasks == task_views(open_tasks@),
            today.wf(),
            date_text@ == formatted_date(today.days as int, "%Y-%m-%d"@),
            out@.len() == summaries(users@.take(u as int), tasks, today).len(),
            forall|i: int| 0 <= i < out@.len() ==> is_summary_notice(
                #[trigger] out@[i],
                summaries(users@.take(u as int), tasks, today)[i].0,
                summaries(users@.take(u as int), tasks, today)[i].1,
                today,
                now,
            ),
        decreases users.len() - u,
    {
        let ghost prev = summaries(users@.take(u as int), tasks, today);
        proof {
            assert(users@.take(u + 1).drop_last() =~= users@.take(u as int));
            assert(users@.take(u + 1).last() == users@[u as int]);
        }
        match users[u].id {
            Some(uid) => {
                let picked = select_assigned(open_tasks, uid);
                if picked.len() > 0 {
                    let ghost mine = first_assigned(tasks, uid, MAX_DAILY_SUMMARY_TASKS as nat);
                    proof {
                        lemma_first_assigned_len(tasks, uid, MAX_DAILY_SUMMARY_TASKS as nat);
                    }
                    let message = summary_text(open_tasks, &picked, today, Ghost(mine));
                    let mut key = chars_of("daily_summary:");
                    push_signed(&mut key, uid);
                    push_str(&mut key, ":");
                    push_str(&mut key, date_text.as_str());
                    out.push(Notification {
                        id: None,
                        task_id: None,
                        recipient_user_id: uid,
                        notification_type: NotificationType::DailySummary,
                        message: string_of(message.as_slice()),
                        dedupe_key: string_of(key.as_slice()),
                        telegram_message_id: None,
                        delivery_state: NotificationDeliveryState::Pending,
                        is_sent: false,
                        is_read: false,
                        attempt_count: 0,
                        sent_at: None,
                        read_at: None,
                        next_attempt_at: None,
                        last_error_code: None,
                        created_at: now,
                    });
                    assert(summaries(users@.take(u + 1), tasks, today) == prev.push((uid, summary_message(mine, today))));
                } else {
                    assert(summaries(users@.take(u + 1), tasks, today) == prev);
                }
            },
            None => {
                assert(summaries(users@.take(u + 1), tasks, today) == prev);
            },
        }
        u = u + 1;
    }
    assert(users@.take(users.len() as int) =~= users@);
    out
}

/// Open tasks loaded per run.
pub fn daily_summary_scan_limit() -> (r: i64)
    ensures
        r == MAX_DAILY_SUMMARY_TASKS * DAILY_SUMMARY_OPEN_TASK_SCAN_MULTIPLIER,
{
    (MAX_DAILY_SUMMARY_TASKS * DAILY_SUMMARY_OPEN_TASK_SCAN_MULTIPLIER) as i64
}

} // verus!
