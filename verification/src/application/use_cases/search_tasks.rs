//! Task search: a validated query matched as a substring against the
//! caller's own tasks (assigned to or created by them), most recently
//! updated first.  The driver loads the two task lists.
use vstd::prelude::*;

use crate::application::dto::TaskListItem;
use crate::domain::errors::{ctx_empty, ctx_one, AppError, AppResult, ContextValue, ErrorKind};
use crate::domain::task::entity::{task_uid_text, task_views, uid_text, Task, TaskView};
use crate::domain::user::User;
use crate::text::{
    char_is_control, chars_of, contains_seq, drop_controls, find_seq, is_ctrl, lowercase, lowercase_chars,
    remove_controls, string_of, trim, trim_chars,
};

verus! {

/// Results returned by one search.
pub const MAX_SEARCH_RESULTS: usize = 15;
pub const MIN_QUERY_CHARS: usize = 2;
pub const MAX_QUERY_CHARS: usize = 64;
/// Tasks loaded per list (assigned, created) for one search.
pub const SEARCH_SCAN_LIMIT: i64 = 200;

/// A validated, canonical search query.
#[derive(Debug)]
pub struct SearchQuery {
    canonical: String,
}

/// Control characters dropped, trimmed, lower-cased.
pub open spec fn canonical_query(raw: Seq<char>) -> Seq<char> {
    lowercase(trim(drop_controls(raw)))
}

/// The rule a canonical query breaks, if any.
pub open spec fn query_violation(c: Seq<char>) -> Option<Seq<char>> {
    if c.len() == 0 {
        Some("SEARCH_QUERY_EMPTY"@)
    } else if c.len() < MIN_QUERY_CHARS {
        Some("SEARCH_QUERY_TOO_SHORT"@)
    } else if c.len() > MAX_QUERY_CHARS {
        Some("SEARCH_QUERY_TOO_LONG"@)
    } else {
        None
    }
}

impl SearchQuery {
    pub closed spec fn view(&self) -> Seq<char> {
        self.canonical@
    }

    /// Canonicalises and checks the length of a raw query.
    pub fn parse(raw: &str) -> (r: AppResult<SearchQuery>)
        ensures
            r is Ok <==> query_violation(canonical_query(raw@)) is None,
            r matches Ok(q) ==> q.view() == canonical_query(raw@),
            r matches Err(e) ==> e.kind() == ErrorKind::Validation
                && Some(e.code_view()) == query_violation(canonical_query(raw@)),
            r matches Err(e) ==> e.message_view() == (
                if canonical_query(raw@).len() == 0 {
                    "search query must not be empty"@
                } else if canonical_query(raw@).len() < MIN_QUERY_CHARS {
                    "query must be at least 2 characters"@
                } else {
                    "query must be at most 64 characters"@
                }),
    {
        let cleaned = remove_controls(&chars_of(raw));
        let canonical = lowercase_chars(&trim_chars(&cleaned));
        let count = canonical.len();
        if count == 0 {
            return Err(AppError::schema_validation(
                "SEARCH_QUERY_EMPTY",
                String::from_str("search query must not be empty"),
                ctx_empty(),
            ));
        }
        if count < MIN_QUERY_CHARS {
            return Err(AppError::schema_validation(
                "SEARCH_QUERY_TOO_SHORT",
                String::from_str("query must be at least 2 characters"),
                ctx_one("min", ContextValue::Int(MIN_QUERY_CHARS as i64)),
            ));
        }
        if count > MAX_QUERY_CHARS {
            return Err(AppError::schema_validation(
                "SEARCH_QUERY_TOO_LONG",
                String::from_str("query must be at most 64 characters"),
                ctx_one("max", ContextValue::Int(MAX_QUERY_CHARS as i64)),
            ));
        }
        Ok(SearchQuery { canonical: string_of(canonical.as_slice()) })
    }

    pub fn canonical(&self) -> (r: &str)
        ensures
            r@ == self.view(),
    {
        self.canonical.as_str()
    }
}

/// Only registered users may search.
pub fn search_actor_id(actor: &User) -> (r: AppResult<i64>)
    ensures
        match actor.id {
            Some(id) => r == Ok::<i64, AppError>(id),
            None => r matches Err(e) && e.is_error(ErrorKind::Auth, "SEARCH_REQUIRES_PERSISTED_USER"@),
        },
        r matches Err(e) ==> e.message_view() == "каталог задач доступен только зарегистрированным пользователям"@,
{
    match actor.id {
        Some(id) => Ok(id),
        None => Err(AppError::forbidden(
            "SEARCH_REQUIRES_PERSISTED_USER",
            String::from_str("каталог задач доступен только зарегистрированным пользователям"),
            ctx_empty(),
        )),
    }
}

/// The query occurs in the lower-cased title, description or identifier.
pub open spec fn matches_query(t: TaskView, q: Seq<char>) -> bool {
    contains_seq(lowercase(t.title), q) || contains_seq(lowercase(t.description), q)
        || contains_seq(lowercase(uid_text(t.task_uid)), q)
}

fn matches_query_exec(task: &Task, q: &Vec<char>) -> (r: bool)
    ensures
        r == matches_query(task@, q@),
{
    let title = lowercase_chars(&chars_of(task.title.as_str()));
    if find_seq(&title, q).is_some() {
        return true;
    }
    let description = lowercase_chars(&chars_of(task.description.as_str()));
    if find_seq(&description, q).is_some() {
        return true;
    }
    let uid = lowercase_chars(&chars_of(task_uid_text(task.task_uid).as_str()));
    find_seq(&uid, q).is_some()
}

/// The tasks of `s` with an identifier not seen earlier in `s`.
pub open spec fn first_by_uid(s: Seq<TaskView>) -> Seq<TaskView>
    decreases s.len(),
{
    if s.len() == 0 {
        seq![]
    } else {
        let rest = first_by_uid(s.drop_last());
        if exists|j: int| 0 <= j < rest.len() && rest[j].task_uid == s.last().task_uid {
            rest
        } else {
            rest.push(s.last())
        }
    }
}

/// The tasks of `s` that match `q`, in order.
pub open spec fn matching(s: Seq<TaskView>, q: Seq<char>) -> Seq<TaskView>
    decreases s.len(),
{
    if s.len() == 0 {
        seq![]
    } else if matches_query(s.last(), q) {
        matching(s.drop_last(), q).push(s.last())
    } else {
        matching(s.drop_last(), q)
    }
}

/// `x` inserted before the first task updated earlier than it.
pub open spec fn insert_by_update(s: Seq<TaskView>, x: TaskView) -> Seq<TaskView>
    decreases s.len(),
{
    if s.len() == 0 {
        seq![x]
    } else if x.updated_at > s[0].updated_at {
        seq![x] + s
    } else {
        seq![s[0]] + insert_by_update(s.drop_first(), x)
    }
}

/// Stable sort, most recently updated first.
pub open spec fn sort_by_update(s: Seq<TaskView>) -> Seq<TaskView>
    decreases s.len(),
{
    if s.len() == 0 { s } else { insert_by_update(sort_by_update(s.drop_last()), s.last()) }
}

pub open spec fn insert_position(s: Seq<TaskView>, x: TaskView) -> int
    decreases s.len(),
{
    if s.len() == 0 || x.updated_at > s[0].updated_at { 0 } else { 1 + insert_position(s.drop_first(), x) }
}

proof fn lemma_insert_position(s: Seq<TaskView>, x: TaskView)
    ensures
        0 <= insert_position(s, x) <= s.len(),
        insert_by_update(s, x) == s.insert(insert_position(s, x), x),
        forall|j: int| 0 <= j < insert_position(s, x) ==> !(x.updated_at > s[j].updated_at),
        insert_position(s, x) < s.len() ==> x.updated_at > s[insert_position(s, x)].updated_at,
    decreases s.len(),
{
    if s.len() == 0 {
        assert(seq![x] =~= s.insert(0, x));
    } else if x.updated_at > s[0].updated_at {
        assert(seq![x] + s =~= s.insert(0, x));
    } else {
        lemma_insert_position(s.drop_first(), x);
        assert(seq![s[0]] + s.drop_first().insert(insert_position(s.drop_first(), x), x)
            =~= s.insert(insert_position(s, x), x));
        assert forall|j: int| 0 <= j < insert_position(s, x) implies !(x.updated_at > s[j].updated_at) by {
            if j > 0 {
                assert(s[j] == s.drop_first()[j - 1]);
            }
        }
    }
}

/// The search result: first occurrences of the caller's tasks (assigned
/// first, then created), the matching ones, most recent first, at most
/// `MAX_SEARCH_RESULTS`.
pub open spec fn search_result(assigned: Seq<TaskView>, created: Seq<TaskView>, q: Seq<char>) -> Seq<TaskView> {
    let sorted = sort_by_update(matching(first_by_uid(assigned + created), q));
    if sorted.len() > MAX_SEARCH_RESULTS { sorted.take(MAX_SEARCH_RESULTS as int) } else { sorted }
}

/// `item` lists `t` with no assignee, delivery or highlight annotation.
pub open spec fn plain_item(item: TaskListItem, t: TaskView) -> bool {
    &&& item.task_uid == t.task_uid
    &&& item.title@ == t.title
    &&& item.status == t.status
    &&& item.deadline == t.deadline
    &&& item.assigned_to_display is None
    &&& item.delivery_status is None
    &&& item.highlight is None
}

proof fn lemma_sort_len(s: Seq<TaskView>)
    ensures
        sort_by_update(s).len() == s.len(),
    decreases s.len(),
{
    if s.len() > 0 {
        lemma_sort_len(s.drop_last());
        lemma_insert_position(sort_by_update(s.drop_last()), s.last());
    }
}

/// The tasks of `all` at positions `idx`, in order.
pub open spec fn at_positions(all: Seq<TaskView>, idx: Seq<usize>) -> Seq<TaskView> {
    idx.map_values(|k: usize| all[k as int])
}

/// Positions of the first occurrence of each identifier in `all`.
fn first_positions(all: &Vec<Task>) -> (r: Vec<usize>)
    ensures
        forall|j: int| 0 <= j < r@.len() ==> #[trigger] r@[j] < all@.len(),
        at_positions(task_views(all@), r@) == first_by_uid(task_views(all@)),
{
    let ghost v = task_views(all@);
    let mut kept: Vec<usize> = Vec::new();
    let mut i: usize = 0;
    while i < all.len()
        invariant
            i <= all.len(),
            v == task_views(all@),
            forall|j: int| 0 <= j < kept@.len() ==> #[trigger] kept@[j] < i,
            at_positions(v, kept@) == first_by_uid(v.take(i as int)),
        decreases all.len() - i,
    {
        let ghost prev = at_positions(v, kept@);
        proof {
            assert(v.take(i + 1).drop_last() =~= v.take(i as int));
            assert(v.take(i + 1).last() == all@[i as int]@);
        }
        let uid = all[i].task_uid;
        let mut seen = false;
        let mut m: usize = 0;
        while m < kept.len()
            invariant
                m <= kept@.len(),
                i < all.len(),
                v == task_views(all@),
                forall|j: int| 0 <= j < kept@.len() ==> #[trigger] kept@[j] < i,
                prev == at_positions(v, kept@),
                uid == v[i as int].task_uid,
                seen == exists|j: int| 0 <= j < m && prev[j].task_uid == uid,
            decreases kept.len() - m,
        {
            let at = kept[m];
            assert(prev[m as int] == v[at as int]);
            if all[at].task_uid == uid {
                seen = true;
            }
            m = m + 1;
        }
        if !seen {
            kept.push(i);
            assert(at_positions(v, kept@) =~= prev.push(v[i as int]));
        }
        i = i + 1;
    }
    assert(v.take(all.len() as int) =~= v);
    kept
}

/// The positions among `idx` whose task matches `q`.
fn matching_positions(all: &Vec<Task>, idx: &Vec<usize>, q: &Vec<char>) -> (r: Vec<usize>)
    requires
        forall|j: int| 0 <= j < idx@.len() ==> #[trigger] idx@[j] < all@.len(),
    ensures
        forall|j: int| 0 <= j < r@.len() ==> #[trigger] r@[j] < all@.len(),
        at_positions(task_views(all@), r@) == matching(at_positions(task_views(all@), idx@), q@),
{
    let ghost v = task_views(all@);
    let ghost src = at_positions(v, idx@);
    let mut out: Vec<usize> = Vec::new();
    let mut i: usize = 0;
    while i < idx.len()
        invariant
            i <= idx.len(),
            v == task_views(all@),
            src == at_positions(v, idx@),
            forall|j: int| 0 <= j < idx@.len() ==> #[trigger] idx@[j] < all@.len(),
            forall|j: int| 0 <= j < out@.len() ==> #[trigger] out@[j] < all@.len(),
            at_positions(v, out@) == matching(src.take(i as int), q@),
        decreases idx.len() - i,
    {
        proof {
            assert(src.take(i + 1).drop_last() =~= src.take(i as int));
            assert(src.take(i + 1).last() == v[idx@[i as int] as int]);
        }
        let ghost prev = at_positions(v, out@);
        let at = idx[i];
        if matches_query_exec(&all[at], q) {
            out.push(at);
            assert(at_positions(v, out@) =~= prev.push(v[at as int]));
        }
        i = i + 1;
    }
    assert(src.take(idx.len() as int) =~= src);
    out
}

/// The positions `idx` ordered by their tasks' update time, most recent
/// first, ties kept in order.
fn sort_positions(all: &Vec<Task>, idx: &Vec<usize>) -> (r: Vec<usize>)
    requires
        forall|j: int| 0 <= j < idx@.len() ==> #[trigger] idx@[j] < all@.len(),
    ensures
        forall|j: int| 0 <= j < r@.len() ==> #[trigger] r@[j] < all@.len(),
        at_positions(task_views(all@), r@) == sort_by_update(at_positions(task_views(all@), idx@)),
{
    let ghost v = task_views(all@);
    let ghost src = at_positions(v, idx@);
    let mut sorted: Vec<usize> = Vec::new();
    let mut i: usize = 0;
    while i < idx.len()
        invariant
            i <= idx.len(),
            v == task_views(all@),
            src == at_positions(v, idx@),
            forall|j: int| 0 <= j < idx@.len() ==> #[trigger] idx@[j] < all@.len(),
            forall|j: int| 0 <= j < sorted@.len() ==> #[trigger] sorted@[j] < all@.len(),
            at_positions(v, sorted@) == sort_by_update(src.take(i as int)),
        decreases idx.len() - i,
    {
        let at = idx[i];
        let ghost x = v[at as int];
        let ghost before = at_positions(v, sorted@);
        proof {
            assert(src[i as int] == x);
        }
        let stamp = all[at].updated_at;
        let mut pos: usize = 0;
        while pos < sorted.len() && !(stamp > all[sorted[pos]].updated_at)
            invariant
                pos <= sorted@.len(),
                v == task_views(all@),
                at < all@.len(),
                x == v[at as int],
                stamp == x.updated_at,
                forall|j: int| 0 <= j < sorted@.len() ==> #[trigger] sorted@[j] < all@.len(),
                before == at_positions(v, sorted@),
                forall|j: int| 0 <= j < pos ==> !(x.updated_at > before[j].updated_at),
            decreases sorted.len() - pos,
        {
            assert(before[pos as int] == v[sorted@[pos as int] as int]);
            pos = pos + 1;
        }
        proof {
            lemma_insert_position(before, x);
            let p = insert_position(before, x);
            if pos < sorted.len() {
                assert(before[pos as int] == v[sorted@[pos as int] as int]);
            }
            assert(p == pos) by {
                if p < pos {
                    assert(x.updated_at > before[p].updated_at);
                } else if p > pos {
                    assert(!(x.updated_at > before[pos as int].updated_at));
                }
            }
            assert(src.take(i + 1).drop_last() =~= src.take(i as int));
            assert(src.take(i + 1).last() == x);
        }
        sorted.insert(pos, at);
        assert(at_positions(v, sorted@) =~= before.insert(pos as int, x));
        i = i + 1;
    }
    assert(src.take(idx.len() as int) =~= src);
    sorted
}

/// Runs the search over the two loaded task lists.
pub fn search_in(assigned: Vec<Task>, created: Vec<Task>, query: &SearchQuery) -> (r: Vec<TaskListItem>)
    ensures
        r@.len() == search_result(task_views(assigned@), task_views(created@), query.view()).len(),
        forall|i: int| 0 <= i < r@.len() ==> plain_item(
            #[trigger] r@[i],
            search_result(task_views(assigned@), task_views(created@), query.view())[i],
        ),
{
    let ghost expected = search_result(task_views(assigned@), task_views(created@), query.view());
    let q = chars_of(query.canonical());
    let mut all = assigned;
    let mut rest = created;
    let ghost a0 = all@;
    let ghost c0 = rest@;
    all.append(&mut rest);
    let ghost v = task_views(all@);
    assert(v =~= task_views(a0) + task_views(c0));
    let firsts = first_positions(&all);
    let found = matching_positions(&all, &firsts, &q);
    let sorted = sort_positions(&all, &found);
    proof {
        lemma_sort_len(at_positions(v, found@));
    }
    let limit = if sorted.len() > MAX_SEARCH_RESULTS { MAX_SEARCH_RESULTS } else { sorted.len() };
    let mut out: Vec<TaskListItem> = Vec::new();
    let mut i: usize = 0;
    while i < limit
        invariant
            i <= limit <= sorted@.len(),
            limit == (if sorted@.len() > MAX_SEARCH_RESULTS { MAX_SEARCH_RESULTS as int } else { sorted@.len() as int }),
            v == task_views(all@),
            forall|j: int| 0 <= j < sorted@.len() ==> #[trigger] sorted@[j] < all@.len(),
            at_positions(v, sorted@) == sort_by_update(matching(first_by_uid(v), q@)),
            q@ == query.view(),
            out@.len() == i,
            forall|j: int| 0 <= j < i ==> plain_item(#[trigger] out@[j], at_positions(v, sorted@)[j]),
        decreases limit - i,
    {
        out.push(TaskListItem::from_task(&all[sorted[i]], None, None, None));
        i = i + 1;
    }
    proof {
        let s = sort_by_update(matching(first_by_uid(v), q@));
        assert forall|j: int| 0 <= j < out@.len() implies plain_item(#[trigger] out@[j], expected[j]) by {
            if s.len() > MAX_SEARCH_RESULTS {
                assert(expected[j] == s.take(MAX_SEARCH_RESULTS as int)[j]);
            }
        }
    }
    out
}

} // verus!
