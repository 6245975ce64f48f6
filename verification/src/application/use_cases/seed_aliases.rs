//! Seeding of common first-name diminutives as employee aliases.  A
//! diminutive is seeded for an employee only when exactly one employee's
//! first name normalises to the diminutive's formal name; the pairs come out
//! sorted by employee id and alias, each once.  The driver stores them.
use vstd::prelude::*;

use crate::domain::employee::{Employee, EmployeeView};
use crate::domain::name_matching::{
    first_name_exec, first_name_of, lemma_lex_irreflexive, lemma_lex_total, lemma_lex_transitive, lex_less,
    lex_lt, normalize_name, normalize_name_exec, employee_views,
};
use crate::text::{chars_of, seq_equal, string_of};

verus! {

/// Common Russian diminutives and short forms with the formal first name
/// each stands for, in display form.
pub fn russian_diminutives() -> (r: Vec<(&'static str, &'static str)>)
    ensures
        r.len() == 114,
{
    vec![
        ("Ваня", "Иван"),
        ("Ванечка", "Иван"),
        ("Ванюша", "Иван"),
        ("Саша", "Александр"),
        ("Шура", "Александр"),
        ("Петя", "Пётр"),
        ("Петруша", "Пётр"),
        ("Коля", "Николай"),
        ("Колька", "Николай"),
        ("Серёжа", "Сергей"),
        ("Серёга", "Сергей"),
        ("Витя", "Виктор"),
        ("Рома", "Роман"),
        ("Дима", "Дмитрий"),
        ("Митя", "Дмитрий"),
        ("Федя", "Фёдор"),
        ("Ваня", "Иван"),
        ("Паша", "Павел"),
        ("Пашка", "Павел"),
        ("Гена", "Геннадий"),
        ("Гоша", "Георгий"),
        ("Жора", "Георгий"),
        ("Гриша", "Григорий"),
        ("Андрюша", "Андрей"),
        ("Андрюха", "Андрей"),
        ("Лёша", "Алексей"),
        ("Лёха", "Алексей"),
        ("Алёша", "Алексей"),
        ("Кирюша", "Кирилл"),
        ("Костя", "Константин"),
        ("Котя", "Константин"),
        ("Стёпа", "Степан"),
        ("Стёпка", "Степан"),
        ("Слава", "Вячеслав"),
        ("Вася", "Василий"),
        ("Васька", "Василий"),
        ("Миша", "Михаил"),
        ("Мишка", "Михаил"),
        ("Лёва", "Лев"),
        ("Лёнька", "Леонид"),
        ("Лёня", "Леонид"),
        ("Женя", "Евгений"),
        ("Тёма", "Артём"),
        ("Влад", "Владислав"),
        ("Денис", "Денис"),
        ("Игорёк", "Игорь"),
        ("Санёк", "Александр"),
        ("Антоха", "Антон"),
        ("Толик", "Анатолий"),
        ("Максик", "Максим"),
        ("Максим", "Максим"),
        ("Саша", "Александра"),
        ("Шура", "Александра"),
        ("Маша", "Мария"),
        ("Машенька", "Мария"),
        ("Катя", "Екатерина"),
        ("Катюша", "Екатерина"),
        ("Оля", "Ольга"),
        ("Оленька", "Ольга"),
        ("Лена", "Елена"),
        ("Леночка", "Елена"),
        ("Аня", "Анна"),
        ("Анюта", "Анна"),
        ("Наташа", "Наталья"),
        ("Наташка", "Наталья"),
        ("Таня", "Татьяна"),
        ("Танюша", "Татьяна"),
        ("Света", "Светлана"),
        ("Светуля", "Светлана"),
        ("Вика", "Виктория"),
        ("Галя", "Галина"),
        ("Нина", "Нина"),
        ("Жека", "Евгения"),
        ("Женя", "Евгения"),
        ("Ира", "Ирина"),
        ("Ирочка", "Ирина"),
        ("Юля", "Юлия"),
        ("Юляша", "Юлия"),
        ("Люба", "Любовь"),
        ("Любаша", "Любовь"),
        ("Вера", "Вера"),
        ("Надя", "Надежда"),
        ("Надюша", "Надежда"),
        ("Ксюша", "Ксения"),
        ("Ксюха", "Ксения"),
        ("Алина", "Алина"),
        ("Лина", "Ангелина"),
        ("Алёна", "Алёна"),
        ("Настя", "Анастасия"),
        ("Настюша", "Анастасия"),
        ("Лиза", "Елизавета"),
        ("Лизочка", "Елизавета"),
        ("Кристина", "Кристина"),
        ("Кристи", "Кристина"),
        ("Дарья", "Дарья"),
        ("Даша", "Дарья"),
        ("Дашенька", "Дарья"),
        ("Соня", "Софья"),
        ("Сонечка", "Софья"),
        ("Полина", "Полина"),
        ("Поля", "Полина"),
        ("Мила", "Людмила"),
        ("Люда", "Людмила"),
        ("Людмилка", "Людмила"),
        ("Тоня", "Антонина"),
        ("Зина", "Зинаида"),
        ("Рита", "Маргарита"),
        ("Маргарита", "Маргарита"),
        ("Вита", "Виталина"),
        ("Диана", "Диана"),
        ("Ника", "Вероника"),
        ("Валя", "Валентина"),
        ("Валюша", "Валентина"),
        ("Алла", "Алла"),
    ]
}

/// The employee's first name normalises to `canonical`.
pub open spec fn first_name_matches(e: EmployeeView, canonical: Seq<char>) -> bool {
    first_name_of(e.full_name) == canonical
}

/// Employee `i` is the only one whose first name is `canonical`.
pub open spec fn sole_match(employees: Seq<EmployeeView>, canonical: Seq<char>, i: int) -> bool {
    &&& 0 <= i < employees.len()
    &&& first_name_matches(employees[i], canonical)
    &&& forall|j: int| 0 <= j < employees.len() && j != i ==> !first_name_matches(#[trigger] employees[j], canonical)
}

/// The formal name `formal` picks out exactly one employee, stored as `id`.
pub open spec fn seeds_for(employees: Seq<EmployeeView>, formal: Seq<char>, id: i64) -> bool {
    exists|i: int| sole_match(employees, normalize_name(formal), i) && employees[i].id == Some(id)
}

/// `(id, alias)` is seeded from the table.
pub open spec fn seeded(table: Seq<(&str, &str)>, employees: Seq<EmployeeView>, id: i64, alias: Seq<char>) -> bool {
    exists|k: int| 0 <= k < table.len() && alias == (#[trigger] table[k]).0@ && seeds_for(employees, table[k].1@, id)
}

/// Pairs ordered by employee id, then by alias.
pub open spec fn pair_lt(x: (i64, Seq<char>), y: (i64, Seq<char>)) -> bool {
    x.0 < y.0 || (x.0 == y.0 && lex_lt(x.1, y.1))
}

pub open spec fn strictly_sorted(s: Seq<(i64, Seq<char>)>) -> bool {
    forall|i: int, j: int| 0 <= i < j < s.len() ==> pair_lt(#[trigger] s[i], #[trigger] s[j])
}

pub open spec fn pair_views(v: Seq<(i64, String)>) -> Seq<(i64, Seq<char>)> {
    v.map_values(|p: (i64, String)| (p.0, p.1@))
}

spec fn chars_pair_views(v: Seq<(i64, Vec<char>)>) -> Seq<(i64, Seq<char>)> {
    v.map_values(|p: (i64, Vec<char>)| (p.0, p.1@))
}

proof fn lemma_pair_order(x: (i64, Seq<char>), y: (i64, Seq<char>), z: (i64, Seq<char>))
    ensures
        !pair_lt(x, x),
        x != y ==> pair_lt(x, y) || pair_lt(y, x),
        pair_lt(x, y) && pair_lt(y, z) ==> pair_lt(x, z),
        pair_lt(x, y) ==> !pair_lt(y, x),
{
    lemma_lex_irreflexive(x.1);
    if x != y && x.0 == y.0 {
        lemma_lex_total(x.1, y.1);
    }
    if pair_lt(x, y) && pair_lt(y, z) && x.0 == y.0 && y.0 == z.0 {
        lemma_lex_transitive(x.1, y.1, z.1);
    }
    if pair_lt(x, y) && pair_lt(y, x) {
        lemma_lex_transitive(x.1, y.1, x.1);
    }
}

/// The only employee whose normalised first name is `canonical`, if there
/// is exactly one: its index.
fn sole_match_index(employees: &Vec<Employee>, canonical: &Vec<char>) -> (r: Option<usize>)
    ensures
        match r {
            Some(i) => sole_match(employee_views(employees@), canonical@, i as int),
            None => forall|i: int| !sole_match(employee_views(employees@), canonical@, i),
        },
{
    let ghost ev = employee_views(employees@);
    let mut count: u8 = 0;
    let mut first: usize = 0;
    let mut idx: usize = 0;
    while idx < employees.len()
        invariant
            idx <= employees.len(),
            ev == employee_views(employees@),
            count <= 2,
            count == 0 ==> forall|j: int| 0 <= j < idx ==> !first_name_matches(#[trigger] ev[j], canonical@),
            count == 1 ==> first < idx && first_name_matches(ev[first as int], canonical@)
                && forall|j: int| 0 <= j < idx && j != first ==> !first_name_matches(#[trigger] ev[j], canonical@),
            count == 2 ==> first < idx && first_name_matches(ev[first as int], canonical@)
                && exists|j: int| 0 <= j < idx && j != first && first_name_matches(#[trigger] ev[j], canonical@),
        decreases employees.len() - idx,
    {
        let name = chars_of(employees[idx].full_name.as_str());
        let first_name = first_name_exec(&name);
        if seq_equal(&first_name, canonical) {
            assert(first_name_matches(ev[idx as int], canonical@));
            if count == 0 {
                count = 1;
                first = idx;
            } else if count == 1 {
                count = 2;
            }
        }
        idx = idx + 1;
    }
    if count == 1 {
        Some(first)
    } else {
        proof {
            assert forall|i: int| !sole_match(ev, canonical@, i) by {
                if count == 2 && 0 <= i < ev.len() {
                    let j = choose|j: int| 0 <= j < ev.len() && j != first && first_name_matches(#[trigger] ev[j], canonical@);
                    if i != first as int {
                        assert(first_name_matches(ev[first as int], canonical@));
                    }
                }
            }
        }
        None
    }
}

/// Inserts `x` into a strictly sorted list unless it is already there.
fn insert_sorted(out: &mut Vec<(i64, Vec<char>)>, x: (i64, Vec<char>))
    requires
        strictly_sorted(chars_pair_views(old(out)@)),
    ensures
        strictly_sorted(chars_pair_views(final(out)@)),
        forall|p: (i64, Seq<char>)| chars_pair_views(final(out)@).contains(p)
            <==> (chars_pair_views(old(out)@).contains(p) || p == (x.0, x.1@)),
{
    let ghost s = chars_pair_views(out@);
    let ghost xv = (x.0, x.1@);
    let mut j: usize = 0;
    while j < out.len() && (out[j].0 < x.0 || (out[j].0 == x.0 && lex_less(&out[j].1, &x.1)))
        invariant
            j <= out.len(),
            s == chars_pair_views(out@),
            xv == (x.0, x.1@),
            forall|i: int| 0 <= i < j ==> pair_lt(#[trigger] s[i], xv),
        decreases out.len() - j,
    {
        assert(s[j as int] == (out@[j as int].0, out@[j as int].1@));
        j = j + 1;
    }
    if j < out.len() {
        assert(s[j as int] == (out@[j as int].0, out@[j as int].1@));
        assert(!pair_lt(s[j as int], xv));
        if out[j].0 == x.0 && seq_equal(&out[j].1, &x.1) {
            assert(s[j as int] == xv);
            assert(s.contains(xv));
            return;
        }
    }
    proof {
        if j < s.len() {
            lemma_pair_order(s[j as int], xv, xv);
            assert(s[j as int] != xv);
            assert(pair_lt(xv, s[j as int]));
        }
    }
    out.insert(j, x);
    proof {
        let t = chars_pair_views(out@);
        assert(t =~= s.insert(j as int, xv));
        assert forall|a: int, b: int| 0 <= a < b < t.len() implies pair_lt(#[trigger] t[a], #[trigger] t[b]) by {
            if b == j as int {
            } else if a == j as int {
                if b - 1 > j as int {
                    lemma_pair_order(xv, s[j as int], s[b - 1]);
                }
            } else if a < j as int && b > j as int {
            }
        }
        assert forall|p: (i64, Seq<char>)| t.contains(p) <==> (s.contains(p) || p == xv) by {
            if t.contains(p) {
                let k = choose|k: int| 0 <= k < t.len() && t[k] == p;
                if k < j as int {
                    assert(s[k] == p);
                } else if k > j as int {
                    assert(s[k - 1] == p);
                }
            }
            if s.contains(p) {
                let k = choose|k: int| 0 <= k < s.len() && s[k] == p;
                if k < j as int {
                    assert(t[k] == p);
                } else {
                    assert(t[k + 1] == p);
                }
            }
            if p == xv {
                assert(t[j as int] == p);
            }
        }
    }
}

/// The `(employee id, alias)` pairs to seed from `table`: a diminutive is
/// seeded for the one stored employee whose first name normalises to its
/// formal name, and skipped when none or several do.  The pairs come out
/// sorted by id, then alias, each once.
pub fn seed_pairs(table: &Vec<(&str, &str)>, employees: &Vec<Employee>) -> (r: Vec<(i64, String)>)
    ensures
        strictly_sorted(pair_views(r@)),
        forall|id: i64, alias: Seq<char>| pair_views(r@).contains((id, alias))
            <==> seeded(table@, employee_views(employees@), id, alias),
{
    let ghost ev = employee_views(employees@);
    let mut out: Vec<(i64, Vec<char>)> = Vec::new();
    let mut k: usize = 0;
    while k < table.len()
        invariant
            k <= table.len(),
            ev == employee_views(employees@),
            strictly_sorted(chars_pair_views(out@)),
            forall|id: i64, alias: Seq<char>| chars_pair_views(out@).contains((id, alias))
                <==> exists|q: int| 0 <= q < k && alias == (#[trigger] table@[q]).0@
                    && seeds_for(ev, table@[q].1@, id),
        decreases table.len() - k,
    {
        let (alias, formal) = table[k];
        let canonical = normalize_name_exec(&chars_of(formal));
        let found = sole_match_index(employees, &canonical);
        let ghost before = chars_pair_views(out@);
        let mut added: Option<i64> = None;
        match found {
            Some(i) => {
                match employees[i].id {
                    Some(id) => {
                        insert_sorted(&mut out, (id, chars_of(alias)));
                        added = Some(id);
                    },
                    None => {},
                }
            },
            None => {},
        }
        proof {
            assert forall|id: i64, a: Seq<char>| chars_pair_views(out@).contains((id, a))
                <==> exists|q: int| 0 <= q < k + 1 && a == (#[trigger] table@[q]).0@
                    && seeds_for(ev, table@[q].1@, id) by {
                if seeds_for(ev, formal@, id) {
                    let i0 = choose|i: int| sole_match(ev, normalize_name(formal@), i) && ev[i].id == Some(id);
                    match found {
                        Some(i) => {
                            assert(ev[i as int] == employees@[i as int]@);
                            if i0 != i as int {
                                assert(!first_name_matches(ev[i0], normalize_name(formal@)));
                            }
                        },
                        None => {
                            assert(!sole_match(ev, normalize_name(formal@), i0));
                        },
                    }
                }
                match found {
                    Some(i) => {
                        assert(ev[i as int] == employees@[i as int]@);
                        if added == Some(id) {
                            assert(seeds_for(ev, formal@, id));
                        }
                    },
                    None => {},
                }
                if exists|q: int| 0 <= q < k + 1 && a == (#[trigger] table@[q]).0@ && seeds_for(ev, table@[q].1@, id) {
                    let q = choose|q: int| 0 <= q < k + 1 && a == (#[trigger] table@[q]).0@ && seeds_for(ev, table@[q].1@, id);
                    if q < k {
                        assert(exists|q2: int| 0 <= q2 < k && a == (#[trigger] table@[q2]).0@ && seeds_for(ev, table@[q2].1@, id));
                    }
                }
                if before.contains((id, a)) {
                    let q = choose|q: int| 0 <= q < k && a == (#[trigger] table@[q]).0@ && seeds_for(ev, table@[q].1@, id);
                    assert(0 <= q < k + 1);
                }
            }
        }
        k = k + 1;
    }
    let mut result: Vec<(i64, String)> = Vec::new();
    let mut m: usize = 0;
    while m < out.len()
        invariant
            m <= out.len(),
            pair_views(result@) =~= chars_pair_views(out@).take(m as int),
        decreases out.len() - m,
    {
        let id = out[m].0;
        let text = string_of(out[m].1.as_slice());
        let ghost before = pair_views(result@);
        result.push((id, text));
        proof {
            assert(pair_views(result@) =~= before.push((id, out@[m as int].1@)));
            assert(chars_pair_views(out@).take(m + 1) =~= chars_pair_views(out@).take(m as int).push(
                chars_pair_views(out@)[m as int]));
        }
        m = m + 1;
    }
    proof {
        assert(chars_pair_views(out@).take(out@.len() as int) =~= chars_pair_views(out@));
    }
    result
}

} // verus!
