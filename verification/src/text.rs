//! Character and string primitives shared by the name, query and transcript
//! normalisers.  Unicode character classes come from std; everything built
//! on top of them is verified here.
use vstd::prelude::*;

verus! {

/// `char::is_whitespace`: the 25 code points with the Unicode
/// `White_Space` property.
pub open spec fn is_ws(c: char) -> bool {
    let u = c as u32;
    ||| 0x09 <= u <= 0x0D
    ||| u == 0x20
    ||| u == 0x85
    ||| u == 0xA0
    ||| u == 0x1680
    ||| 0x2000 <= u <= 0x200A
    ||| u == 0x2028
    ||| u == 0x2029
    ||| u == 0x202F
    ||| u == 0x205F
    ||| u == 0x3000
}

/// `char::is_control`: the code points of Unicode general category `Cc`.
pub open spec fn is_ctrl(c: char) -> bool {
    let u = c as u32;
    u <= 0x1F || 0x7F <= u <= 0x9F
}

/// `char::is_alphabetic` (Unicode `Alphabetic`).
pub uninterp spec fn is_alpha(c: char) -> bool;

/// `char::is_numeric` (Unicode general categories `Nd`, `Nl`, `No`).
pub uninterp spec fn is_num(c: char) -> bool;

/// `str::to_lowercase` (Unicode default lowercase mapping).
pub uninterp spec fn lowercase(s: Seq<char>) -> Seq<char>;

/// Whether `c` has the Unicode `White_Space` property, as
/// `char::is_whitespace` answers.
pub(crate) fn char_is_whitespace(c: char) -> (r: bool)
    ensures
        r == is_ws(c),
{
    let u = c as u32;
    (0x09 <= u && u <= 0x0D) || u == 0x20 || u == 0x85 || u == 0xA0 || u == 0x1680
        || (0x2000 <= u && u <= 0x200A) || u == 0x2028 || u == 0x2029 || u == 0x202F || u == 0x205F
        || u == 0x3000
}

/// Whether `c` is in Unicode general category `Cc`, as `char::is_control`
/// answers.
pub(crate) fn char_is_control(c: char) -> (r: bool)
    ensures
        r == is_ctrl(c),
{
    let u = c as u32;
    u <= 0x1F || (0x7F <= u && u <= 0x9F)
}

/// Wraps `char::is_alphabetic`; the result is named `is_alpha`.
#[verifier::external_body]
pub(crate) fn char_is_alphabetic(c: char) -> (r: bool)
    ensures
        r == is_alpha(c),
{
    c.is_alphabetic()
}

/// Wraps `char::is_numeric`; the result is named `is_num`.
#[verifier::external_body]
pub(crate) fn char_is_numeric(c: char) -> (r: bool)
    ensures
        r == is_num(c),
{
    c.is_numeric()
}

/// Wraps `str::to_lowercase`; the result is named `lowercase` of the input.
#[verifier::external_body]
pub(crate) fn to_lowercase(s: &str) -> (r: String)
    ensures
        r@ == lowercase(s@),
{
    s.to_lowercase()
}

/// Wraps `str::chars().collect()`: the characters of `s` in order.
#[verifier::external_body]
pub(crate) fn chars_of(s: &str) -> (r: Vec<char>)
    ensures
        r@ == s@,
{
    s.chars().collect()
}

/// Wraps `String::from_iter` over chars: the string made of `v` in order.
#[verifier::external_body]
pub(crate) fn string_of(v: &[char]) -> (r: String)
    ensures
        r@ == v@,
{
    v.iter().collect()
}

/// `char::is_alphanumeric`, which std documents as
/// `is_alphabetic() || is_numeric()`.
pub open spec fn is_alnum(c: char) -> bool {
    is_alpha(c) || is_num(c)
}

pub fn char_is_alphanumeric(c: char) -> (r: bool)
    ensures
        r == is_alnum(c),
{
    char_is_alphabetic(c) || char_is_numeric(c)
}

pub open spec fn is_ascii_alnum(c: char) -> bool {
    ('a' <= c && c <= 'z') || ('A' <= c && c <= 'Z') || ('0' <= c && c <= '9')
}

pub open spec fn ascii_lower(c: char) -> char {
    if 'A' <= c && c <= 'Z' {
        ((c as u32) + 32) as char
    } else {
        c
    }
}

/// Number of characters of `s` that satisfy `is_ws` at the start.
pub open spec fn leading_ws(s: Seq<char>) -> nat
    decreases s.len(),
{
    if s.len() > 0 && is_ws(s[0]) {
        1 + leading_ws(s.drop_first())
    } else {
        0
    }
}

/// `str::trim`: `s` without leading and trailing whitespace.
pub open spec fn trim(s: Seq<char>) -> Seq<char> {
    trim_end(trim_start(s))
}

pub open spec fn trim_start(s: Seq<char>) -> Seq<char>
    decreases s.len(),
{
    if s.len() > 0 && is_ws(s[0]) {
        trim_start(s.drop_first())
    } else {
        s
    }
}

pub open spec fn trim_end(s: Seq<char>) -> Seq<char>
    decreases s.len(),
{
    if s.len() > 0 && is_ws(s.last()) {
        trim_end(s.drop_last())
    } else {
        s
    }
}


/// Character-wise equality of two string slices.
pub fn str_equal(a: &str, b: &str) -> (r: bool)
    ensures
        r == (a@ == b@),
{
    let x = chars_of(a);
    let y = chars_of(b);
    seq_equal(&x, &y)
}

/// Element-wise equality of two character vectors.
pub fn seq_equal(x: &Vec<char>, y: &Vec<char>) -> (r: bool)
    ensures
        r == (x@ == y@),
{
    if x.len() != y.len() {
        return false;
    }
    let mut i: usize = 0;
    while i < x.len()
        invariant
            x.len() == y.len(),
            i <= x.len(),
            forall|j: int| 0 <= j < i ==> x@[j] == y@[j],
        decreases x.len() - i,
    {
        if x[i] != y[i] {
            return false;
        }
        i = i + 1;
    }
    assert(x@ =~= y@);
    true
}

/// The views of a sequence of strings.
pub open spec fn views(v: Seq<String>) -> Seq<Seq<char>> {
    v.map_values(|s: String| s@)
}

/// The view of an optional string.
pub open spec fn opt_view(o: Option<String>) -> Option<Seq<char>> {
    match o {
        Some(s) => Some(s@),
        None => None,
    }
}

pub fn clone_strings(v: &Vec<String>) -> (r: Vec<String>)
    ensures
        views(r@) == views(v@),
{
    let mut out: Vec<String> = Vec::new();
    let mut i: usize = 0;
    while i < v.len()
        invariant
            i <= v.len(),
            out@.len() == i,
            forall|j: int| 0 <= j < i ==> out@[j]@ == v@[j]@,
        decreases v.len() - i,
    {
        out.push(v[i].clone());
        i = i + 1;
    }
    assert(views(out@) =~= views(v@));
    out
}

pub fn clone_opt_string(o: &Option<String>) -> (r: Option<String>)
    ensures
        opt_view(r) == opt_view(*o),
{
    match o {
        Some(s) => Some(s.clone()),
        None => None,
    }
}

/// Decimal digits of `n` (no sign, no leading zeros; "0" for zero).
pub open spec fn decimal(n: nat) -> Seq<char>
    decreases n,
{
    if n < 10 {
        seq![digit_char(n)]
    } else {
        decimal(n / 10).push(digit_char(n % 10))
    }
}

pub open spec fn digit_char(d: nat) -> char {
    if d == 0 { '0' } else if d == 1 { '1' } else if d == 2 { '2' } else if d == 3 { '3' }
    else if d == 4 { '4' } else if d == 5 { '5' } else if d == 6 { '6' } else if d == 7 { '7' }
    else if d == 8 { '8' } else { '9' }
}

fn digit(d: u64) -> (c: char)
    requires
        d < 10,
    ensures
        c == digit_char(d as nat),
{
    if d == 0 { '0' } else if d == 1 { '1' } else if d == 2 { '2' } else if d == 3 { '3' }
    else if d == 4 { '4' } else if d == 5 { '5' } else if d == 6 { '6' } else if d == 7 { '7' }
    else if d == 8 { '8' } else { '9' }
}

/// Appends the decimal digits of `n` to `out`.
pub fn push_decimal(out: &mut Vec<char>, n: u64)
    ensures
        final(out)@ == old(out)@ + decimal(n as nat),
    decreases n,
{
    if n < 10 {
        out.push(digit(n));
    } else {
        push_decimal(out, n / 10);
        out.push(digit(n % 10));
        proof {
            assert(decimal(n as nat) == decimal((n / 10) as nat).push(digit_char((n % 10) as nat)));
        }
    }
}

/// Appends all characters of `s` to `out`.
pub fn push_str(out: &mut Vec<char>, s: &str)
    ensures
        final(out)@ == old(out)@ + s@,
{
    let cs = chars_of(s);
    push_chars(out, &cs);
}

/// Appends all characters of `cs` to `out`.
pub fn push_chars(out: &mut Vec<char>, cs: &Vec<char>)
    ensures
        final(out)@ == old(out)@ + cs@,
{
    let ghost start = out@;
    let mut i: usize = 0;
    while i < cs.len()
        invariant
            i <= cs.len(),
            out@ == start + cs@.take(i as int),
        decreases cs.len() - i,
    {
        out.push(cs[i]);
        i = i + 1;
        assert(out@ =~= start + cs@.take(i as int));
    }
    assert(cs@.take(cs.len() as int) =~= cs@);
}

/// `str::trim` as characters.
pub fn trim_str(s: &str) -> (r: Vec<char>)
    ensures
        r@ == trim(s@),
{
    let cs = chars_of(s);
    trim_chars(&cs)
}

proof fn lemma_trim_start_head(s: Seq<char>)
    ensures
        trim_start(s).len() == 0 || !is_ws(trim_start(s)[0]),
    decreases s.len(),
{
    if s.len() > 0 && is_ws(s[0]) {
        lemma_trim_start_head(s.drop_first());
    }
}

proof fn lemma_trim_end_shape(t: Seq<char>)
    ensures
        trim_end(t).len() <= t.len(),
        trim_end(t) == t.take(trim_end(t).len() as int),
        trim_end(t).len() == 0 || !is_ws(trim_end(t).last()),
    decreases t.len(),
{
    if t.len() > 0 && is_ws(t.last()) {
        lemma_trim_end_shape(t.drop_last());
        assert(t.drop_last().take(trim_end(t).len() as int) =~= t.take(trim_end(t).len() as int));
    } else {
        assert(t.take(t.len() as int) =~= t);
    }
}

/// Trimming twice is trimming once.
pub proof fn lemma_trim_idempotent(s: Seq<char>)
    ensures
        trim(trim(s)) == trim(s),
{
    let t = trim_start(s);
    let u = trim_end(t);
    lemma_trim_start_head(s);
    lemma_trim_end_shape(t);
    if u.len() > 0 {
        assert(u[0] == t[0]);
        assert(trim_start(u) == u);
        assert(trim_end(u) == u);
    } else {
        assert(trim_start(u) == u);
    }
}

proof fn lemma_trim_start_skip(s: Seq<char>, i: int)
    requires
        0 <= i <= s.len(),
        forall|j: int| 0 <= j < i ==> is_ws(s[j]),
    ensures
        trim_start(s) == trim_start(s.skip(i)),
    decreases i,
{
    if i == 0 {
        assert(s.skip(0) =~= s);
    } else {
        assert(s.drop_first() =~= s.skip(1));
        lemma_trim_start_skip(s.drop_first(), i - 1);
        assert(s.drop_first().skip(i - 1) =~= s.skip(i));
    }
}

proof fn lemma_trim_end_take(s: Seq<char>, k: int)
    requires
        0 <= k <= s.len(),
        forall|j: int| k <= j < s.len() ==> is_ws(s[j]),
    ensures
        trim_end(s) == trim_end(s.take(k)),
    decreases s.len() - k,
{
    if k == s.len() {
        assert(s.take(k) =~= s);
    } else {
        assert(s.drop_last() =~= s.take(s.len() - 1));
        lemma_trim_end_take(s.drop_last(), k);
        assert(s.drop_last().take(k) =~= s.take(k));
    }
}

/// `s` without leading and trailing whitespace.
pub fn trim_chars(s: &Vec<char>) -> (r: Vec<char>)
    ensures
        r@ == trim(s@),
{
    let mut start: usize = 0;
    while start < s.len() && char_is_whitespace(s[start])
        invariant
            start <= s.len(),
            forall|j: int| 0 <= j < start ==> is_ws(s@[j]),
        decreases s.len() - start,
    {
        start = start + 1;
    }
    proof {
        lemma_trim_start_skip(s@, start as int);
    }
    let ghost rest = s@.skip(start as int);
    assert(trim_start(rest) == rest);
    let mut end: usize = s.len();
    while end > start && char_is_whitespace(s[end - 1])
        invariant
            start <= end <= s.len(),
            forall|j: int| end <= j < s.len() ==> is_ws(s@[j]),
        decreases end,
    {
        end = end - 1;
    }
    proof {
        lemma_trim_end_take(rest, end - start);
        assert(rest.take(end - start) =~= s@.subrange(start as int, end as int));
        let t = s@.subrange(start as int, end as int);
        assert(t.len() == 0 || !is_ws(t.last()));
    }
    let mut out: Vec<char> = Vec::new();
    let mut i = start;
    while i < end
        invariant
            start <= i <= end <= s.len(),
            out@ =~= s@.subrange(start as int, i as int),
        decreases end - i,
    {
        out.push(s[i]);
        i = i + 1;
    }
    out
}

/// Drops one trailing carriage return.
pub open spec fn strip_cr(s: Seq<char>) -> Seq<char> {
    if s.len() > 0 && s.last() == '\r' { s.drop_last() } else { s }
}

/// Scanner state of `str::lines`: completed lines and the line in progress.
pub open spec fn line_scan(s: Seq<char>) -> (Seq<Seq<char>>, Seq<char>)
    decreases s.len(),
{
    if s.len() == 0 {
        (seq![], seq![])
    } else {
        let (done, cur) = line_scan(s.drop_last());
        if s.last() == '\n' {
            (done.push(strip_cr(cur)), seq![])
        } else {
            (done, cur.push(s.last()))
        }
    }
}

/// `str::lines`: lines split at `\n` (a `\r` before the `\n` is dropped);
/// the final line ending is optional.
pub open spec fn lines(s: Seq<char>) -> Seq<Seq<char>> {
    let (done, cur) = line_scan(s);
    if cur.len() > 0 { done.push(cur) } else { done }
}

fn strip_cr_exec(v: Vec<char>) -> (r: Vec<char>)
    ensures
        r@ == strip_cr(v@),
{
    let mut v = v;
    if v.len() > 0 && v[v.len() - 1] == '\r' {
        v.pop();
    }
    v
}

/// The lines of `s`, as `str::lines` yields them.
pub fn lines_of(s: &str) -> (r: Vec<Vec<char>>)
    ensures
        r@.map_values(|l: Vec<char>| l@) == lines(s@),
{
    let cs = chars_of(s);
    let mut done: Vec<Vec<char>> = Vec::new();
    let mut cur: Vec<char> = Vec::new();
    let mut i: usize = 0;
    while i < cs.len()
        invariant
            i <= cs.len(),
            cs@ == s@,
            (done@.map_values(|l: Vec<char>| l@), cur@) == line_scan(cs@.take(i as int)),
        decreases cs.len() - i,
    {
        let c = cs[i];
        proof {
            assert(cs@.take(i + 1).drop_last() =~= cs@.take(i as int));
        }
        if c == '\n' {
            let line = strip_cr_exec(cur);
            done.push(line);
            cur = Vec::new();
            assert(done@.map_values(|l: Vec<char>| l@) =~= line_scan(cs@.take(i as int)).0.push(strip_cr(line_scan(cs@.take(i as int)).1)));
        } else {
            cur.push(c);
            assert(done@.map_values(|l: Vec<char>| l@) =~= line_scan(cs@.take(i as int)).0);
        }
        i = i + 1;
    }
    assert(cs@.take(cs.len() as int) =~= cs@);
    if cur.len() > 0 {
        done.push(cur);
        assert(done@.map_values(|l: Vec<char>| l@) =~= line_scan(s@).0.push(line_scan(s@).1));
    }
    done
}

/// `items` joined with `sep` between consecutive items.
pub open spec fn join_with(items: Seq<Seq<char>>, sep: char) -> Seq<char>
    decreases items.len(),
{
    if items.len() == 0 {
        seq![]
    } else if items.len() == 1 {
        items[0]
    } else {
        join_with(items.drop_last(), sep).push(sep) + items.last()
    }
}

/// `items` joined with `sep`.
pub fn join_chars(items: &Vec<Vec<char>>, sep: char) -> (r: Vec<char>)
    ensures
        r@ == join_with(items@.map_values(|l: Vec<char>| l@), sep),
{
    let ghost all = items@.map_values(|l: Vec<char>| l@);
    let mut out: Vec<char> = Vec::new();
    let mut i: usize = 0;
    while i < items.len()
        invariant
            i <= items.len(),
            all == items@.map_values(|l: Vec<char>| l@),
            out@ == join_with(all.take(i as int), sep),
        decreases items.len() - i,
    {
        proof {
            assert(all.take(i + 1).drop_last() =~= all.take(i as int));
            assert(all.take(i + 1).last() == items@[i as int]@);
        }
        if i > 0 {
            out.push(sep);
        } else {
            assert(all.take(1) =~= seq![items@[0]@]);
        }
        push_chars(&mut out, &items[i]);
        i = i + 1;
    }
    assert(all.take(items.len() as int) =~= all);
    out
}

/// `items` (strings) joined with `sep`.
pub fn join_strings(items: &Vec<String>, sep: char) -> (r: Vec<char>)
    ensures
        r@ == join_with(views(items@), sep),
{
    let mut parts: Vec<Vec<char>> = Vec::new();
    let mut i: usize = 0;
    while i < items.len()
        invariant
            i <= items.len(),
            parts@.len() == i,
            forall|j: int| 0 <= j < i ==> parts@[j]@ == items@[j]@,
        decreases items.len() - i,
    {
        parts.push(chars_of(items[i].as_str()));
        i = i + 1;
    }
    assert(parts@.map_values(|l: Vec<char>| l@) =~= views(items@));
    join_chars(&parts, sep)
}

/// Decimal text of a signed integer ("-" before negative numbers).
pub open spec fn signed_decimal(n: int) -> Seq<char> {
    if n < 0 { seq!['-'] + decimal((-n) as nat) } else { decimal(n as nat) }
}

/// Appends the decimal text of `n` to `out`.
pub fn push_signed(out: &mut Vec<char>, n: i64)
    ensures
        final(out)@ == old(out)@ + signed_decimal(n as int),
{
    if n < 0 {
        out.push('-');
        let magnitude: u64 = if n == i64::MIN { 9_223_372_036_854_775_808u64 } else { (-n) as u64 };
        push_decimal(out, magnitude);
        assert(old(out)@.push('-') + decimal((-n) as nat) =~= old(out)@ + signed_decimal(n as int));
    } else {
        push_decimal(out, n as u64);
    }
}

/// Scanner state of `str::split_whitespace`: completed words and the word in
/// progress.
pub open spec fn word_scan(s: Seq<char>) -> (Seq<Seq<char>>, Seq<char>)
    decreases s.len(),
{
    if s.len() == 0 {
        (seq![], seq![])
    } else {
        let (done, cur) = word_scan(s.drop_last());
        if is_ws(s.last()) {
            if cur.len() > 0 { (done.push(cur), seq![]) } else { (done, seq![]) }
        } else {
            (done, cur.push(s.last()))
        }
    }
}

/// `str::split_whitespace`: the maximal runs of non-whitespace characters.
pub open spec fn words(s: Seq<char>) -> Seq<Seq<char>> {
    let (done, cur) = word_scan(s);
    if cur.len() > 0 { done.push(cur) } else { done }
}

/// `s.split_whitespace().collect::<Vec<_>>().join(" ")`.
pub open spec fn collapse_ws(s: Seq<char>) -> Seq<char> {
    join_with(words(s), ' ')
}

pub open spec fn chars_views(v: Seq<Vec<char>>) -> Seq<Seq<char>> {
    v.map_values(|l: Vec<char>| l@)
}

/// The words of `s`.
pub fn split_whitespace(s: &Vec<char>) -> (r: Vec<Vec<char>>)
    ensures
        chars_views(r@) == words(s@),
{
    let mut done: Vec<Vec<char>> = Vec::new();
    let mut cur: Vec<char> = Vec::new();
    let mut i: usize = 0;
    while i < s.len()
        invariant
            i <= s.len(),
            (chars_views(done@), cur@) == word_scan(s@.take(i as int)),
        decreases s.len() - i,
    {
        let c = s[i];
        proof {
            assert(s@.take(i + 1).drop_last() =~= s@.take(i as int));
        }
        let ghost prev = chars_views(done@);
        if char_is_whitespace(c) {
            if cur.len() > 0 {
                let word = cur;
                done.push(word);
                cur = Vec::new();
                assert(chars_views(done@) =~= prev.push(word_scan(s@.take(i as int)).1));
            } else {
                cur = Vec::new();
                assert(chars_views(done@) =~= prev);
            }
        } else {
            cur.push(c);
            assert(chars_views(done@) =~= prev);
        }
        i = i + 1;
    }
    assert(s@.take(s.len() as int) =~= s@);
    if cur.len() > 0 {
        let ghost prev = chars_views(done@);
        done.push(cur);
        assert(chars_views(done@) =~= prev.push(word_scan(s@).1));
    }
    done
}

/// Whitespace runs collapsed to single spaces, ends trimmed.
pub fn collapse_whitespace(s: &Vec<char>) -> (r: Vec<char>)
    ensures
        r@ == collapse_ws(s@),
{
    let ws = split_whitespace(s);
    join_chars(&ws, ' ')
}

/// The characters of `s` that satisfy `keep`.
pub open spec fn drop_controls(s: Seq<char>) -> Seq<char> {
    s.filter(|c: char| !is_ctrl(c))
}

/// `s` without control characters.
pub fn remove_controls(s: &Vec<char>) -> (r: Vec<char>)
    ensures
        r@ == drop_controls(s@),
{
    let mut out: Vec<char> = Vec::new();
    let mut i: usize = 0;
    while i < s.len()
        invariant
            i <= s.len(),
            out@ == drop_controls(s@.take(i as int)),
        decreases s.len() - i,
    {
        proof {
            assert(s@.take(i + 1).drop_last() =~= s@.take(i as int));
            reveal(Seq::filter);
        }
        if !char_is_control(s[i]) {
            out.push(s[i]);
        }
        i = i + 1;
    }
    assert(s@.take(s.len() as int) =~= s@);
    out
}

/// Every `from` replaced by `to`.
pub open spec fn replace_char(s: Seq<char>, from: char, to: char) -> Seq<char> {
    s.map_values(|c: char| if c == from { to } else { c })
}

pub fn replace_char_exec(s: &Vec<char>, from: char, to: char) -> (r: Vec<char>)
    ensures
        r@ == replace_char(s@, from, to),
{
    let mut out: Vec<char> = Vec::new();
    let mut i: usize = 0;
    while i < s.len()
        invariant
            i <= s.len(),
            out@ =~= replace_char(s@.take(i as int), from, to),
        decreases s.len() - i,
    {
        let c = s[i];
        out.push(if c == from { to } else { c });
        i = i + 1;
        assert(out@ =~= replace_char(s@.take(i as int), from, to));
    }
    assert(s@.take(s.len() as int) =~= s@);
    out
}

/// The lowercase form of `s`.
pub fn lowercase_chars(s: &Vec<char>) -> (r: Vec<char>)
    ensures
        r@ == lowercase(s@),
{
    let text = string_of(s.as_slice());
    let lowered = to_lowercase(text.as_str());
    chars_of(lowered.as_str())
}

/// `s` without leading copies of `c` (`str::trim_start_matches(c)`).
pub open spec fn strip_leading(s: Seq<char>, c: char) -> Seq<char>
    decreases s.len(),
{
    if s.len() > 0 && s[0] == c { strip_leading(s.drop_first(), c) } else { s }
}

pub fn strip_leading_exec(s: &Vec<char>, c: char) -> (r: Vec<char>)
    ensures
        r@ == strip_leading(s@, c),
{
    let mut start: usize = 0;
    assert(s@.skip(0) =~= s@);
    while start < s.len() && s[start] == c
        invariant
            start <= s.len(),
            strip_leading(s@, c) == strip_leading(s@.skip(start as int), c),
        decreases s.len() - start,
    {
        proof {
            assert(s@.skip(start as int).drop_first() =~= s@.skip(start + 1));
        }
        start = start + 1;
    }
    let mut out: Vec<char> = Vec::new();
    let mut i = start;
    while i < s.len()
        invariant
            start <= i <= s.len(),
            out@ =~= s@.subrange(start as int, i as int),
        decreases s.len() - i,
    {
        out.push(s[i]);
        i = i + 1;
    }
    assert(out@ =~= s@.skip(start as int));
    out
}

/// `prefix` is a prefix of `s`.
pub open spec fn has_prefix(s: Seq<char>, prefix: Seq<char>) -> bool {
    prefix.len() <= s.len() && s.take(prefix.len() as int) == prefix
}

pub fn starts_with(s: &Vec<char>, prefix: &Vec<char>) -> (r: bool)
    ensures
        r == has_prefix(s@, prefix@),
{
    if prefix.len() > s.len() {
        return false;
    }
    let mut i: usize = 0;
    while i < prefix.len()
        invariant
            prefix.len() <= s.len(),
            i <= prefix.len(),
            forall|j: int| 0 <= j < i ==> s@[j] == prefix@[j],
        decreases prefix.len() - i,
    {
        if s[i] != prefix[i] {
            assert(s@.take(prefix.len() as int)[i as int] != prefix@[i as int]);
            return false;
        }
        i = i + 1;
    }
    assert(s@.take(prefix.len() as int) =~= prefix@);
    true
}

/// `needle` occurs in `s` at position `i`.
pub open spec fn occurs_at(s: Seq<char>, needle: Seq<char>, i: int) -> bool {
    0 <= i && i + needle.len() <= s.len() && s.subrange(i, i + needle.len()) == needle
}

/// `needle` occurs somewhere in `s` (`str::contains`).
pub open spec fn contains_seq(s: Seq<char>, needle: Seq<char>) -> bool {
    exists|i: int| occurs_at(s, needle, i)
}

/// First position of `needle` in `s`.
pub fn find_seq(s: &Vec<char>, needle: &Vec<char>) -> (r: Option<usize>)
    ensures
        r matches Some(i) ==> occurs_at(s@, needle@, i as int)
            && forall|j: int| 0 <= j < i ==> !occurs_at(s@, needle@, j),
        r is None ==> !contains_seq(s@, needle@),
{
    if needle.len() > s.len() {
        assert forall|j: int| !occurs_at(s@, needle@, j) by {}
        return None;
    }
    let mut i: usize = 0;
    let last = s.len() - needle.len();
    while i <= last
        invariant
            needle.len() <= s.len(),
            last == s.len() - needle.len(),
            i <= last + 1,
            forall|j: int| 0 <= j < i ==> !occurs_at(s@, needle@, j),
        decreases s.len() - i,
    {
        let mut k: usize = 0;
        let mut matched = true;
        while k < needle.len()
            invariant
                i + needle.len() <= s.len(),
                k <= needle.len(),
                matched == forall|m: int| 0 <= m < k ==> s@[i + m] == needle@[m],
            decreases needle.len() - k,
        {
            if s[i + k] != needle[k] {
                matched = false;
            }
            k = k + 1;
        }
        if matched {
            assert(s@.subrange(i as int, i + needle.len()) =~= needle@);
            return Some(i);
        }
        assert(!occurs_at(s@, needle@, i as int)) by {
            let m = choose|m: int| 0 <= m < needle.len() && s@[i + m] != needle@[m];
            assert(s@.subrange(i as int, i + needle.len())[m] != needle@[m]);
        }
        i = i + 1;
    }
    assert forall|j: int| !occurs_at(s@, needle@, j) by {
        if 0 <= j && j + needle.len() <= s.len() {
            assert(j < i);
        }
    }
    None
}

/// `10` to the power `n`.
pub open spec fn pow10(n: nat) -> nat
    decreases n,
{
    if n == 0 { 1 } else { 10 * pow10((n - 1) as nat) }
}

pub proof fn lemma_pow10_step(n: nat)
    ensures
        pow10(n + 1) == 10 * pow10(n),
{
}

pub proof fn lemma_pow10_mono(a: nat, b: nat)
    requires
        a <= b,
    ensures
        1 <= pow10(a) <= pow10(b),
    decreases b,
{
    if a < b {
        lemma_pow10_mono(a, (b - 1) as nat);
    } else if b > 0 {
        lemma_pow10_mono((a - 1) as nat, (b - 1) as nat);
    }
}

pub proof fn lemma_pow10_18()
    ensures
        pow10(18) == 1_000_000_000_000_000_000,
{
    reveal_with_fuel(pow10, 19);
}

/// `2` to the power `n`.
pub open spec fn pow2(n: nat) -> int
    decreases n,
{
    if n == 0 { 1 } else { 2 * pow2((n - 1) as nat) }
}

pub proof fn lemma_pow2_mono(a: nat, b: nat)
    requires
        a <= b,
    ensures
        1 <= pow2(a) <= pow2(b),
    decreases b,
{
    if a < b {
        lemma_pow2_mono(a, (b - 1) as nat);
    } else if b > 0 {
        lemma_pow2_mono((a - 1) as nat, (b - 1) as nat);
    }
}

pub proof fn lemma_pow2_30()
    ensures
        pow2(30) == 1_073_741_824,
{
    reveal_with_fuel(pow2, 31);
}

} // verus!
