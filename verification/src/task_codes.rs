//! Public task codes (`T-0042`): the short reference users type and see in
//! place of a task's UUID.
use vstd::prelude::*;

use crate::domain::task::entity::TaskUid;
use crate::text::{chars_of, decimal, digit_char, push_decimal, string_of, trim, trim_end, trim_start, trim_str};

verus! {

/// Shown where a task has no database identifier yet.
pub const TASK_CODE_PLACEHOLDER: &'static str = "T-????";

/// `n` zeros.
pub open spec fn zeros(n: int) -> Seq<char>
    decreases n,
{
    if n <= 0 { seq![] } else { zeros(n - 1).push('0') }
}

/// `T-` and the identifier's digits, padded with zeros to four.
pub open spec fn public_code(id: nat) -> Seq<char> {
    "T-"@ + zeros(4 - decimal(id).len()) + decimal(id)
}

/// The public code of a stored task, or the placeholder when it has no
/// positive identifier.
pub open spec fn public_code_or_placeholder(id: Option<i64>) -> Seq<char> {
    match id {
        Some(n) => if n > 0 { public_code(n as nat) } else { TASK_CODE_PLACEHOLDER@ },
        None => TASK_CODE_PLACEHOLDER@,
    }
}

proof fn lemma_zeros_len(n: int)
    ensures
        zeros(n).len() == (if n > 0 { n } else { 0 }),
    decreases n,
{
    if n > 0 {
        lemma_zeros_len(n - 1);
    }
}

pub fn format_public_task_code_or_placeholder(id: Option<i64>) -> (r: String)
    ensures
        r@ == public_code_or_placeholder(id),
{
    match id {
        Some(n) => {
            if n <= 0 {
                return String::from_str(TASK_CODE_PLACEHOLDER);
            }
            let mut digits: Vec<char> = Vec::new();
            push_decimal(&mut digits, n as u64);
            assert(digits@ =~= decimal(n as nat));
            let mut out = chars_of("T-");
            let mut pad: usize = 0;
            let missing: usize = if digits.len() < 4 { 4 - digits.len() } else { 0 };
            let ghost start = out@;
            while pad < missing
                invariant
                    pad <= missing <= 4,
                    out@ == start + zeros(pad as int),
                decreases missing - pad,
            {
                out.push('0');
                pad = pad + 1;
            }
            assert(zeros(missing as int) == zeros(4 - decimal(n as nat).len())) by {
                if digits.len() >= 4 {
                    assert(zeros(4 - decimal(n as nat).len()) == Seq::<char>::empty());
                }
            }
            crate::text::push_chars(&mut out, &digits);
            string_of(out.as_slice())
        },
        None => String::from_str(TASK_CODE_PLACEHOLDER),
    }
}

/// What a typed task reference points at.
#[derive(Debug, Clone, Copy, PartialEq, Eq, Structural)]
pub enum TaskReference {
    PublicId(i64),
    Uid(TaskUid),
}

/// `uuid::Uuid::parse_str` of a text, as the 128 bits of the UUID.
pub uninterp spec fn uuid_parsed(text: Seq<char>) -> Option<u128>;

/// Wraps `uuid::Uuid::parse_str(..).as_u128()`; the result is named
/// `uuid_parsed`.
#[verifier::external_body]
fn parse_uuid(text: &str) -> (r: Option<u128>)
    ensures
        r == uuid_parsed(text@),
{
    uuid::Uuid::parse_str(text).ok().map(|value| value.as_u128())
}

pub open spec fn is_digit(c: char) -> bool {
    '0' <= c && c <= '9'
}

/// The value of a string of decimal digits.
pub open spec fn digits_value(s: Seq<char>) -> nat
    decreases s.len(),
{
    if s.len() == 0 { 0 } else { digits_value(s.drop_last()) * 10 + ((s.last() as u32) - 48) as nat }
}

/// The identifier of a `T-<digits>` code (either case of `T`), when the
/// digits denote a positive `i64`.
pub open spec fn code_id(t: Seq<char>) -> Option<i64> {
    let digits = t.skip(2);
    if t.len() > 2 && (t[0] == 'T' || t[0] == 't') && t[1] == '-' && digits.len() <= 18
        && (forall|i: int| 0 <= i < digits.len() ==> is_digit(#[trigger] digits[i]))
        && digits_value(digits) > 0 {
        Some(digits_value(digits) as i64)
    } else {
        None
    }
}

/// A trimmed reference: a public code, else a UUID.
pub open spec fn task_reference(text: Seq<char>) -> Option<TaskReference> {
    let t = trim(text);
    match code_id(t) {
        Some(id) => Some(TaskReference::PublicId(id)),
        None => match uuid_parsed(t) {
            Some(u) => Some(TaskReference::Uid(u)),
            None => None,
        },
    }
}

proof fn lemma_digits_bound(s: Seq<char>)
    requires
        forall|i: int| 0 <= i < s.len() ==> is_digit(#[trigger] s[i]),
    ensures
        digits_value(s) < crate::text::pow10(s.len()),
    decreases s.len(),
{
    if s.len() > 0 {
        assert forall|i: int| 0 <= i < s.drop_last().len() implies is_digit(#[trigger] s.drop_last()[i]) by {
            assert(s.drop_last()[i] == s[i]);
        }
        lemma_digits_bound(s.drop_last());
        assert(is_digit(s[s.len() - 1]));
    }
}

fn parse_code(t: &Vec<char>) -> (r: Option<i64>)
    ensures
        r == code_id(t@),
{
    if t.len() <= 2 || !(t[0] == 'T' || t[0] == 't') || t[1] != '-' || t.len() - 2 > 18 {
        return None;
    }
    let ghost digits = t@.skip(2);
    let mut value: u64 = 0;
    let mut i: usize = 2;
    while i < t.len()
        invariant
            2 <= i <= t.len(),
            t.len() - 2 <= 18,
            digits == t@.skip(2),
            forall|j: int| 0 <= j < i - 2 ==> is_digit(#[trigger] digits[j]),
            value == digits_value(digits.take(i - 2)),
            value < crate::text::pow10((i - 2) as nat),
        decreases t.len() - i,
    {
        let c = t[i];
        if !('0' <= c && c <= '9') {
            assert(!is_digit(digits[i - 2]));
            return None;
        }
        proof {
            assert(digits.take(i - 1).drop_last() =~= digits.take(i - 2));
            assert(digits.take(i - 1).last() == c);
            crate::text::lemma_pow10_step((i - 2) as nat);
            crate::text::lemma_pow10_18();
            crate::text::lemma_pow10_mono((i - 1) as nat, 18);
        }
        value = value * 10 + ((c as u32) - 48) as u64;
        i = i + 1;
    }
    assert(digits.take(t.len() - 2) =~= digits);
    proof {
        crate::text::lemma_pow10_18();
        crate::text::lemma_pow10_mono((t.len() - 2) as nat, 18);
    }
    if value == 0 {
        return None;
    }
    Some(value as i64)
}

/// Reads a task reference: `T-0042` (any case of `T`) or a UUID.
pub fn parse_task_reference(text: &str) -> (r: Option<TaskReference>)
    ensures
        r == task_reference(text@),
{
    let trimmed = trim_str(text);
    match parse_code(&trimmed) {
        Some(id) => Some(TaskReference::PublicId(id)),
        None => {
            let t = string_of(trimmed.as_slice());
            match parse_uuid(t.as_str()) {
                Some(u) => Some(TaskReference::Uid(u)),
                None => None,
            }
        },
    }
}

proof fn lemma_decimal_reads_back(n: nat)
    ensures
        decimal(n).len() >= 1,
        forall|i: int| 0 <= i < decimal(n).len() ==> is_digit(#[trigger] decimal(n)[i]),
        digits_value(decimal(n)) == n,
    decreases n,
{
    if n < 10 {
        let d = decimal(n);
        assert(d == seq![digit_char(n)]);
        assert(d.drop_last() =~= Seq::<char>::empty());
        assert((digit_char(n) as u32) == n + 48);
        assert(digits_value(d.drop_last()) == 0);
        assert(digits_value(d) == n);
    } else {
        lemma_decimal_reads_back(n / 10);
        let d = decimal(n);
        assert(d == decimal(n / 10).push(digit_char(n % 10)));
        assert(d.drop_last() =~= decimal(n / 10));
        assert((digit_char(n % 10) as u32) == n % 10 + 48);
        assert(n == (n / 10) * 10 + n % 10) by {
            vstd::arithmetic::div_mod::lemma_fundamental_div_mod(n as int, 10);
        }
        assert(digits_value(d) == digits_value(decimal(n / 10)) * 10 + n % 10);
        assert forall|i: int| 0 <= i < d.len() implies is_digit(#[trigger] d[i]) by {
            if i < d.len() - 1 {
                assert(d[i] == decimal(n / 10)[i]);
            }
        }
    }
}

proof fn lemma_decimal_len(n: nat, k: nat)
    requires
        k >= 1,
        n < crate::text::pow10(k),
    ensures
        decimal(n).len() <= k,
    decreases n,
{
    if n >= 10 {
        assert(k >= 2) by {
            if k == 1 {
                assert(crate::text::pow10(1) == 10) by {
                    reveal_with_fuel(crate::text::pow10, 2);
                }
            }
        }
        crate::text::lemma_pow10_step((k - 1) as nat);
        lemma_decimal_len(n / 10, (k - 1) as nat);
    }
}

proof fn lemma_zeros_digits(k: int)
    ensures
        zeros(k).len() == (if k > 0 { k } else { 0 }),
        forall|i: int| 0 <= i < zeros(k).len() ==> #[trigger] zeros(k)[i] == '0',
    decreases k,
{
    if k > 0 {
        lemma_zeros_digits(k - 1);
        assert forall|i: int| 0 <= i < zeros(k).len() implies #[trigger] zeros(k)[i] == '0' by {
            if i < zeros(k).len() - 1 {
                assert(zeros(k)[i] == zeros(k - 1)[i]);
            }
        }
    }
}

proof fn lemma_leading_zeros_value(k: int, s: Seq<char>)
    ensures
        digits_value(zeros(k) + s) == digits_value(s),
    decreases s.len(), k,
{
    if s.len() > 0 {
        assert((zeros(k) + s).drop_last() =~= zeros(k) + s.drop_last());
        lemma_leading_zeros_value(k, s.drop_last());
    } else if k > 0 {
        assert(zeros(k) + s =~= zeros(k));
        assert(zeros(k).drop_last() =~= zeros(k - 1) + s);
        assert(zeros(k - 1) + s =~= zeros(k - 1));
        lemma_leading_zeros_value(k - 1, s);
        assert(('0' as u32) == 48);
    } else {
        assert(zeros(k) + s =~= Seq::<char>::empty());
    }
}

/// The code a task is shown with reads back as the task's identifier, also
/// as a typed reference, for every identifier of at most eighteen digits.
pub proof fn public_code_reads_back(id: i64)
    requires
        0 < id < 1_000_000_000_000_000_000,
    ensures
        code_id(public_code(id as nat)) == Some(id),
        task_reference(public_code(id as nat)) == Some(TaskReference::PublicId(id)),
{
    reveal_strlit("T-");
    let n = id as nat;
    let k = 4 - decimal(n).len();
    let code = public_code(n);
    lemma_decimal_reads_back(n);
    crate::text::lemma_pow10_18();
    lemma_decimal_len(n, 18);
    lemma_zeros_digits(k);
    lemma_leading_zeros_value(k, decimal(n));
    let digits = code.skip(2);
    assert(digits =~= zeros(k) + decimal(n));
    assert forall|i: int| 0 <= i < digits.len() implies is_digit(#[trigger] digits[i]) by {
        if i < zeros(k).len() {
            assert(digits[i] == zeros(k)[i]);
        } else {
            assert(digits[i] == decimal(n)[i - zeros(k).len()]);
        }
    }
    assert(code[0] == 'T');
    assert(code[1] == '-');
    assert(trim_start(code) == code);
    assert(code.last() == digits[digits.len() - 1]);
    assert(trim_end(code) == code);
}

} // verus!
