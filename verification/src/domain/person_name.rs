//! The validated (first name, last name) pair collected during onboarding,
//! with its normalisation, display and trigram rules.
use vstd::prelude::*;

use crate::domain::errors::{ctx_one, ctx_two, AppError, AppResult, ContextValue, ErrorKind};
use crate::text::{
    char_is_alphabetic, char_is_alphanumeric, char_is_numeric, char_is_whitespace, chars_of,
    collapse_whitespace, collapse_ws, drop_controls, is_alnum, is_alpha, is_num, is_ws, lowercase,
    lowercase_chars, push_chars, push_str, remove_controls, replace_char, replace_char_exec,
    string_of, views,
};

verus! {

/// Longest accepted name part, in characters.
pub const MAX_PERSON_NAME_PART_LENGTH: usize = 64;
/// Shortest accepted name part, in characters.
pub const MIN_PERSON_NAME_PART_LENGTH: usize = 1;

/// A validated pair of name parts; both are normalised and valid.
#[derive(Debug)]
pub struct PersonName {
    first: String,
    last: String,
}

pub struct PersonNameView {
    pub first: Seq<char>,
    pub last: Seq<char>,
}

impl View for PersonName {
    type V = PersonNameView;

    closed spec fn view(&self) -> PersonNameView {
        PersonNameView { first: self.first@, last: self.last@ }
    }
}

/// Control characters removed, whitespace runs collapsed, ends trimmed.
pub open spec fn normalize_part(s: Seq<char>) -> Seq<char> {
    collapse_ws(drop_controls(s))
}

pub open spec fn is_allowed_name_char(c: char) -> bool {
    is_alpha(c) || is_num(c) || c == ' ' || c == '-' || c == '\''
}

/// The rule a normalised part breaks, if any: its code and the tail of its
/// message (which follows the field name).
pub open spec fn part_violation(s: Seq<char>) -> Option<(Seq<char>, Seq<char>)> {
    if s.len() < MIN_PERSON_NAME_PART_LENGTH {
        Some(("PERSON_NAME_EMPTY"@, " must not be empty"@))
    } else if s.len() > MAX_PERSON_NAME_PART_LENGTH {
        Some(("PERSON_NAME_TOO_LONG"@, " exceeds the supported length"@))
    } else if exists|i: int| 0 <= i < s.len() && !is_allowed_name_char(#[trigger] s[i]) {
        Some(("PERSON_NAME_INVALID_CHARACTERS"@, " contains characters that are not allowed"@))
    } else {
        None
    }
}

/// `e` is the validation error reporting that `field` broke `rule`.
pub open spec fn is_part_error(e: AppError, field: Seq<char>, rule: (Seq<char>, Seq<char>)) -> bool {
    &&& e.kind() == ErrorKind::Validation
    &&& e.code_view() == rule.0
    &&& e.message_view() == field + rule.1
}

pub fn normalize_part_exec(value: &str) -> (r: Vec<char>)
    ensures
        r@ == normalize_part(value@),
{
    let cleaned = remove_controls(&chars_of(value));
    collapse_whitespace(&cleaned)
}

fn is_allowed_name_character(c: char) -> (r: bool)
    ensures
        r == is_allowed_name_char(c),
{
    char_is_alphabetic(c) || char_is_numeric(c) || c == ' ' || c == '-' || c == '\''
}

fn part_error(field: &'static str, code: &'static str, message_tail: &str, with_limit: bool) -> (r: AppError)
    ensures
        r.kind() == ErrorKind::Validation,
        r.code_view() == code@,
        r.message_view() == field@ + message_tail@,
{
    let mut message: Vec<char> = Vec::new();
    push_str(&mut message, field);
    push_str(&mut message, message_tail);
    let context = if with_limit {
        ctx_two(
            "field",
            ContextValue::Text(String::from_str(field)),
            "limit",
            ContextValue::Int(MAX_PERSON_NAME_PART_LENGTH as i64),
        )
    } else {
        ctx_one("field", ContextValue::Text(String::from_str(field)))
    };
    AppError::schema_validation(code, string_of(message.as_slice()), context)
}

/// Checks one normalised part against the length and character rules.
pub fn validate_part(field: &'static str, normalized: &Vec<char>) -> (r: AppResult<()>)
    ensures
        r is Ok <==> part_violation(normalized@) is None,
        r matches Err(e) ==> is_part_error(e, field@, part_violation(normalized@).unwrap()),
{
    let count = normalized.len();
    if count < MIN_PERSON_NAME_PART_LENGTH {
        return Err(part_error(field, "PERSON_NAME_EMPTY", " must not be empty", false));
    }
    if count > MAX_PERSON_NAME_PART_LENGTH {
        return Err(part_error(field, "PERSON_NAME_TOO_LONG", " exceeds the supported length", true));
    }
    let mut i: usize = 0;
    while i < normalized.len()
        invariant
            i <= normalized.len(),
            MIN_PERSON_NAME_PART_LENGTH <= normalized.len() <= MAX_PERSON_NAME_PART_LENGTH,
            forall|j: int| 0 <= j < i ==> is_allowed_name_char(#[trigger] normalized@[j]),
        decreases normalized.len() - i,
    {
        if !is_allowed_name_character(normalized[i]) {
            assert(!is_allowed_name_char(normalized@[i as int]));
            return Err(part_error(
                field,
                "PERSON_NAME_INVALID_CHARACTERS",
                " contains characters that are not allowed",
                false,
            ));
        }
        i = i + 1;
    }
    Ok(())
}

/// The canonical text the trigram index works on: lower-cased, `ё` folded to
/// `е`, only letters, digits and whitespace kept, whitespace collapsed.
pub open spec fn canonical_for_trigrams(s: Seq<char>) -> Seq<char> {
    collapse_ws(replace_char(lowercase(s), 'ё', 'е').filter(|c: char| is_alnum(c) || is_ws(c)))
}

/// The trigrams of a canonical text: its three-character windows, or the
/// text itself when it is shorter than three characters.
pub open spec fn trigrams_of(c: Seq<char>) -> Seq<Seq<char>> {
    if c.len() < 3 {
        seq![c]
    } else {
        Seq::new((c.len() - 2) as nat, |i: int| c.subrange(i, i + 3))
    }
}

fn keep_trigram_chars(s: &Vec<char>) -> (r: Vec<char>)
    ensures
        r@ == s@.filter(|c: char| is_alnum(c) || is_ws(c)),
{
    let mut out: Vec<char> = Vec::new();
    let mut i: usize = 0;
    while i < s.len()
        invariant
            i <= s.len(),
            out@ == s@.take(i as int).filter(|c: char| is_alnum(c) || is_ws(c)),
        decreases s.len() - i,
    {
        proof {
            assert(s@.take(i + 1).drop_last() =~= s@.take(i as int));
            reveal(Seq::filter);
        }
        let c = s[i];
        if char_is_alphanumeric(c) || char_is_whitespace(c) {
            out.push(c);
        }
        i = i + 1;
    }
    assert(s@.take(s.len() as int) =~= s@);
    out
}

fn canonical_for_trigrams_exec(s: &Vec<char>) -> (r: Vec<char>)
    ensures
        r@ == canonical_for_trigrams(s@),
{
    let lowered = lowercase_chars(s);
    let folded = replace_char_exec(&lowered, 'ё', 'е');
    let kept = keep_trigram_chars(&folded);
    collapse_whitespace(&kept)
}

impl PersonName {
    /// The parts are normalised and valid.
    pub open spec fn wf(&self) -> bool {
        &&& part_violation(self@.first) is None
        &&& part_violation(self@.last) is None
    }

    /// Normalises and validates both parts; the first part is checked first.
    pub fn parse(first_raw: &str, last_raw: &str) -> (r: AppResult<Self>)
        ensures
            r is Ok <==> part_violation(normalize_part(first_raw@)) is None
                && part_violation(normalize_part(last_raw@)) is None,
            r matches Ok(n) ==> n@.first == normalize_part(first_raw@) && n@.last == normalize_part(last_raw@),
            r matches Err(e) ==> if part_violation(normalize_part(first_raw@)) is Some {
                is_part_error(e, "first_name"@, part_violation(normalize_part(first_raw@)).unwrap())
            } else {
                is_part_error(e, "last_name"@, part_violation(normalize_part(last_raw@)).unwrap())
            },
    {
        let first = normalize_part_exec(first_raw);
        let last = normalize_part_exec(last_raw);
        validate_part("first_name", &first)?;
        validate_part("last_name", &last)?;
        Ok(PersonName { first: string_of(first.as_slice()), last: string_of(last.as_slice()) })
    }

    /// Normalises and validates a first name on its own.
    pub fn parse_first_only(first_raw: &str) -> (r: AppResult<String>)
        ensures
            r is Ok <==> part_violation(normalize_part(first_raw@)) is None,
            r matches Ok(s) ==> s@ == normalize_part(first_raw@),
            r matches Err(e) ==> is_part_error(e, "first_name"@, part_violation(normalize_part(first_raw@)).unwrap()),
    {
        let first = normalize_part_exec(first_raw);
        validate_part("first_name", &first)?;
        Ok(string_of(first.as_slice()))
    }

    /// Normalises and validates a last name next to an already accepted
    /// first name, which is kept as given.
    pub fn parse_last_with_first(first: &str, last_raw: &str) -> (r: AppResult<Self>)
        ensures
            r is Ok <==> part_violation(normalize_part(last_raw@)) is None,
            r matches Ok(n) ==> n@.first == first@ && n@.last == normalize_part(last_raw@),
            r matches Err(e) ==> is_part_error(e, "last_name"@, part_violation(normalize_part(last_raw@)).unwrap()),
    {
        let last = normalize_part_exec(last_raw);
        validate_part("last_name", &last)?;
        Ok(PersonName { first: String::from_str(first), last: string_of(last.as_slice()) })
    }

    /// "First Last", the conversational form.
    pub fn display(&self) -> (r: String)
        ensures
            r@ == self@.first + " "@ + self@.last,
    {
        let mut out = chars_of(self.first.as_str());
        push_str(&mut out, " ");
        push_str(&mut out, self.last.as_str());
        string_of(out.as_slice())
    }

    /// "Last First", the directory form.
    pub fn display_reversed(&self) -> (r: String)
        ensures
            r@ == self@.last + " "@ + self@.first,
    {
        let mut out = chars_of(self.last.as_str());
        push_str(&mut out, " ");
        push_str(&mut out, self.first.as_str());
        string_of(out.as_slice())
    }

    pub fn first(&self) -> (r: &str)
        ensures
            r@ == self@.first,
    {
        self.first.as_str()
    }

    pub fn last(&self) -> (r: &str)
        ensures
            r@ == self@.last,
    {
        self.last.as_str()
    }

    /// The trigram keys of the name for the assignee-suggestion index.
    pub fn trigrams(&self) -> (r: Vec<String>)
        ensures
            views(r@) == trigrams_of(canonical_for_trigrams(self@.first + " "@ + self@.last)),
    {
        let mut joined = chars_of(self.first.as_str());
        push_str(&mut joined, " ");
        push_str(&mut joined, self.last.as_str());
        let canonical = canonical_for_trigrams_exec(&joined);
        let ghost c = canonical@;
        let mut out: Vec<String> = Vec::new();
        if canonical.len() < 3 {
            out.push(string_of(canonical.as_slice()));
            assert(views(out@) =~= seq![c]);
            return out;
        }
        let mut i: usize = 0;
        while i + 2 < canonical.len()
            invariant
                c == canonical@,
                c.len() >= 3,
                i <= c.len() - 2,
                views(out@) =~= Seq::new(i as nat, |k: int| c.subrange(k, k + 3)),
            decreases canonical.len() - i,
        {
            let mut window: Vec<char> = Vec::new();
            window.push(canonical[i]);
            window.push(canonical[i + 1]);
            window.push(canonical[i + 2]);
            assert(window@ =~= c.subrange(i as int, i + 3));
            let ghost prev = views(out@);
            out.push(string_of(window.as_slice()));
            assert(views(out@) =~= prev.push(c.subrange(i as int, i + 3)));
            i = i + 1;
        }
        out
    }
}

} // verus!
