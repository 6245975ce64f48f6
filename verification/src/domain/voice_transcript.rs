//! Normalisation and length budgeting of speech-to-text transcripts before
//! they reach the task generator and the previews.
use vstd::prelude::*;

use crate::domain::errors::{ctx_empty, AppError, AppResult, ErrorKind};
use crate::limits::MAX_TRANSCRIPT_LENGTH;
use crate::text::{
    char_is_control, char_is_whitespace, chars_of, collapse_whitespace, collapse_ws, is_ctrl,
    is_ws, string_of, trim_end,
};

verus! {

/// How far back (in UTF-8 bytes) the clipper looks for a sentence end or a
/// space before the budget.
pub const CLIP_BACKOFF_BYTES: usize = 160;

/// A transcript ready for the generator: whitespace-normalised and within
/// the length budget.
#[derive(Debug)]
pub struct NormalizedTranscript {
    pub text: String,
    /// Characters of the normalised text before clipping.
    pub original_length: usize,
    pub truncated: bool,
}

/// Control characters that are not whitespace are dropped; whitespace runs
/// (spaces, newlines, tabs) become single spaces; both ends are trimmed.
pub open spec fn normalise_ws(s: Seq<char>) -> Seq<char> {
    collapse_ws(s.filter(|c: char| !is_ctrl(c) || is_ws(c)))
}

/// Length of a character in UTF-8 (`char::len_utf8`).
pub open spec fn utf8_len(c: char) -> nat {
    if (c as u32) < 0x80 {
        1
    } else if (c as u32) < 0x800 {
        2
    } else if (c as u32) < 0x10000 {
        3
    } else {
        4
    }
}

/// Length of a character sequence in UTF-8 bytes.
pub open spec fn utf8_size(s: Seq<char>) -> nat
    decreases s.len(),
{
    if s.len() == 0 { 0 } else { utf8_size(s.drop_last()) + utf8_len(s.last()) }
}

pub open spec fn is_sentence_end(c: char) -> bool {
    c == '.' || c == '!' || c == '?'
}

/// The last position before `k` whose character starts at byte `limit` or
/// later and is a sentence end (`sentence`) or whitespace (otherwise).
pub open spec fn find_back(w: Seq<char>, limit: nat, k: int, sentence: bool) -> Option<int>
    decreases k,
{
    if k <= 0 {
        None
    } else {
        let i = k - 1;
        if utf8_size(w.take(i)) >= limit && (if sentence { is_sentence_end(w[i]) } else { is_ws(w[i]) }) {
            Some(i)
        } else {
            find_back(w, limit, i, sentence)
        }
    }
}

/// Where an over-long text is cut (a character count): after the last
/// sentence end within the back-off window of the first `max` characters,
/// else before the last whitespace there; with neither in the window, before
/// the last whitespace among the first `max` characters, else after the last
/// sentence end there.  Only a text with no such boundary at all is cut at
/// `max`.
pub open spec fn clip_point(s: Seq<char>, max: nat) -> int {
    let w = s.take(max as int);
    let size = utf8_size(w);
    let limit: nat = if size >= CLIP_BACKOFF_BYTES { (size - CLIP_BACKOFF_BYTES) as nat } else { 0 };
    match find_back(w, limit, max as int, true) {
        Some(i) => i + 1,
        None => match find_back(w, limit, max as int, false) {
            Some(i) => i,
            None => match find_back(w, 0, max as int, false) {
                Some(i) => i,
                None => match find_back(w, 0, max as int, true) {
                    Some(i) => i + 1,
                    None => max as int,
                },
            },
        },
    }
}

/// The text within the budget and whether it was cut; a cut text ends in `…`.
pub open spec fn clipped(s: Seq<char>, max: nat) -> (Seq<char>, bool) {
    if s.len() <= max {
        (s, false)
    } else {
        (trim_end(s.take(clip_point(s, max))).push('…'), true)
    }
}

fn char_utf8_len(c: char) -> (r: usize)
    ensures
        r == utf8_len(c),
{
    let code = c as u32;
    if code < 0x80 {
        1
    } else if code < 0x800 {
        2
    } else if code < 0x10000 {
        3
    } else {
        4
    }
}

/// The normalised form of a raw transcript.
pub fn normalise_whitespace(raw: &str) -> (r: Vec<char>)
    ensures
        r@ == normalise_ws(raw@),
{
    let s = chars_of(raw);
    let mut kept: Vec<char> = Vec::new();
    let mut i: usize = 0;
    while i < s.len()
        invariant
            i <= s.len(),
            s@ == raw@,
            kept@ == s@.take(i as int).filter(|c: char| !is_ctrl(c) || is_ws(c)),
        decreases s.len() - i,
    {
        proof {
            assert(s@.take(i + 1).drop_last() =~= s@.take(i as int));
            reveal(Seq::filter);
        }
        let c = s[i];
        if !char_is_control(c) || char_is_whitespace(c) {
            kept.push(c);
        }
        i = i + 1;
    }
    assert(s@.take(s.len() as int) =~= s@);
    collapse_whitespace(&kept)
}

proof fn lemma_utf8_size_step(s: Seq<char>, k: int)
    requires
        0 <= k < s.len(),
    ensures
        utf8_size(s.take(k + 1)) == utf8_size(s.take(k)) + utf8_len(s[k]),
{
    assert(s.take(k + 1).drop_last() =~= s.take(k));
}

proof fn lemma_utf8_size_bound(s: Seq<char>)
    ensures
        utf8_size(s) <= 4 * s.len(),
    decreases s.len(),
{
    if s.len() > 0 {
        lemma_utf8_size_bound(s.drop_last());
    }
}

proof fn lemma_utf8_size_mono(s: Seq<char>, a: int, b: int)
    requires
        0 <= a <= b <= s.len(),
    ensures
        utf8_size(s.take(a)) <= utf8_size(s.take(b)),
    decreases b - a,
{
    if a < b {
        lemma_utf8_size_mono(s, a, b - 1);
        lemma_utf8_size_step(s, b - 1);
    }
}

/// Byte offsets of every character boundary of `w`: `r[k]` is the size of
/// the first `k` characters.
fn byte_offsets(w: &Vec<char>) -> (r: Vec<usize>)
    requires
        w.len() < usize::MAX / 4,
    ensures
        r@.len() == w@.len() + 1,
        forall|k: int| 0 <= k <= w@.len() ==> r@[k] == utf8_size(#[trigger] w@.take(k)),
{
    let mut offs: Vec<usize> = Vec::new();
    offs.push(0);
    assert(w@.take(0) =~= Seq::<char>::empty());
    let mut total: usize = 0;
    let mut i: usize = 0;
    while i < w.len()
        invariant
            i <= w.len(),
            w.len() < usize::MAX / 4,
            offs@.len() == i + 1,
            total == utf8_size(w@.take(i as int)),
            forall|k: int| 0 <= k <= i ==> offs@[k] == utf8_size(#[trigger] w@.take(k)),
        decreases w.len() - i,
    {
        proof {
            lemma_utf8_size_step(w@, i as int);
            lemma_utf8_size_bound(w@.take(i + 1));
        }
        total = total + char_utf8_len(w[i]);
        offs.push(total);
        i = i + 1;
    }
    offs
}

fn find_back_exec(w: &Vec<char>, offs: &Vec<usize>, limit: usize, sentence: bool) -> (r: Option<usize>)
    requires
        offs@.len() == w@.len() + 1,
        forall|k: int| 0 <= k <= w@.len() ==> offs@[k] == utf8_size(#[trigger] w@.take(k)),
    ensures
        match find_back(w@, limit as nat, w@.len() as int, sentence) {
            Some(i) => r == Some(i as usize),
            None => r is None,
        },
{
    let mut k: usize = w.len();
    while k > 0
        invariant
            k <= w@.len(),
            offs@.len() == w@.len() + 1,
            forall|j: int| 0 <= j <= w@.len() ==> offs@[j] == utf8_size(#[trigger] w@.take(j)),
            find_back(w@, limit as nat, w@.len() as int, sentence) == find_back(w@, limit as nat, k as int, sentence),
        decreases k,
    {
        let i = k - 1;
        let c = w[i];
        let hit = if sentence { c == '.' || c == '!' || c == '?' } else { char_is_whitespace(c) };
        assert(offs@[i as int] == utf8_size(w@.take(i as int)));
        if offs[i] >= limit && hit {
            return Some(i);
        }
        k = i;
    }
    None
}

/// Cuts `text` to at most `max_chars` characters (plus the `…` marker) at a
/// sentence or word boundary, preferably within the back-off window.
pub fn clip_to_budget(text: &Vec<char>, max_chars: usize) -> (r: (Vec<char>, bool))
    requires
        max_chars < usize::MAX / 4,
    ensures
        (r.0@, r.1) == clipped(text@, max_chars as nat),
        r.0@.len() <= max_chars + 1,
{
    if text.len() <= max_chars {
        let mut same: Vec<char> = Vec::new();
        let mut i: usize = 0;
        while i < text.len()
            invariant
                i <= text.len(),
                same@ == text@.take(i as int),
            decreases text.len() - i,
        {
            same.push(text[i]);
            i = i + 1;
            assert(same@ =~= text@.take(i as int));
        }
        assert(text@.take(text.len() as int) =~= text@);
        return (same, false);
    }
    let mut window: Vec<char> = Vec::new();
    let mut i: usize = 0;
    while i < max_chars
        invariant
            i <= max_chars < text.len(),
            window@ == text@.take(i as int),
        decreases max_chars - i,
    {
        window.push(text[i]);
        i = i + 1;
        assert(window@ =~= text@.take(i as int));
    }
    let ghost w = window@;
    let offs = byte_offsets(&window);
    let size = offs[max_chars];
    assert(w.take(max_chars as int) =~= w);
    let limit: usize = if size >= CLIP_BACKOFF_BYTES { size - CLIP_BACKOFF_BYTES } else { 0 };
    proof {
        lemma_find_back_bound(w, limit as nat, max_chars as int, true);
        lemma_find_back_bound(w, limit as nat, max_chars as int, false);
        lemma_find_back_bound(w, 0, max_chars as int, true);
        lemma_find_back_bound(w, 0, max_chars as int, false);
    }
    let cut: usize = match find_back_exec(&window, &offs, limit, true) {
        Some(k) => k + 1,
        None => match find_back_exec(&window, &offs, limit, false) {
            Some(k) => k,
            None => match find_back_exec(&window, &offs, 0, false) {
                Some(k) => k,
                None => match find_back_exec(&window, &offs, 0, true) {
                    Some(k) => k + 1,
                    None => max_chars,
                },
            },
        },
    };
    assert(cut == clip_point(text@, max_chars as nat));
    let mut end: usize = cut;
    while end > 0 && char_is_whitespace(window[end - 1])
        invariant
            end <= cut <= max_chars < text@.len(),
            w == window@,
            w == text@.take(max_chars as int),
            trim_end(text@.take(cut as int)) == trim_end(text@.take(end as int)),
        decreases end,
    {
        proof {
            assert(text@.take(end as int).drop_last() =~= text@.take(end - 1));
            assert(text@.take(end as int).last() == window@[end - 1]);
        }
        end = end - 1;
    }
    let mut out: Vec<char> = Vec::new();
    let mut j: usize = 0;
    while j < end
        invariant
            j <= end <= max_chars < text@.len(),
            w == window@,
            w == text@.take(max_chars as int),
            out@ == text@.take(j as int),
        decreases end - j,
    {
        out.push(window[j]);
        j = j + 1;
        assert(out@ =~= text@.take(j as int));
    }
    proof {
        assert(trim_end(text@.take(end as int)) == text@.take(end as int));
    }
    out.push('…');
    (out, true)
}

proof fn lemma_find_back_bound(w: Seq<char>, limit: nat, k: int, sentence: bool)
    ensures
        find_back(w, limit, k, sentence) matches Some(i) ==> 0 <= i < k,
    decreases k,
{
    if k > 0 {
        lemma_find_back_bound(w, limit, k - 1, sentence);
    }
}

impl NormalizedTranscript {
    /// Normalises a raw speech-to-text result and fits it into the
    /// transcript budget; an empty result is refused.
    pub fn from_raw(raw: &str) -> (r: AppResult<Self>)
        ensures
            r is Err <==> normalise_ws(raw@).len() == 0,
            r matches Err(e) ==> e.kind() == ErrorKind::Validation && e.code_view() == "TRANSCRIPTION_EMPTY"@
                && e.message_view() == "Voice message could not be transcribed into text"@,
            r matches Ok(t) ==> {
                &&& (t.text@, t.truncated) == clipped(normalise_ws(raw@), MAX_TRANSCRIPT_LENGTH as nat)
                &&& t.original_length == normalise_ws(raw@).len()
                &&& t.text@.len() <= MAX_TRANSCRIPT_LENGTH + 1
            },
    {
        let normalised = normalise_whitespace(raw);
        if normalised.len() == 0 {
            return Err(AppError::business_rule(
                "TRANSCRIPTION_EMPTY",
                String::from_str("Voice message could not be transcribed into text"),
                ctx_empty(),
            ));
        }
        let original_length = normalised.len();
        let (text, truncated) = clip_to_budget(&normalised, MAX_TRANSCRIPT_LENGTH);
        Ok(NormalizedTranscript { text: string_of(text.as_slice()), original_length, truncated })
    }
}

/// Clipping keeps a text within its budget plus the one-character marker,
/// and flags exactly the texts that were over budget.
pub proof fn clipped_text_fits_budget(s: Seq<char>, max: nat)
    ensures
        clipped(s, max).0.len() <= max + 1,
        clipped(s, max).1 <==> s.len() > max,
        clipped(s, max).1 ==> clipped(s, max).0.last() == '…',
        !clipped(s, max).1 ==> clipped(s, max).0 == s,
{
    if s.len() > max {
        let w = s.take(max as int);
        let size = utf8_size(w);
        let limit: nat = if size >= CLIP_BACKOFF_BYTES { (size - CLIP_BACKOFF_BYTES) as nat } else { 0 };
        lemma_find_back_bound(w, limit, max as int, true);
        lemma_find_back_bound(w, limit, max as int, false);
        lemma_find_back_bound(w, 0, max as int, true);
        lemma_find_back_bound(w, 0, max as int, false);
        lemma_trim_end_len(s.take(clip_point(s, max)));
    }
}

proof fn lemma_trim_end_len(s: Seq<char>)
    ensures
        trim_end(s).len() <= s.len(),
    decreases s.len(),
{
    if s.len() > 0 && is_ws(s.last()) {
        lemma_trim_end_len(s.drop_last());
    }
}

} // verus!
