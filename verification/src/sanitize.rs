//! Input sanitization for user-provided content that is sent to the Datadog
//! API or logged.
use vstd::prelude::*;
use crate::text::{chars_of, is_control, push_char, trim, trim_bounds, is_cc};

verus! {

/// Maximum length, in characters, of user-provided names (monitor names, dashboard titles, ...).
pub const MAX_NAME_LENGTH: usize = 256;

/// Maximum length, in characters, of user-provided messages (alert messages, descriptions, ...).
pub const MAX_MESSAGE_LENGTH: usize = 4096;

/// Maximum length, in characters, of user-provided queries.
pub const MAX_QUERY_LENGTH: usize = 8192;

/// Maximum length, in characters, of one tag.
pub const MAX_TAG_LENGTH: usize = 200;

/// Maximum number of tags kept.
pub const MAX_TAGS: usize = 100;

/// Characters that survive sanitization: everything but control codes,
/// except that newlines and tabs are kept.
pub open spec fn kept_char(c: char) -> bool {
    !is_cc(c) || c == '\n' || c == '\t'
}

/// The characters of `s` that survive sanitization, in order.
pub open spec fn kept(s: Seq<char>) -> Seq<char>
    decreases s.len(),
{
    if s.len() == 0 {
        s
    } else if kept_char(s.last()) {
        kept(s.drop_last()).push(s.last())
    } else {
        kept(s.drop_last())
    }
}

/// The first `n` elements of `s`, or all of `s` when it is shorter.
pub open spec fn take_at_most<T>(s: Seq<T>, n: nat) -> Seq<T> {
    if s.len() <= n {
        s
    } else {
        s.take(n as int)
    }
}

/// A sanitized string: trimmed, control characters other than newline and
/// tab removed, then cut to `max` characters.
pub open spec fn sanitized(s: Seq<char>, max: nat) -> Seq<char> {
    take_at_most(kept(trim(s)), max)
}

/// Sanitized tags, with those that end up empty left out.
pub open spec fn sanitized_tags(tags: Seq<Seq<char>>) -> Seq<Seq<char>>
    decreases tags.len(),
{
    if tags.len() == 0 {
        Seq::empty()
    } else {
        let rest = sanitized_tags(tags.drop_last());
        let t = sanitized(tags.last(), MAX_TAG_LENGTH as nat);
        if t.len() > 0 {
            rest.push(t)
        } else {
            rest
        }
    }
}

/// The character views of a sequence of strings.
pub open spec fn views(v: Seq<String>) -> Seq<Seq<char>> {
    v.map_values(|s: String| s@)
}

proof fn lemma_cap_push<T>(f: Seq<T>, x: T, max: nat)
    ensures
        take_at_most(f.push(x), max) == (if f.len() < max {
            take_at_most(f, max).push(x)
        } else {
            take_at_most(f, max)
        }),
{
    if f.len() >= max {
        assert(f.push(x).take(max as int) =~= take_at_most(f, max));
    }
}

proof fn lemma_kept_all_kept(s: Seq<char>)
    ensures
        forall|i: int| 0 <= i < kept(s).len() ==> kept_char(#[trigger] kept(s)[i]),
        kept(s).len() <= s.len(),
    decreases s.len(),
{
    if s.len() > 0 {
        lemma_kept_all_kept(s.drop_last());
    }
}

/// Every character of a sanitized string survives sanitization, and the
/// string is no longer than the limit.
pub proof fn lemma_sanitized_shape(s: Seq<char>, max: nat)
    ensures
        sanitized(s, max).len() <= max,
        forall|i: int|
            0 <= i < sanitized(s, max).len() ==> kept_char(#[trigger] sanitized(s, max)[i]),
{
    lemma_kept_all_kept(trim(s));
}

/// The characters a sanitizer keeps, filtered in order.
proof fn lemma_kept_is_filter(s: Seq<char>)
    ensures
        kept(s) == s.filter(|c: char| !is_cc(c) || c == '\n' || c == '\t'),
    decreases s.len(),
{
    reveal(Seq::filter);
    if s.len() > 0 {
        lemma_kept_is_filter(s.drop_last());
    }
}

/// Sanitizing trims the text, removes exactly the Unicode control characters
/// (`Cc`) other than newline and tab, keeping the rest in order, and cuts the
/// result to `max` characters; so no other control character survives.
pub proof fn lemma_sanitize_removes_controls(s: Seq<char>, max: nat)
    ensures
        sanitized(s, max) == take_at_most(
            trim(s).filter(|c: char| !is_cc(c) || c == '\n' || c == '\t'),
            max,
        ),
        forall|i: int|
            0 <= i < sanitized(s, max).len() ==> !is_cc(#[trigger] sanitized(s, max)[i]) || sanitized(
                s,
                max,
            )[i] == '\n' || sanitized(s, max)[i] == '\t',
{
    lemma_kept_is_filter(trim(s));
    lemma_sanitized_shape(s, max);
}

/// Core sanitization: trims white space, removes control characters except
/// newlines and tabs, and keeps at most `max_length` characters.
pub fn sanitize_string(input: &str, max_length: usize) -> (r: String)
    ensures
        r@ == sanitized(input@, max_length as nat),
        r@.len() <= max_length,
        forall|i: int| 0 <= i < r@.len() ==> kept_char(#[trigger] r@[i]),
        forall|i: int|
            0 <= i < r@.len() ==> !is_cc(#[trigger] r@[i]) || r@[i] == '\n' || r@[i] == '\t',
        r@ == take_at_most(
            trim(input@).filter(|c: char| !is_cc(c) || c == '\n' || c == '\t'),
            max_length as nat,
        ),
{
    let v = chars_of(input);
    let (lo, hi) = trim_bounds(&v);
    let ghost t = trim(input@);
    let mut out = String::new();
    let mut count: usize = 0;
    let mut i = lo;
    while i < hi
        invariant
            lo <= i <= hi <= v@.len(),
            v@ == input@,
            t == v@.subrange(lo as int, hi as int),
            count == out@.len(),
            out@ == take_at_most(kept(v@.subrange(lo as int, i as int)), max_length as nat),
        decreases hi - i,
    {
        let c = v[i];
        let ghost before = v@.subrange(lo as int, i as int);
        proof {
            assert(v@.subrange(lo as int, i + 1).drop_last() =~= before);
            lemma_cap_push(kept(before), c, max_length as nat);
        }
        if (!is_control(c) || c == '\n' || c == '\t') && count < max_length {
            push_char(&mut out, c);
            count = count + 1;
        }
        i = i + 1;
    }
    proof {
        assert(v@.subrange(lo as int, hi as int) =~= t);
        lemma_sanitized_shape(input@, max_length as nat);
        lemma_sanitize_removes_controls(input@, max_length as nat);
    }
    out
}

/// Sanitizes a user-provided name (monitor name, dashboard title, ...).
pub fn sanitize_name(input: &str) -> (r: String)
    ensures
        r@ == sanitized(input@, MAX_NAME_LENGTH as nat),
        r@.len() <= MAX_NAME_LENGTH,
        forall|i: int|
            0 <= i < r@.len() ==> !is_cc(#[trigger] r@[i]) || r@[i] == '\n' || r@[i] == '\t',
{
    sanitize_string(input, MAX_NAME_LENGTH)
}

/// Sanitizes a user-provided message (alert message, description, ...).
pub fn sanitize_message(input: &str) -> (r: String)
    ensures
        r@ == sanitized(input@, MAX_MESSAGE_LENGTH as nat),
        r@.len() <= MAX_MESSAGE_LENGTH,
        forall|i: int|
            0 <= i < r@.len() ==> !is_cc(#[trigger] r@[i]) || r@[i] == '\n' || r@[i] == '\t',
{
    sanitize_string(input, MAX_MESSAGE_LENGTH)
}

/// Sanitizes a user-provided query.
pub fn sanitize_query(input: &str) -> (r: String)
    ensures
        r@ == sanitized(input@, MAX_QUERY_LENGTH as nat),
        r@.len() <= MAX_QUERY_LENGTH,
        forall|i: int|
            0 <= i < r@.len() ==> !is_cc(#[trigger] r@[i]) || r@[i] == '\n' || r@[i] == '\t',
{
    sanitize_string(input, MAX_QUERY_LENGTH)
}

/// Sanitizes an optional string; `None` when it is absent or empty after
/// sanitization.
pub fn sanitize_optional(input: Option<String>, max_length: usize) -> (r: Option<String>)
    ensures
        match input {
            None => r is None,
            Some(s) => if sanitized(s@, max_length as nat).len() == 0 {
                r is None
            } else {
                r matches Some(t) && t@ == sanitized(s@, max_length as nat)
            },
        },
        r matches Some(t) ==> t@.len() > 0,
{
    match input {
        None => None,
        Some(s) => {
            let t = sanitize_string(s.as_str(), max_length);
            if t.as_str().is_empty() {
                None
            } else {
                Some(t)
            }
        },
    }
}

/// Sanitizes each tag, drops those that end up empty, and keeps at most
/// `MAX_TAGS` of them.
pub fn sanitize_tags(tags: Vec<String>) -> (r: Vec<String>)
    ensures
        views(r@) == take_at_most(sanitized_tags(views(tags@)), MAX_TAGS as nat),
        r@.len() <= MAX_TAGS,
        forall|i: int|
            0 <= i < r@.len() ==> (#[trigger] r@[i])@.len() > 0 && r@[i]@.len() <= MAX_TAG_LENGTH,
{
    let mut out: Vec<String> = Vec::new();
    let mut i: usize = 0;
    while i < tags.len()
        invariant
            i <= tags@.len(),
            out@.len() <= MAX_TAGS,
            views(out@) == take_at_most(
                sanitized_tags(views(tags@.take(i as int))),
                MAX_TAGS as nat,
            ),
            forall|j: int|
                0 <= j < out@.len() ==> (#[trigger] out@[j])@.len() > 0 && out@[j]@.len()
                    <= MAX_TAG_LENGTH,
        decreases tags@.len() - i,
    {
        let t = sanitize_string(tags[i].as_str(), MAX_TAG_LENGTH);
        let ghost prev = views(tags@.take(i as int));
        proof {
            assert(views(tags@.take(i + 1)).drop_last() =~= prev);
            assert(views(tags@.take(i + 1)).last() == tags@[i as int]@);
            lemma_cap_push(sanitized_tags(prev), t@, MAX_TAGS as nat);
        }
        if !t.as_str().is_empty() && out.len() < MAX_TAGS {
            let ghost old_out = out@;
            out.push(t);
            proof {
                assert(views(out@) =~= views(old_out).push(t@));
            }
        }
        i = i + 1;
    }
    assert(tags@.take(tags@.len() as int) =~= tags@);
    out
}

} // verus!
