use vstd::prelude::*;

verus! {

/// Longest annotation body, in characters, that is kept whole.
pub const MAX_SUMMARY_CHARS: usize = 80;

/// Characters kept in front of the ellipsis when a body is cut.
pub const KEPT_CHARS: usize = 77;

/// The text that lossy UTF-8 decoding makes of a byte sequence.
pub uninterp spec fn lossy_text(b: Seq<u8>) -> Seq<char>;

/// Whether a character has the Unicode White_Space property: these 25 code
/// points and no others.
pub open spec fn white_space(c: char) -> bool {
    ('\u{9}' <= c && c <= '\u{d}') || c == ' ' || c == '\u{85}' || c == '\u{a0}' || c
        == '\u{1680}' || ('\u{2000}' <= c && c <= '\u{200a}') || c == '\u{2028}' || c
        == '\u{2029}' || c == '\u{202f}' || c == '\u{205f}' || c == '\u{3000}'
}

/// Relies on String::from_utf8_lossy: decodes the bytes, with each invalid
/// sequence replaced by U+FFFD; it never fails. The text depends on the bytes
/// alone, and no bytes give no text.
#[verifier::external_body]
fn decode_lossy(b: &[u8]) -> (r: String)
    ensures
        r@ == lossy_text(b@),
        b@.len() == 0 ==> r@.len() == 0,
{
    String::from_utf8_lossy(b).into_owned()
}

/// Whether `c` is white space, as `char::is_whitespace` decides it.
pub fn is_white_space(c: char) -> (r: bool)
    ensures
        r == white_space(c),
{
    ('\u{9}' <= c && c <= '\u{d}') || c == ' ' || c == '\u{85}' || c == '\u{a0}' || c
        == '\u{1680}' || ('\u{2000}' <= c && c <= '\u{200a}') || c == '\u{2028}' || c
        == '\u{2029}' || c == '\u{202f}' || c == '\u{205f}' || c == '\u{3000}'
}

pub open spec fn trim_start_spec(s: Seq<char>) -> Seq<char>
    decreases s.len(),
{
    if s.len() > 0 && white_space(s[0]) {
        trim_start_spec(s.drop_first())
    } else {
        s
    }
}

pub open spec fn trim_end_spec(s: Seq<char>) -> Seq<char>
    decreases s.len(),
{
    if s.len() > 0 && white_space(s.last()) {
        trim_end_spec(s.drop_last())
    } else {
        s
    }
}

/// The text without its leading and trailing white space.
pub open spec fn trim_spec(s: Seq<char>) -> Seq<char> {
    trim_end_spec(trim_start_spec(s))
}

pub open spec fn ellipsis() -> Seq<char> {
    "..."@
}

/// Bodies longer than the limit keep their first characters and end in an
/// ellipsis, which makes them exactly as long as the limit.
pub open spec fn truncate_spec(s: Seq<char>) -> Seq<char> {
    if s.len() > MAX_SUMMARY_CHARS {
        s.subrange(0, KEPT_CHARS as int) + ellipsis()
    } else {
        s
    }
}

/// The annotation for one changed line with the given origin marker and text.
pub open spec fn summary_spec(origin: char, text: Seq<char>) -> Seq<char> {
    if origin == '+' {
        "Added: "@ + truncate_spec(trim_spec(text))
    } else if origin == '-' {
        "Removed: "@ + truncate_spec(trim_spec(text))
    } else {
        seq![]
    }
}

/// Removes leading and trailing white space.
pub fn trim_text(s: &str) -> (r: String)
    ensures
        r@ == trim_spec(s@),
{
    let n = s.unicode_len();
    let mut start: usize = 0;
    let mut more = true;
    assert(s@.subrange(0, n as int) =~= s@);
    while more && start < n
        invariant
            start <= n,
            n == s@.len(),
            trim_start_spec(s@) == trim_start_spec(s@.subrange(start as int, n as int)),
            !more ==> start < n && !white_space(s@[start as int]),
        decreases n - start + if more { 1int } else { 0int },
    {
        if is_white_space(s.get_char(start)) {
            assert(s@.subrange(start as int, n as int).drop_first() =~= s@.subrange(
                start as int + 1,
                n as int,
            ));
            start = start + 1;
        } else {
            more = false;
        }
    }
    assert(trim_start_spec(s@) == s@.subrange(start as int, n as int));
    let mut end: usize = n;
    more = true;
    while more && end > start
        invariant
            start <= end <= n,
            n == s@.len(),
            trim_spec(s@) == trim_end_spec(s@.subrange(start as int, end as int)),
            !more ==> start < end && !white_space(s@[end as int - 1]),
        decreases end + if more { 1int } else { 0int },
    {
        if is_white_space(s.get_char(end - 1)) {
            assert(s@.subrange(start as int, end as int).drop_last() =~= s@.subrange(
                start as int,
                end as int - 1,
            ));
            end = end - 1;
        } else {
            more = false;
        }
    }
    s.substring_char(start, end).to_owned()
}

/// Cuts a body that is longer than the limit; never splits a character.
pub fn truncate_text(s: &str) -> (r: String)
    ensures
        r@ == truncate_spec(s@),
        r@.len() <= MAX_SUMMARY_CHARS,
{
    proof {
        reveal_strlit("...");
    }
    let n = s.unicode_len();
    if n > MAX_SUMMARY_CHARS {
        let mut r = s.substring_char(0, KEPT_CHARS).to_owned();
        r.append("...");
        r
    } else {
        s.to_owned()
    }
}

/// The annotation for a line whose text is already decoded.
pub fn summarize_text(origin: char, text: &str) -> (r: String)
    ensures
        r@ == summary_spec(origin, text@),
{
    if origin == '+' || origin == '-' {
        let trimmed = trim_text(text);
        let body = truncate_text(trimmed.as_str());
        let mut r = if origin == '+' {
            String::from_str("Added: ")
        } else {
            String::from_str("Removed: ")
        };
        r.append(body.as_str());
        r
    } else {
        String::new()
    }
}

/// The annotation for one changed line: its raw bytes are decoded lossily, so
/// no content can make this fail.
pub fn summarize_change(origin: char, content: &[u8]) -> (r: String)
    ensures
        r@ == summary_spec(origin, lossy_text(content@)),
        origin != '+' && origin != '-' ==> r@.len() == 0,
{
    let text = decode_lossy(content);
    summarize_text(origin, text.as_str())
}

/// An annotation body is never longer than the limit; one that fits is kept
/// as it is, and one that does not is cut to exactly the limit, ending in an
/// ellipsis.
pub proof fn lemma_truncate_bounds(s: Seq<char>)
    ensures
        s.len() <= MAX_SUMMARY_CHARS ==> truncate_spec(s) == s,
        s.len() > MAX_SUMMARY_CHARS ==> {
            &&& truncate_spec(s).len() == MAX_SUMMARY_CHARS
            &&& truncate_spec(s).subrange(0, KEPT_CHARS as int) == s.subrange(0, KEPT_CHARS as int)
            &&& truncate_spec(s).subrange(KEPT_CHARS as int, MAX_SUMMARY_CHARS as int) == ellipsis()
        },
{
    reveal_strlit("...");
    if s.len() > MAX_SUMMARY_CHARS {
        let t = truncate_spec(s);
        assert(t.subrange(0, KEPT_CHARS as int) =~= s.subrange(0, KEPT_CHARS as int));
        assert(t.subrange(KEPT_CHARS as int, MAX_SUMMARY_CHARS as int) =~= ellipsis());
    }
}

/// Lines that are neither additions nor removals give no annotation.
pub proof fn lemma_context_lines_silent(origin: char, text: Seq<char>)
    requires
        origin != '+',
        origin != '-',
    ensures
        summary_spec(origin, text).len() == 0,
{
}

} // verus!
