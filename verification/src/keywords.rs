//! Search keywords as a client sends them: trimmed, cut short, and few.
//!
//! Which characters are whitespace is for `char::is_whitespace` to say. What
//! is kept of a keyword is decided from its whitespace flags alone, one flag
//! per character, by `keyword_span`.

use vstd::prelude::*;
use vstd::string::StrSliceExecFns;

verus! {

/// How many keywords one search carries at most.
pub const MAX_KEYWORDS: usize = 5;

/// How many characters one keyword has at most.
pub const MAX_KEYWORD_CHARS: usize = 8;

/// Whether the character has the Unicode property `White_Space`, as
/// `char::is_whitespace` tells it.
pub uninterp spec fn is_whitespace(c: char) -> bool;

/// `char::is_whitespace`: whether the character is whitespace.
#[verifier::external_body]
pub(crate) fn char_is_whitespace(c: char) -> (white: bool)
    ensures
        white == is_whitespace(c),
{
    c.is_whitespace()
}

/// For each character of `s`, whether it is whitespace.
pub open spec fn whitespace_flags(s: Seq<char>) -> Seq<bool> {
    Seq::new(s.len(), |i: int| is_whitespace(s[i]))
}

/// How many flags at the start of `flags` are set.
pub open spec fn leading_set(flags: Seq<bool>) -> nat
    decreases flags.len(),
{
    if flags.len() > 0 && flags.first() {
        1 + leading_set(flags.drop_first())
    } else {
        0
    }
}

/// How many flags at the end of `flags` are set.
pub open spec fn trailing_set(flags: Seq<bool>) -> nat
    decreases flags.len(),
{
    if flags.len() > 0 && flags.last() {
        1 + trailing_set(flags.drop_last())
    } else {
        0
    }
}

/// Where the kept part of a keyword starts, given the whitespace flags of its
/// characters: after the whitespace at its start.
pub open spec fn kept_start(white: Seq<bool>) -> int {
    leading_set(white) as int
}

/// Where the whitespace at the end of a keyword starts, given the whitespace
/// flags of its characters. In a keyword of whitespace alone that is its end.
pub open spec fn trimmed_end(white: Seq<bool>) -> int {
    white.len() - trailing_set(white.skip(kept_start(white)))
}

/// Where the kept part of a keyword ends, given the whitespace flags of its
/// characters: before the whitespace at its end, and no more than
/// `MAX_KEYWORD_CHARS` characters after its start.
pub open spec fn kept_end(white: Seq<bool>) -> int {
    if trimmed_end(white) - kept_start(white) > MAX_KEYWORD_CHARS {
        kept_start(white) + MAX_KEYWORD_CHARS
    } else {
        trimmed_end(white)
    }
}

/// The keyword as it is sent: without the whitespace at its start and at its
/// end, and cut to its first `MAX_KEYWORD_CHARS` characters.
pub open spec fn normalized(keyword: Seq<char>) -> Seq<char> {
    let white = whitespace_flags(keyword);
    keyword.subrange(kept_start(white), kept_end(white))
}

/// The flags counted by `leading_set` are set, and the one after them is not.
pub proof fn lemma_leading_set(flags: Seq<bool>)
    ensures
        leading_set(flags) <= flags.len(),
        forall|i: int| 0 <= i < leading_set(flags) ==> flags[i],
        leading_set(flags) < flags.len() ==> !flags[leading_set(flags) as int],
    decreases flags.len(),
{
    if flags.len() > 0 && flags.first() {
        let rest = flags.drop_first();
        lemma_leading_set(rest);
        assert forall|i: int| 0 <= i < leading_set(flags) implies flags[i] by {
            if i > 0 {
                assert(flags[i] == rest[i - 1]);
            }
        }
        if leading_set(flags) < flags.len() {
            assert(flags[leading_set(flags) as int] == rest[leading_set(rest) as int]);
        }
    }
}

/// The flags counted by `trailing_set` are set, and the one before them is
/// not.
pub proof fn lemma_trailing_set(flags: Seq<bool>)
    ensures
        trailing_set(flags) <= flags.len(),
        forall|i: int| flags.len() - trailing_set(flags) <= i < flags.len() ==> flags[i],
        trailing_set(flags) < flags.len() ==> !flags[flags.len() - trailing_set(flags) - 1],
    decreases flags.len(),
{
    if flags.len() > 0 && flags.last() {
        let rest = flags.drop_last();
        lemma_trailing_set(rest);
        assert forall|i: int| flags.len() - trailing_set(flags) <= i < flags.len() implies flags[i] by {
            if i < flags.len() - 1 {
                assert(flags[i] == rest[i]);
            }
        }
        if trailing_set(flags) < flags.len() {
            assert(flags[flags.len() - trailing_set(flags) - 1] == rest[rest.len() - trailing_set(
                rest,
            ) - 1]);
        }
    }
}

/// What is kept of a keyword starts at its first character that is no
/// whitespace and, unless it is cut, ends with its last character that is no
/// whitespace. It has at most `MAX_KEYWORD_CHARS` characters, and a keyword
/// of whitespace alone keeps nothing.
pub proof fn lemma_kept_span(white: Seq<bool>)
    ensures
        0 <= kept_start(white) <= kept_end(white) <= trimmed_end(white) <= white.len(),
        kept_end(white) - kept_start(white) <= MAX_KEYWORD_CHARS,
        forall|i: int| 0 <= i < kept_start(white) ==> white[i],
        kept_start(white) < white.len() ==> !white[kept_start(white)] && kept_start(white)
            < trimmed_end(white),
        forall|i: int| trimmed_end(white) <= i < white.len() ==> white[i],
        kept_start(white) < trimmed_end(white) ==> !white[trimmed_end(white) - 1],
        kept_start(white) == white.len() ==> kept_end(white) == white.len(),
{
    lemma_leading_set(white);
    let start = kept_start(white);
    let rest = white.skip(start);
    lemma_trailing_set(rest);
    let end = trimmed_end(white);
    assert forall|i: int| end <= i < white.len() implies white[i] by {
        assert(white[i] == rest[i - start]);
    }
    if start < white.len() {
        assert(rest[0] == white[start]);
        if trailing_set(rest) == rest.len() {
            assert(rest[0]);
        }
        assert(rest[end - start - 1] == white[end - 1]);
    }
}

/// Where the kept part of a keyword starts and ends, given the whitespace
/// flags of its characters.
pub fn keyword_span(white: &Vec<bool>) -> (span: (usize, usize))
    ensures
        span.0 == kept_start(white@),
        span.1 == kept_end(white@),
{
    let n: usize = white.len();
    let mut start: usize = 0;
    proof {
        assert(white@.skip(0) =~= white@);
    }
    while start < n && white[start]
        invariant
            n == white@.len(),
            start <= n,
            leading_set(white@) == start + leading_set(white@.skip(start as int)),
        decreases n - start,
    {
        proof {
            assert(white@.skip(start as int).drop_first() =~= white@.skip(start + 1));
        }
        start = start + 1;
    }
    let ghost rest = white@.skip(start as int);
    proof {
        assert(rest.len() > 0 ==> rest.first() == white@[start as int]);
        assert(leading_set(rest) == 0);
        assert(rest =~= white@.subrange(start as int, n as int));
    }
    let mut end: usize = n;
    while end > start && white[end - 1]
        invariant
            n == white@.len(),
            start <= end <= n,
            trailing_set(rest) == (n - end) + trailing_set(
                white@.subrange(start as int, end as int),
            ),
        decreases end - start,
    {
        proof {
            assert(white@.subrange(start as int, end as int).drop_last() =~= white@.subrange(
                start as int,
                end - 1,
            ));
        }
        end = end - 1;
    }
    proof {
        let kept = white@.subrange(start as int, end as int);
        assert(kept.len() > 0 ==> kept.last() == white@[end - 1]);
        assert(trailing_set(kept) == 0);
    }
    if end - start > MAX_KEYWORD_CHARS {
        (start, start + MAX_KEYWORD_CHARS)
    } else {
        (start, end)
    }
}

/// The keyword as it is sent: trimmed, and cut to its first
/// `MAX_KEYWORD_CHARS` characters.
pub fn normalize_keyword(keyword: &str) -> (sent: String)
    ensures
        sent@ == normalized(keyword@),
{
    let n: usize = keyword.unicode_len();
    let mut white: Vec<bool> = Vec::new();
    let mut i: usize = 0;
    while i < n
        invariant
            n == keyword@.len(),
            i <= n,
            white@.len() == i,
            forall|j: int| 0 <= j < i ==> white@[j] == is_whitespace(keyword@[j]),
        decreases n - i,
    {
        white.push(char_is_whitespace(keyword.get_char(i)));
        i = i + 1;
    }
    proof {
        assert(white@ =~= whitespace_flags(keyword@));
    }
    let span: (usize, usize) = keyword_span(&white);
    proof {
        lemma_kept_span(white@);
    }
    keyword.substring_char(span.0, span.1).to_owned()
}

/// The keywords as they are sent: the first `MAX_KEYWORDS` of them, in their
/// order, each one normalized.
pub fn normalize_keywords(keywords: Vec<String>) -> (sent: Vec<String>)
    ensures
        sent@.len() == (if keywords@.len() < MAX_KEYWORDS {
            keywords@.len()
        } else {
            MAX_KEYWORDS as nat
        }),
        forall|i: int| 0 <= i < sent@.len() ==> (#[trigger] sent@[i])@ == normalized(keywords@[i]@),
{
    let count: usize = if keywords.len() < MAX_KEYWORDS {
        keywords.len()
    } else {
        MAX_KEYWORDS
    };
    let mut sent: Vec<String> = Vec::new();
    let mut i: usize = 0;
    while i < count
        invariant
            i <= count <= keywords@.len(),
            sent@.len() == i,
            forall|j: int| 0 <= j < i ==> (#[trigger] sent@[j])@ == normalized(keywords@[j]@),
        decreases count - i,
    {
        sent.push(normalize_keyword(keywords[i].as_str()));
        i = i + 1;
    }
    sent
}

} // verus!
