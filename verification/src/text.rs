//! Text as sequences of characters: where a character first and last
//! occurs, how often it occurs, and what it means for one text to occur in
//! another.

use vstd::prelude::*;

verus! {

/// The length of the longest prefix of `s` in which `c` does not occur.
/// It is `s.len()` exactly when `c` does not occur in `s`, and the index of
/// the first `c` otherwise.
pub open spec fn leading_without(s: Seq<char>, c: char) -> nat
    decreases s.len(),
{
    if s.len() == 0 || s[0] == c {
        0
    } else {
        1 + leading_without(s.drop_first(), c)
    }
}

/// The length of the longest suffix of `s` in which `c` does not occur.
pub open spec fn trailing_without(s: Seq<char>, c: char) -> nat
    decreases s.len(),
{
    if s.len() == 0 || s.last() == c {
        0
    } else {
        1 + trailing_without(s.drop_last(), c)
    }
}

/// How many times `c` occurs in `s`.
pub open spec fn occurrences(s: Seq<char>, c: char) -> nat
    decreases s.len(),
{
    if s.len() == 0 {
        0
    } else {
        occurrences(s.drop_last(), c) + if s.last() == c {
            1nat
        } else {
            0nat
        }
    }
}

/// `needle` stands in `hay` from index `at` on.
pub open spec fn occurs_at(hay: Seq<char>, needle: Seq<char>, at: int) -> bool {
    &&& 0 <= at
    &&& at + needle.len() <= hay.len()
    &&& hay.subrange(at, at + needle.len()) == needle
}

/// `needle` stands somewhere in `hay`. The empty text stands in every text.
pub open spec fn is_substring(hay: Seq<char>, needle: Seq<char>) -> bool {
    exists|at: int| occurs_at(hay, needle, at)
}

/// The empty text stands in every text.
pub proof fn lemma_empty_is_substring(hay: Seq<char>, needle: Seq<char>)
    requires
        needle.len() == 0,
    ensures
        is_substring(hay, needle),
{
    assert(hay.subrange(0, 0) =~= needle);
    assert(occurs_at(hay, needle, 0));
}

/// The views of a sequence of texts, in the same order.
pub open spec fn texts(strings: Seq<String>) -> Seq<Seq<char>> {
    Seq::new(strings.len(), |i: int| strings[i]@)
}

/// What `leading_without` counts: `n` characters other than `c`, and then
/// either the end of `s` or a `c`.
pub open spec fn is_leading_run(s: Seq<char>, c: char, n: int) -> bool {
    &&& 0 <= n <= s.len()
    &&& forall|j: int| 0 <= j < n ==> s[j] != c
    &&& n < s.len() ==> s[n] == c
}

/// What `trailing_without` counts: `n` characters other than `c` at the end
/// of `s`, and before them either the start of `s` or a `c`.
pub open spec fn is_trailing_run(s: Seq<char>, c: char, n: int) -> bool {
    &&& 0 <= n <= s.len()
    &&& forall|j: int| s.len() - n <= j < s.len() ==> s[j] != c
    &&& n < s.len() ==> s[s.len() - n - 1] == c
}

/// `leading_without` is a leading run.
pub proof fn lemma_leading_without(s: Seq<char>, c: char)
    ensures
        is_leading_run(s, c, leading_without(s, c) as int),
    decreases s.len(),
{
    if s.len() > 0 && s[0] != c {
        let rest = s.drop_first();
        lemma_leading_without(rest, c);
        let n = leading_without(rest, c) as int;
        assert forall|j: int| 0 <= j < n + 1 implies s[j] != c by {
            if j > 0 {
                assert(s[j] == rest[j - 1]);
            }
        }
    }
}

/// There is one leading run only.
pub proof fn lemma_leading_run_unique(s: Seq<char>, c: char, n: int)
    requires
        is_leading_run(s, c, n),
    ensures
        n == leading_without(s, c),
    decreases s.len(),
{
    if n > 0 {
        lemma_leading_run_unique(s.drop_first(), c, n - 1);
    }
}

/// `trailing_without` is a trailing run.
pub proof fn lemma_trailing_without(s: Seq<char>, c: char)
    ensures
        is_trailing_run(s, c, trailing_without(s, c) as int),
    decreases s.len(),
{
    if s.len() > 0 && s.last() != c {
        let rest = s.drop_last();
        lemma_trailing_without(rest, c);
        let n = trailing_without(rest, c) as int;
        assert forall|j: int| s.len() - (n + 1) <= j < s.len() implies s[j] != c by {
            if j < s.len() - 1 {
                assert(s[j] == rest[j]);
            }
        }
    }
}

/// There is one trailing run only.
pub proof fn lemma_trailing_run_unique(s: Seq<char>, c: char, n: int)
    requires
        is_trailing_run(s, c, n),
    ensures
        n == trailing_without(s, c),
    decreases s.len(),
{
    if n > 0 {
        lemma_trailing_run_unique(s.drop_last(), c, n - 1);
    }
}

/// The characters of `s`, in order.
pub(crate) fn chars_of(s: &str) -> (chars: Vec<char>)
    ensures
        chars@ == s@,
{
    let mut chars: Vec<char> = Vec::new();
    for c in it: s.chars()
        invariant
            chars@ == it.seq().subrange(0, it.index() as int),
            it.seq() == s@,
    {
        chars.push(c);
    }
    chars
}

/// Appends `chars[from..to]` to `s`.
pub(crate) fn push_chars(s: &mut String, chars: &Vec<char>, from: usize, to: usize)
    requires
        from <= to <= chars@.len(),
    ensures
        final(s)@ == old(s)@ + chars@.subrange(from as int, to as int),
{
    let mut i: usize = from;
    while i < to
        invariant
            from <= i <= to <= chars@.len(),
            s@ == old(s)@ + chars@.subrange(from as int, i as int),
        decreases to - i,
    {
        s.push(chars[i]);
        i += 1;
    }
}

/// The text made of `chars[from..to]`.
pub(crate) fn string_of(chars: &Vec<char>, from: usize, to: usize) -> (s: String)
    requires
        from <= to <= chars@.len(),
    ensures
        s@ == chars@.subrange(from as int, to as int),
{
    let mut s = String::new();
    push_chars(&mut s, chars, from, to);
    s
}

/// The length of the longest prefix of `chars` without `c`.
pub(crate) fn leading_run(chars: &Vec<char>, c: char) -> (n: usize)
    ensures
        n == leading_without(chars@, c),
        n <= chars@.len(),
{
    let mut n: usize = 0;
    while n < chars.len() && chars[n] != c
        invariant
            n <= chars@.len(),
            forall|j: int| 0 <= j < n ==> chars@[j] != c,
        decreases chars@.len() - n,
    {
        n += 1;
    }
    proof {
        lemma_leading_run_unique(chars@, c, n as int);
    }
    n
}

/// The length of the longest suffix of `chars` without `c`.
pub(crate) fn trailing_run(chars: &Vec<char>, c: char) -> (n: usize)
    ensures
        n == trailing_without(chars@, c),
        n <= chars@.len(),
{
    let len = chars.len();
    let mut n: usize = 0;
    while n < len && chars[len - n - 1] != c
        invariant
            len == chars@.len(),
            n <= len,
            forall|j: int| len - n <= j < len ==> chars@[j] != c,
        decreases len - n,
    {
        n += 1;
    }
    proof {
        lemma_trailing_run_unique(chars@, c, n as int);
    }
    n
}

/// How many times `c` occurs in `s`.
pub(crate) fn count_char(s: &str, c: char) -> (n: usize)
    ensures
        n == occurrences(s@, c),
{
    let chars = chars_of(s);
    let mut n: usize = 0;
    let mut i: usize = 0;
    while i < chars.len()
        invariant
            i <= chars@.len(),
            n <= i,
            n == occurrences(chars@.subrange(0, i as int), c),
        decreases chars@.len() - i,
    {
        assert(chars@.subrange(0, i + 1).drop_last() == chars@.subrange(0, i as int));
        if chars[i] == c {
            n += 1;
        }
        i += 1;
    }
    assert(chars@.subrange(0, i as int) == chars@);
    n
}

/// The lower-case form that `str::to_lowercase` gives a text.
pub uninterp spec fn lowercase(text: Seq<char>) -> Seq<char>;

/// The number of terminal columns that `UnicodeWidthStr::width` counts for
/// a text.
pub uninterp spec fn display_width(text: Seq<char>) -> nat;

/// `String::push` appends one character.
pub assume_specification[ String::push ](s: &mut String, c: char)
    ensures
        final(s)@ == old(s)@.push(c),
;

/// `str::contains` with a text as its pattern: whether the pattern stands
/// somewhere in the text.
#[verifier::external_body]
pub(crate) fn contains(hay: &str, needle: &str) -> (found: bool)
    ensures
        found == is_substring(hay@, needle@),
{
    hay.contains(needle)
}

/// `str::to_lowercase`: the lower-case form of a text, which depends on
/// the text alone. It is made character by character, so the empty text
/// has the empty text as its lower-case form.
#[verifier::external_body]
pub(crate) fn to_lowercase(s: &str) -> (lower: String)
    ensures
        lower@ == lowercase(s@),
        s@.len() == 0 ==> lower@.len() == 0,
{
    s.to_lowercase()
}

/// `unicode_width::UnicodeWidthStr::width`: the displayed width of a text
/// in columns, which depends on the text alone.
#[verifier::external_body]
pub(crate) fn width(s: &str) -> (columns: usize)
    ensures
        columns == display_width(s@),
{
    unicode_width::UnicodeWidthStr::width(s)
}

} // verus!
