//! Whitespace and trimming of text runs.

use vstd::prelude::*;

verus! {

/// Whether `c` has the Unicode property `White_Space`.
pub open spec fn is_whitespace(c: char) -> bool {
    let u = c as u32;
    ||| 0x09 <= u <= 0x0D
    ||| u == 0x20
    ||| u == 0x85
    ||| u == 0xA0
    ||| u == 0x1680
    ||| 0x2000 <= u <= 0x200A
    ||| u == 0x2028
    ||| u == 0x2029
    ||| u == 0x202F
    ||| u == 0x205F
    ||| u == 0x3000
}

/// The number of whitespace characters that `s` starts with.
pub open spec fn leading_whitespace(s: Seq<char>) -> nat
    decreases s.len(),
{
    if s.len() > 0 && is_whitespace(s[0]) {
        1 + leading_whitespace(s.drop_first())
    } else {
        0
    }
}

/// The number of whitespace characters that `s` ends with.
pub open spec fn trailing_whitespace(s: Seq<char>) -> nat
    decreases s.len(),
{
    if s.len() > 0 && is_whitespace(s.last()) {
        1 + trailing_whitespace(s.drop_last())
    } else {
        0
    }
}

/// `s` without its leading and trailing whitespace.
pub open spec fn trimmed(s: Seq<char>) -> Seq<char> {
    if leading_whitespace(s) == s.len() {
        Seq::empty()
    } else {
        s.subrange(leading_whitespace(s) as int, s.len() - trailing_whitespace(s))
    }
}

/// Whether every character of `s` is whitespace.
pub open spec fn is_blank(s: Seq<char>) -> bool {
    forall|i: int| 0 <= i < s.len() ==> is_whitespace(#[trigger] s[i])
}

/// Whether `s` neither starts nor ends with whitespace.
pub open spec fn is_trimmed(s: Seq<char>) -> bool {
    s.len() > 0 ==> !is_whitespace(s[0]) && !is_whitespace(s.last())
}

/// `leading_whitespace(s)` is the index of the first character of `s` that is
/// not whitespace, or the length of `s` where there is none.
pub proof fn lemma_leading_whitespace(s: Seq<char>, a: int)
    requires
        0 <= a <= s.len(),
        forall|j: int| 0 <= j < a ==> is_whitespace(#[trigger] s[j]),
        a < s.len() ==> !is_whitespace(s[a]),
    ensures
        leading_whitespace(s) == a,
    decreases a,
{
    if a > 0 {
        let rest = s.drop_first();
        assert forall|j: int| 0 <= j < a - 1 implies is_whitespace(#[trigger] rest[j]) by {
            assert(rest[j] == s[j + 1]);
        }
        lemma_leading_whitespace(rest, a - 1);
    }
}

/// `s.len() - trailing_whitespace(s)` is the index after the last character
/// of `s` that is not whitespace, or 0 where there is none.
pub proof fn lemma_trailing_whitespace(s: Seq<char>, b: int)
    requires
        0 <= b <= s.len(),
        forall|j: int| b <= j < s.len() ==> is_whitespace(#[trigger] s[j]),
        b > 0 ==> !is_whitespace(s[b - 1]),
    ensures
        trailing_whitespace(s) == s.len() - b,
    decreases s.len() - b,
{
    if b < s.len() {
        let rest = s.drop_last();
        assert forall|j: int| b <= j < rest.len() implies is_whitespace(#[trigger] rest[j]) by {
            assert(rest[j] == s[j]);
        }
        lemma_trailing_whitespace(rest, b);
    }
}

/// The whitespace that `s` starts with is whitespace, and what follows it is
/// not.
pub proof fn lemma_leading_whitespace_bounds(s: Seq<char>)
    ensures
        leading_whitespace(s) <= s.len(),
        forall|j: int| 0 <= j < leading_whitespace(s) ==> is_whitespace(#[trigger] s[j]),
        leading_whitespace(s) < s.len() ==> !is_whitespace(s[leading_whitespace(s) as int]),
    decreases s.len(),
{
    if s.len() > 0 && is_whitespace(s[0]) {
        let rest = s.drop_first();
        lemma_leading_whitespace_bounds(rest);
        assert forall|j: int| 0 <= j < leading_whitespace(s) implies is_whitespace(
            #[trigger] s[j],
        ) by {
            if j > 0 {
                assert(s[j] == rest[j - 1]);
            }
        }
        if leading_whitespace(s) < s.len() {
            assert(s[leading_whitespace(s) as int] == rest[leading_whitespace(rest) as int]);
        }
    }
}

/// The whitespace that `s` ends with is whitespace, and what precedes it is
/// not.
pub proof fn lemma_trailing_whitespace_bounds(s: Seq<char>)
    ensures
        trailing_whitespace(s) <= s.len(),
        forall|j: int|
            s.len() - trailing_whitespace(s) <= j < s.len() ==> is_whitespace(#[trigger] s[j]),
        trailing_whitespace(s) < s.len() ==> !is_whitespace(
            s[s.len() - trailing_whitespace(s) - 1],
        ),
    decreases s.len(),
{
    if s.len() > 0 && is_whitespace(s.last()) {
        let rest = s.drop_last();
        lemma_trailing_whitespace_bounds(rest);
        assert forall|j: int| s.len() - trailing_whitespace(s) <= j < s.len() implies is_whitespace(
            #[trigger] s[j],
        ) by {
            if j < s.len() - 1 {
                assert(s[j] == rest[j]);
            }
        }
        if trailing_whitespace(s) < s.len() {
            assert(s[s.len() - trailing_whitespace(s) - 1] == rest[rest.len() - trailing_whitespace(
                rest,
            ) - 1]);
        }
    }
}

/// Trimming keeps a middle part of the text, removes nothing but whitespace,
/// and leaves no whitespace at either end.
pub proof fn lemma_trimmed_is_trimmed(s: Seq<char>)
    ensures
        is_trimmed(trimmed(s)),
        exists|a: int, b: int|
            0 <= a <= b <= s.len() && #[trigger] s.subrange(a, b) == trimmed(s) && is_blank(
                s.subrange(0, a),
            ) && is_blank(s.subrange(b, s.len() as int)),
{
    lemma_leading_whitespace_bounds(s);
    lemma_trailing_whitespace_bounds(s);
    let a = leading_whitespace(s) as int;
    if a == s.len() {
        assert(s.subrange(a, a) =~= trimmed(s));
        assert(is_blank(s.subrange(0, a)));
        assert(is_blank(s.subrange(a, s.len() as int)));
    } else {
        let b = s.len() - trailing_whitespace(s);
        if b <= a {
            assert(is_whitespace(s[a]));
        }
        assert(s.subrange(a, b)[0] == s[a]);
        assert(s.subrange(a, b).last() == s[b - 1]);
        assert(is_blank(s.subrange(0, a)));
        assert(is_blank(s.subrange(b, s.len() as int)));
    }
}

/// Trimming leaves text behind if and only if some character is not
/// whitespace.
pub proof fn lemma_trimmed_empty_iff_blank(s: Seq<char>)
    ensures
        trimmed(s).len() == 0 <==> is_blank(s),
{
    lemma_leading_whitespace_bounds(s);
    lemma_trailing_whitespace_bounds(s);
    let a = leading_whitespace(s) as int;
    if a < s.len() {
        let b = s.len() - trailing_whitespace(s);
        if b <= a {
            assert(is_whitespace(s[a]));
        }
        assert(!is_whitespace(s[a]));
    }
}

/// Trimming text that is already trimmed changes nothing.
pub proof fn lemma_trimmed_idempotent(s: Seq<char>)
    ensures
        trimmed(trimmed(s)) == trimmed(s),
{
    lemma_trimmed_is_trimmed(s);
    let t = trimmed(s);
    if t.len() > 0 {
        lemma_leading_whitespace(t, 0);
        lemma_trailing_whitespace(t, t.len() as int);
        assert(t.subrange(0, t.len() as int) =~= t);
    }
}

/// Whether `c` is a whitespace character.
pub fn is_space(c: char) -> (b: bool)
    ensures
        b == is_whitespace(c),
{
    let u: u32 = c as u32;
    (0x09 <= u && u <= 0x0D) || u == 0x20 || u == 0x85 || u == 0xA0 || u == 0x1680 || (0x2000 <= u
        && u <= 0x200A) || u == 0x2028 || u == 0x2029 || u == 0x202F || u == 0x205F || u == 0x3000
}

/// Returns `s` without its leading and trailing whitespace.
pub fn trim(s: &str) -> (t: String)
    ensures
        t@ == trimmed(s@),
{
    let n: usize = s.unicode_len();
    let mut first: usize = n;
    let mut end: usize = 0;
    let mut i: usize = 0;
    for c in it: s.chars()
        invariant
            n == s@.len(),
            it.seq() == s@,
            i == it.index(),
            i <= n,
            first <= n,
            end <= i,
            forall|j: int| 0 <= j < i && j < first ==> is_whitespace(#[trigger] s@[j]),
            first < n ==> first < i && !is_whitespace(s@[first as int]),
            forall|j: int| end <= j < i ==> is_whitespace(#[trigger] s@[j]),
            end > 0 ==> !is_whitespace(s@[end - 1]),
            first < n ==> first < end,
            first == n ==> end == 0,
    {
        if !is_space(c) {
            if first == n {
                first = i;
            }
            end = i + 1;
        }
        i = i + 1;
    }
    proof {
        lemma_leading_whitespace(s@, first as int);
        lemma_trailing_whitespace(s@, end as int);
    }
    if first == n {
        String::new()
    } else {
        s.substring_char(first, end).to_owned()
    }
}

} // verus!
