use vstd::prelude::*;

verus! {

/// The contribution of one character to the running parenthesis count.
pub open spec fn char_delta(c: char) -> int {
    if c == '(' {
        1
    } else if c == ')' {
        -1
    } else {
        0
    }
}

/// Opening minus closing parentheses over a whole text.
pub open spec fn paren_delta(s: Seq<char>) -> int
    decreases s.len(),
{
    if s.len() == 0 {
        0
    } else {
        char_delta(s[0]) + paren_delta(s.drop_first())
    }
}

/// Starting from `c` open parentheses, the running count never drops
/// below zero while reading `s`.
pub open spec fn paren_ok_from(s: Seq<char>, c: int) -> bool
    decreases s.len(),
{
    if s.len() == 0 {
        true
    } else {
        c + char_delta(s[0]) >= 0 && paren_ok_from(s.drop_first(), c + char_delta(s[0]))
    }
}

/// A text is parenthesis-balanced: every prefix has at least as many
/// opening as closing parentheses, and the whole text has equally many.
pub open spec fn balanced(s: Seq<char>) -> bool {
    paren_delta(s) == 0 && paren_ok_from(s, 0)
}

/// The characters the emitted expression grammar is built from:
/// identifier letters, digits, and its punctuation.
pub open spec fn allowed_char(c: char) -> bool {
    ('a' <= c && c <= 'z') || ('A' <= c && c <= 'Z') || ('0' <= c && c <= '9') || c == '(' || c
        == ')' || c == ' ' || c == '.' || c == ',' || c == '+' || c == '*' || c == '-' || c == '>'
        || c == '_'
}

/// Every character of the text is drawn from the emitted grammar's set.
pub open spec fn allowed_text(s: Seq<char>) -> bool {
    forall|i: int| 0 <= i < s.len() ==> allowed_char(#[trigger] s[i])
}

/// Splitting a concatenation for the recursive definitions: dropping the
/// first character of `a + b` drops it from `a` when `a` is nonempty.
proof fn lemma_concat_drop_first(a: Seq<char>, b: Seq<char>)
    requires
        a.len() > 0,
    ensures
        (a + b).drop_first() == a.drop_first() + b,
        (a + b)[0] == a[0],
{
    assert((a + b).drop_first() =~= a.drop_first() + b);
}

/// The parenthesis count of a concatenation is the sum of the counts.
pub proof fn lemma_delta_concat(a: Seq<char>, b: Seq<char>)
    ensures
        paren_delta(a + b) == paren_delta(a) + paren_delta(b),
    decreases a.len(),
{
    if a.len() == 0 {
        assert(a + b =~= b);
    } else {
        lemma_concat_drop_first(a, b);
        lemma_delta_concat(a.drop_first(), b);
    }
}

/// The prefix condition over a concatenation splits into the prefix
/// condition of each part, the second starting where the first ended.
pub proof fn lemma_ok_concat(a: Seq<char>, b: Seq<char>, c: int)
    ensures
        paren_ok_from(a + b, c) <==> (paren_ok_from(a, c) && paren_ok_from(b, c + paren_delta(a))),
    decreases a.len(),
{
    if a.len() == 0 {
        assert(a + b =~= b);
    } else {
        lemma_concat_drop_first(a, b);
        lemma_ok_concat(a.drop_first(), b, c + char_delta(a[0]));
        lemma_delta_concat(a.drop_first(), b);
    }
}

/// Raising the starting count preserves the prefix condition.
pub proof fn lemma_ok_mono(s: Seq<char>, c1: int, c2: int)
    requires
        paren_ok_from(s, c1),
        c1 <= c2,
    ensures
        paren_ok_from(s, c2),
    decreases s.len(),
{
    if s.len() > 0 {
        lemma_ok_mono(s.drop_first(), c1 + char_delta(s[0]), c2 + char_delta(s[0]));
    }
}

/// A text without parentheses leaves the count unchanged and, started
/// nonnegative, never drops it below zero.
pub proof fn lemma_neutral_text(s: Seq<char>, c: int)
    requires
        c >= 0,
        forall|i: int| 0 <= i < s.len() ==> char_delta(#[trigger] s[i]) == 0,
    ensures
        paren_delta(s) == 0,
        paren_ok_from(s, c),
    decreases s.len(),
{
    if s.len() > 0 {
        assert forall|i: int| 0 <= i < s.drop_first().len() implies char_delta(
            #[trigger] s.drop_first()[i],
        ) == 0 by {
            assert(s.drop_first()[i] == s[i + 1]);
        }
        lemma_neutral_text(s.drop_first(), c);
    }
}

/// A concatenation over the grammar's character set stays in it.
pub proof fn lemma_allowed_concat(a: Seq<char>, b: Seq<char>)
    requires
        allowed_text(a),
        allowed_text(b),
    ensures
        allowed_text(a + b),
{
    assert forall|i: int| 0 <= i < (a + b).len() implies allowed_char(#[trigger] (a + b)[i]) by {
        if i < a.len() {
            assert(allowed_char(a[i]));
        } else {
            assert(allowed_char(b[i - a.len()]));
        }
    }
}

} // verus!
