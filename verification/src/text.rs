//! Character-wise access to text: slicing by character count, and trimming.

use vstd::prelude::*;
use vstd::string::*;

verus! {

/// Whether a character has the Unicode property White_Space, as
/// `char::is_whitespace` tells it.
pub uninterp spec fn white_space(c: char) -> bool;

/// `char::is_whitespace` answers with the White_Space property of its
/// argument and nothing else.
pub assume_specification[ char::is_whitespace ](c: char) -> (b: bool)
    ensures
        b == white_space(c),
;

/// The number of white-space characters at the start of `s`.
pub open spec fn leading_space(s: Seq<char>) -> nat
    decreases s.len(),
{
    if s.len() > 0 && white_space(s[0]) {
        1 + leading_space(s.skip(1))
    } else {
        0
    }
}

/// The number of white-space characters at the end of `s`.
pub open spec fn trailing_space(s: Seq<char>) -> nat
    decreases s.len(),
{
    if s.len() > 0 && white_space(s.last()) {
        1 + trailing_space(s.drop_last())
    } else {
        0
    }
}

/// `s` without the white space at its start and at its end.
pub open spec fn trimmed(s: Seq<char>) -> Seq<char> {
    let rest = s.skip(leading_space(s) as int);
    rest.take(rest.len() - trailing_space(rest))
}

/// Whether `s` holds nothing but white space.
pub open spec fn blank(s: Seq<char>) -> bool {
    trimmed(s).len() == 0
}

/// The white space at the start of a text is no longer than the text.
pub proof fn lemma_leading_space_bound(s: Seq<char>)
    ensures
        leading_space(s) <= s.len(),
    decreases s.len(),
{
    if s.len() > 0 && white_space(s[0]) {
        lemma_leading_space_bound(s.skip(1));
    }
}

/// The white space at the end of a text is no longer than the text.
pub proof fn lemma_trailing_space_bound(s: Seq<char>)
    ensures
        trailing_space(s) <= s.len(),
    decreases s.len(),
{
    if s.len() > 0 && white_space(s.last()) {
        lemma_trailing_space_bound(s.drop_last());
    }
}

/// Counting from the front: once `i` leading characters are known to be
/// white space, the count for the whole is `i` plus the count for the rest.
proof fn lemma_leading_space_step(s: Seq<char>, i: int)
    requires
        0 <= i <= s.len(),
        forall|j: int| 0 <= j < i ==> white_space(s[j]),
    ensures
        leading_space(s) == i + leading_space(s.skip(i)),
    decreases i,
{
    if i == 0 {
        assert(s.skip(0) =~= s);
    } else {
        lemma_leading_space_step(s.skip(1), i - 1);
        assert(s.skip(1).skip(i - 1) =~= s.skip(i));
    }
}

/// Counting from the back, likewise.
proof fn lemma_trailing_space_step(s: Seq<char>, i: int)
    requires
        0 <= i <= s.len(),
        forall|j: int| s.len() - i <= j < s.len() ==> white_space(s[j]),
    ensures
        trailing_space(s) == i + trailing_space(s.take(s.len() - i)),
    decreases i,
{
    if i == 0 {
        assert(s.take(s.len() as int) =~= s);
    } else {
        lemma_trailing_space_step(s.drop_last(), i - 1);
        assert(s.drop_last().take(s.len() - 1 - (i - 1)) =~= s.take(s.len() - i));
    }
}

/// A text of white space only is blank, and so is the empty text.
pub proof fn lemma_all_space_is_blank(s: Seq<char>)
    requires
        forall|i: int| 0 <= i < s.len() ==> white_space(s[i]),
    ensures
        blank(s),
{
    lemma_leading_space_step(s, s.len() as int);
    assert(s.skip(s.len() as int) =~= Seq::<char>::empty());
}

/// A blank text holds white space only.
pub proof fn lemma_blank_is_all_space(s: Seq<char>)
    requires
        blank(s),
    ensures
        forall|i: int| 0 <= i < s.len() ==> white_space(s[i]),
    decreases s.len(),
{
    lemma_leading_space_bound(s);
    let rest = s.skip(leading_space(s) as int);
    lemma_trailing_space_bound(rest);
    if s.len() > 0 {
        if white_space(s[0]) {
            // What follows the first character is blank too.
            let t = s.skip(1);
            assert(t.skip(leading_space(t) as int) =~= rest);
            lemma_blank_is_all_space(t);
            assert forall|i: int| 0 <= i < s.len() implies white_space(s[i]) by {
                if i > 0 {
                    assert(s[i] == t[i - 1]);
                }
            }
        } else {
            // Nothing is cut off in front, so all of `s` is cut off behind.
            assert(rest =~= s);
            lemma_trailing_all(s);
        }
    }
}

/// Where the white space at the end of a text is the whole text, every
/// character is white space.
proof fn lemma_trailing_all(s: Seq<char>)
    requires
        trailing_space(s) == s.len(),
    ensures
        forall|i: int| 0 <= i < s.len() ==> white_space(s[i]),
    decreases s.len(),
{
    if s.len() > 0 {
        lemma_trailing_space_bound(s.drop_last());
        lemma_trailing_all(s.drop_last());
        assert forall|i: int| 0 <= i < s.len() implies white_space(s[i]) by {
            if i < s.len() - 1 {
                assert(s[i] == s.drop_last()[i]);
            }
        }
    }
}

/// Whether the character at position `i` of `s` is `c`; false past the end.
pub fn has_char_at(s: &str, i: usize, c: char) -> (res: bool)
    ensures
        res == (i < s@.len() && s@[i as int] == c),
{
    i < s.unicode_len() && s.get_char(i) == c
}

/// `s` from its character `n` on.
pub fn skip_chars(s: &str, n: usize) -> (res: &str)
    requires
        n <= s@.len(),
    ensures
        res@ == s@.skip(n as int),
{
    s.substring_char(n, s.unicode_len())
}

/// The first `n` characters of `s`.
pub fn take_chars(s: &str, n: usize) -> (res: &str)
    requires
        n <= s@.len(),
    ensures
        res@ == s@.take(n as int),
{
    s.substring_char(0, n)
}

/// `s` without the white space at its start and at its end.
pub fn trim(s: &str) -> (res: &str)
    ensures
        res@ == trimmed(s@),
{
    let len = s.unicode_len();
    let mut start: usize = 0;
    while start < len && s.get_char(start).is_whitespace()
        invariant
            start <= len == s@.len(),
            forall|j: int| 0 <= j < start ==> white_space(s@[j]),
        decreases len - start,
    {
        start += 1;
    }
    proof {
        lemma_leading_space_step(s@, start as int);
    }
    let rest = skip_chars(s, start);
    let ghost r = rest@;
    let mut end: usize = len - start;
    while end > 0 && rest.get_char(end - 1).is_whitespace()
        invariant
            end <= r.len(),
            rest@ == r,
            forall|j: int| end <= j < r.len() ==> white_space(r[j]),
        decreases end,
    {
        end -= 1;
    }
    proof {
        lemma_trailing_space_step(r, r.len() - end);
    }
    take_chars(rest, end)
}

/// Whether `s` holds nothing but white space.
pub fn is_blank(s: &str) -> (res: bool)
    ensures
        res == blank(s@),
{
    trim(s).unicode_len() == 0
}

} // verus!
