//! Text helpers: views of string lists and whitespace trimming.

use vstd::prelude::*;
use vstd::string::*;

verus! {

/// The strings of a list, each as its characters.
pub open spec fn strings_view(strings: Seq<String>) -> Seq<Seq<char>> {
    Seq::new(strings.len(), |i: int| strings[i]@)
}

/// Whether `c` has the Unicode property `White_Space`.
pub open spec fn is_white_space(c: char) -> bool {
    let u = c as u32;
    ||| 0x09 <= u <= 0x0D
    ||| u == 0x20
    ||| u == 0x85
    ||| u == 0xA0
    ||| u == 0x1680
    ||| 0x2000 <= u <= 0x200A
    ||| u == 0x2028
    ||| u == 0x2029
    ||| u == 0x202F
    ||| u == 0x205F
    ||| u == 0x3000
}

/// The number of white-space characters at the start of `s`.
pub open spec fn leading_white_space(s: Seq<char>) -> nat
    decreases s.len(),
{
    if s.len() > 0 && is_white_space(s[0]) {
        1 + leading_white_space(s.drop_first())
    } else {
        0
    }
}

/// The number of white-space characters at the end of `s`.
pub open spec fn trailing_white_space(s: Seq<char>) -> nat
    decreases s.len(),
{
    if s.len() > 0 && is_white_space(s.last()) {
        1 + trailing_white_space(s.drop_last())
    } else {
        0
    }
}

/// `s` without the white space at its start and at its end.
pub open spec fn trim(s: Seq<char>) -> Seq<char> {
    let rest = s.skip(leading_white_space(s) as int);
    rest.take(rest.len() - trailing_white_space(rest))
}

/// Tests a character for the Unicode property `White_Space`.
pub fn char_is_white_space(c: char) -> (white: bool)
    ensures
        white == is_white_space(c),
{
    let u: u32 = c as u32;
    (0x09 <= u && u <= 0x0D) || u == 0x20 || u == 0x85 || u == 0xA0 || u == 0x1680 || (0x2000 <= u
        && u <= 0x200A) || u == 0x2028 || u == 0x2029 || u == 0x202F || u == 0x205F || u == 0x3000
}

/// Whether `text`, with the white space around it removed, reads `word`.
pub fn trimmed_is(text: &str, word: &str) -> (same: bool)
    ensures
        same == (trim(text@) == word@),
{
    let n: usize = text.unicode_len();
    let mut start: usize = 0;
    proof {
        assert(text@.skip(0) =~= text@);
    }
    while start < n && char_is_white_space(text.get_char(start))
        invariant
            start <= n,
            n == text@.len(),
            leading_white_space(text@) == start + leading_white_space(text@.skip(start as int)),
        decreases n - start,
    {
        proof {
            assert(text@.skip(start as int).drop_first() =~= text@.skip(start + 1));
        }
        start = start + 1;
    }
    let ghost rest = text@.skip(start as int);
    let mut end: usize = n;
    proof {
        assert(leading_white_space(rest) == 0);
        assert(rest.take(rest.len() as int) =~= rest);
    }
    while end > start && char_is_white_space(text.get_char(end - 1))
        invariant
            start <= end <= n,
            n == text@.len(),
            rest == text@.skip(start as int),
            trailing_white_space(rest) == (n - end) + trailing_white_space(
                rest.take(end - start),
            ),
        decreases end,
    {
        proof {
            assert(rest.take(end - start).drop_last() =~= rest.take(end - start - 1));
        }
        end = end - 1;
    }
    proof {
        assert(trailing_white_space(rest.take(end - start)) == 0);
        assert(trim(text@) =~= text@.subrange(start as int, end as int));
    }
    let k: usize = word.unicode_len();
    if end - start != k {
        return false;
    }
    let mut j: usize = 0;
    while j < k
        invariant
            j <= k,
            k == word@.len(),
            start + k == end,
            end <= n,
            n == text@.len(),
            trim(text@) == text@.subrange(start as int, end as int),
            forall|i: int| 0 <= i < j ==> text@[start + i] == word@[i],
        decreases k - j,
    {
        if text.get_char(start + j) != word.get_char(j) {
            proof {
                assert(text@.subrange(start as int, end as int)[j as int] != word@[j as int]);
            }
            return false;
        }
        j = j + 1;
    }
    proof {
        assert(text@.subrange(start as int, end as int) =~= word@);
    }
    true
}

} // verus!
