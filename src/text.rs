//! Line-oriented text handling: the fixed trim window applied to rendered
//! pages.

use vstd::prelude::*;
use vstd::std_specs::iter::IteratorSpec;
use vstd::string::*;

verus! {

/// Lines dropped from the top of a rendered page.
pub const TRIM_HEAD: usize = 30;

/// Lines dropped from the bottom of a rendered page.
pub const TRIM_TAIL: usize = 150;

/// Number of newline characters in `s`.
pub open spec fn count_newlines(s: Seq<char>) -> nat
    decreases s.len(),
{
    if s.len() == 0 {
        0
    } else {
        count_newlines(s.drop_last()) + if s.last() == '\n' { 1nat } else { 0nat }
    }
}

/// Number of lines of `s` when split at every newline (an empty text is one
/// empty line).
pub open spec fn line_count(s: Seq<char>) -> nat {
    count_newlines(s) + 1
}

/// `s[a..b]` is exactly the lines of `s` left once the first `TRIM_HEAD` and
/// the last `TRIM_TAIL` lines are dropped: `a` follows the newline that ends
/// the last dropped head line, and `b` is the newline that ends the last kept
/// line.
pub open spec fn is_trim_window(s: Seq<char>, a: int, b: int) -> bool {
    &&& 0 < a <= b < s.len()
    &&& s[a - 1] == '\n'
    &&& count_newlines(s.subrange(0, a)) == TRIM_HEAD
    &&& s[b] == '\n'
    &&& count_newlines(s.subrange(0, b)) == line_count(s) - TRIM_TAIL - 1
}

/// What the trim window keeps of `s`: nothing when `s` has no more than
/// `TRIM_HEAD + TRIM_TAIL` lines, otherwise the lines between the two cuts,
/// joined by newlines.
pub open spec fn trimmed(s: Seq<char>, r: Seq<char>) -> bool {
    if line_count(s) <= TRIM_HEAD + TRIM_TAIL {
        r == Seq::<char>::empty()
    } else {
        exists|a: int, b: int| is_trim_window(s, a, b) && r == s.subrange(a, b)
    }
}

/// The characters of `s`, in order.
pub(crate) fn chars_of(s: &str) -> (r: Vec<char>)
    ensures
        r@ == s@,
{
    broadcast use vstd::string::axiom_spec_iter, vstd::string::next_postcondition;

    let mut it = s.chars();
    let mut out: Vec<char> = Vec::new();
    loop
        invariant
            it.obeys_prophetic_iter_laws(),
            it.decrease() is Some,
            out@ + it.remaining() == s@,
        ensures
            out@ == s@,
        decreases it.decrease()->0,
    {
        match it.next() {
            Some(c) => {
                out.push(c);
            },
            None => {
                assert(out@ + it.remaining() =~= out@);
                break;
            },
        }
    }
    out
}

proof fn lemma_prefix_step(s: Seq<char>, i: int)
    requires
        0 <= i < s.len(),
    ensures
        count_newlines(s.subrange(0, i + 1)) == count_newlines(s.subrange(0, i)) + if s[i]
            == '\n' {
            1nat
        } else {
            0nat
        },
{
    assert(s.subrange(0, i + 1).drop_last() =~= s.subrange(0, i));
}

proof fn lemma_prefix_monotone(s: Seq<char>, i: int, j: int)
    requires
        0 <= i <= j <= s.len(),
    ensures
        count_newlines(s.subrange(0, i)) <= count_newlines(s.subrange(0, j)),
    decreases j - i,
{
    if i < j {
        lemma_prefix_step(s, j - 1);
        lemma_prefix_monotone(s, i, j - 1);
    }
}

/// The trim window of a text is unique, so `trimmed` fixes the kept text.
pub proof fn lemma_trim_window_unique(s: Seq<char>, a1: int, b1: int, a2: int, b2: int)
    requires
        is_trim_window(s, a1, b1),
        is_trim_window(s, a2, b2),
    ensures
        a1 == a2,
        b1 == b2,
{
    if a1 < a2 {
        lemma_prefix_step(s, a2 - 1);
        lemma_prefix_monotone(s, a1, a2 - 1);
    } else if a2 < a1 {
        lemma_prefix_step(s, a1 - 1);
        lemma_prefix_monotone(s, a2, a1 - 1);
    }
    if b1 < b2 {
        lemma_prefix_step(s, b1);
        lemma_prefix_monotone(s, b1 + 1, b2);
    } else if b2 < b1 {
        lemma_prefix_step(s, b2);
        lemma_prefix_monotone(s, b2 + 1, b1);
    }
}

/// Counts the newline characters of `chars`.
fn newlines_in(chars: &Vec<char>) -> (n: usize)
    ensures
        n == count_newlines(chars@),
{
    let mut n: usize = 0;
    let mut i: usize = 0;
    while i < chars.len()
        invariant
            i <= chars@.len(),
            n <= i,
            n == count_newlines(chars@.subrange(0, i as int)),
        decreases chars.len() - i,
    {
        proof {
            lemma_prefix_step(chars@, i as int);
        }
        if chars[i] == '\n' {
            n = n + 1;
        }
        i = i + 1;
    }
    assert(chars@.subrange(0, chars@.len() as int) =~= chars@);
    n
}

/// Drops the first `TRIM_HEAD` and the last `TRIM_TAIL` lines of `text` and
/// returns the rest; a text with no more lines than that yields the empty
/// string.
pub fn trim_window(text: &str) -> (r: String)
    ensures
        trimmed(text@, r@),
{
    let chars = chars_of(text);
    let total = newlines_in(&chars);
    if total < TRIM_HEAD + TRIM_TAIL {
        return String::new();
    }
    let last_kept = total - TRIM_TAIL;
    let mut start: Option<usize> = None;
    let mut end: Option<usize> = None;
    let mut n: usize = 0;
    let mut i: usize = 0;
    while i < chars.len()
        invariant
            chars@ == text@,
            total == count_newlines(chars@),
            last_kept == total - TRIM_TAIL,
            last_kept >= TRIM_HEAD,
            i <= chars@.len(),
            n <= i,
            n == count_newlines(chars@.subrange(0, i as int)),
            start is Some <==> n >= TRIM_HEAD,
            start matches Some(a) ==> 0 < a <= i && chars@[a - 1] == '\n' && count_newlines(
                chars@.subrange(0, a as int),
            ) == TRIM_HEAD,
            end is Some <==> n > last_kept,
            end matches Some(b) ==> b < i && chars@[b as int] == '\n' && count_newlines(
                chars@.subrange(0, b as int),
            ) == last_kept,
            end matches Some(b) ==> start matches Some(a) && a <= b,
        decreases chars.len() - i,
    {
        proof {
            lemma_prefix_step(chars@, i as int);
        }
        if chars[i] == '\n' {
            if n == last_kept {
                end = Some(i);
            }
            n = n + 1;
            if n == TRIM_HEAD {
                start = Some(i + 1);
            }
        }
        i = i + 1;
    }
    assert(chars@.subrange(0, chars@.len() as int) =~= chars@);
    let a = start.unwrap();
    let b = end.unwrap();
    let r = text.substring_char(a, b).to_owned();
    assert(is_trim_window(text@, a as int, b as int));
    r
}

} // verus!
