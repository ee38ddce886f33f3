//! Small verified operations on text.

use vstd::prelude::*;
use vstd::utf8::is_ascii_chars;

verus! {

/// The position of the last `c` in `s`, or `-1` where `s` holds none.
pub open spec fn last_index_of(s: Seq<char>, c: char) -> int
    decreases s.len(),
{
    if s.len() == 0 {
        -1
    } else if s.last() == c {
        s.len() - 1
    } else {
        last_index_of(s.drop_last(), c)
    }
}

/// What follows the last `c` in `s`: all of `s` where it holds none.
pub open spec fn after_last(s: Seq<char>, c: char) -> Seq<char> {
    s.skip(last_index_of(s, c) + 1)
}

/// `last_index_of` is the one position that holds `c` and has no `c` behind it.
pub proof fn lemma_last_index_of(s: Seq<char>, c: char)
    ensures
        -1 <= last_index_of(s, c) < s.len(),
        last_index_of(s, c) >= 0 ==> s[last_index_of(s, c)] == c,
        forall|i: int| last_index_of(s, c) < i < s.len() ==> s[i] != c,
    decreases s.len(),
{
    if s.len() > 0 && s.last() != c {
        let front = s.drop_last();
        lemma_last_index_of(front, c);
        assert forall|i: int| last_index_of(s, c) < i < s.len() implies s[i] != c by {
            if i < front.len() {
                assert(front[i] == s[i]);
            }
        }
    }
}

/// A position that holds `c` and has no `c` behind it is `last_index_of`.
pub proof fn lemma_last_index_is(s: Seq<char>, c: char, k: int)
    requires
        -1 <= k < s.len(),
        k >= 0 ==> s[k] == c,
        forall|i: int| k < i < s.len() ==> s[i] != c,
    ensures
        last_index_of(s, c) == k,
{
    lemma_last_index_of(s, c);
}

/// The part of `path` behind its last `/`.
pub fn last_segment(path: &str) -> (segment: &str)
    ensures
        segment@ == after_last(path@, '/'),
{
    let ghost text = path@;
    let len = path.unicode_len();
    let mut count: usize = 0;
    let mut start: usize = 0;
    for c in it: path.chars()
        invariant
            it.seq() == text,
            len == text.len(),
            count == it.index(),
            0 <= start <= count,
            start == last_index_of(text.take(count as int), '/') + 1,
    {
        proof {
            let prefix = text.take(count + 1);
            assert(prefix.drop_last() =~= text.take(count as int));
            assert(prefix.last() == c);
        }
        count = count + 1;
        if c == '/' {
            start = count;
        }
    }
    assert(text.take(count as int) =~= text);
    path.substring_char(start, len)
}

/// `s` begins with `prefix`.
pub open spec fn has_prefix(s: Seq<char>, prefix: Seq<char>) -> bool {
    prefix.len() <= s.len() && s.take(prefix.len() as int) == prefix
}

/// What is left of `s` behind `prefix`, where `s` begins with it.
pub fn strip_prefix<'a>(s: &'a str, prefix: &str) -> (rest: Option<&'a str>)
    ensures
        match rest {
            Some(r) => has_prefix(s@, prefix@) && r@ == s@.skip(prefix@.len() as int),
            None => !has_prefix(s@, prefix@),
        },
{
    let len: usize = s.unicode_len();
    let prefix_len: usize = prefix.unicode_len();
    if len < prefix_len {
        return None;
    }
    let mut i: usize = 0;
    while i < prefix_len
        invariant
            i <= prefix_len <= len,
            len == s@.len(),
            prefix_len == prefix@.len(),
            forall|j: int| 0 <= j < i ==> s@[j] == prefix@[j],
        decreases prefix_len - i,
    {
        if s.get_char(i) != prefix.get_char(i) {
            assert(s@.take(prefix_len as int)[i as int] != prefix@[i as int]);
            return None;
        }
        i = i + 1;
    }
    assert(s@.take(prefix_len as int) =~= prefix@);
    let rest = s.substring_char(prefix_len, len);
    assert(rest@ =~= s@.skip(prefix_len as int));
    Some(rest)
}

/// The position of the last `c` among the first `len` characters of `s`.
pub(crate) fn last_index_ascii(s: &str, len: usize, c: u8) -> (res: Option<usize>)
    requires
        is_ascii_chars(s@),
        len <= s@.len(),
        c < 128,
    ensures
        match res {
            Some(k) => k == last_index_of(s@.take(len as int), c as char),
            None => last_index_of(s@.take(len as int), c as char) == -1,
        },
{
    let ghost head = s@.take(len as int);
    let mut i: usize = len;
    while i > 0
        invariant
            i <= len <= s@.len(),
            is_ascii_chars(s@),
            c < 128,
            head == s@.take(len as int),
            forall|j: int| i <= j < len ==> head[j] != c as char,
        decreases i,
    {
        i = i - 1;
        let b: u8 = s.get_ascii(i);
        assert(head[i as int] == s@[i as int]);
        if b == c {
            proof {
                lemma_last_index_is(head, c as char, i as int);
            }
            return Some(i);
        }
    }
    proof {
        lemma_last_index_is(head, c as char, -1);
    }
    None
}

} // verus!
