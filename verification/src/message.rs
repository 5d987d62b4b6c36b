//! First-line extraction and character-bounded truncation of commit
//! messages.
//!
//! A summary keeps only the text before the first logical line break of a
//! message, cut to a caller-supplied number of characters.  Counting is by
//! character, never by encoded byte, so the cut can never split a
//! multi-byte character.

use vstd::prelude::*;
use vstd::string::StrSliceExecFns;
use vstd::string::StringExecFns;

verus! {

/// The placeholder substituted for a field the repository has no record
/// of: an absent commit message or an absent author name.
pub open spec fn unknown_sentinel() -> Seq<char> {
    "<unknown>"@
}

/// True when a logical line break starts at position `i` of `s`: either a
/// line feed, or a carriage return immediately followed by a line feed.
/// A carriage return on its own does not break the line.
pub open spec fn is_line_break_at(s: Seq<char>, i: int) -> bool {
    s[i] == '\n' || (s[i] == '\r' && i + 1 < s.len() && s[i + 1] == '\n')
}

/// The number of characters of `s` before its first line break: the
/// length of `s` when it has none.
pub open spec fn first_line_len(s: Seq<char>) -> nat
    decreases s.len(),
{
    if s.len() == 0 {
        0
    } else if is_line_break_at(s, 0) {
        0
    } else {
        1 + first_line_len(s.drop_first())
    }
}

/// The characters of `s` before its first line break.
pub open spec fn first_line(s: Seq<char>) -> Seq<char> {
    s.take(first_line_len(s) as int)
}

/// The first line of `s`, kept to at most `limit` characters.
pub open spec fn limited(s: Seq<char>, limit: nat) -> Seq<char> {
    if first_line_len(s) <= limit {
        first_line(s)
    } else {
        s.take(limit as int)
    }
}

pub proof fn lemma_first_line_len_bound(s: Seq<char>)
    ensures
        first_line_len(s) <= s.len(),
    decreases s.len(),
{
    if s.len() == 0 || is_line_break_at(s, 0) {
    } else {
        lemma_first_line_len_bound(s.drop_first());
    }
}

/// Dropping the first character shifts every break position by one.
proof fn lemma_break_shift(s: Seq<char>, k: int)
    requires
        s.len() > 0,
        0 <= k < s.len() - 1,
    ensures
        is_line_break_at(s.drop_first(), k) == is_line_break_at(s, k + 1),
{
    assert(s.drop_first()[k] == s[k + 1]);
    if k + 1 < s.drop_first().len() {
        assert(s.drop_first()[k + 1] == s[k + 2]);
    }
}

/// A prefix free of line breaks cannot reach past the first line.
pub proof fn lemma_no_break_prefix(s: Seq<char>, i: int)
    requires
        0 <= i <= s.len(),
        forall|k: int| 0 <= k < i ==> !is_line_break_at(s, k),
    ensures
        first_line_len(s) >= i,
    decreases i,
{
    if i > 0 {
        assert(!is_line_break_at(s, 0));
        assert forall|k: int| 0 <= k < i - 1 implies !is_line_break_at(
            s.drop_first(),
            k,
        ) by {
            lemma_break_shift(s, k);
            assert(!is_line_break_at(s, k + 1));
        }
        lemma_no_break_prefix(s.drop_first(), i - 1);
    }
}

/// The first line ends exactly at the first line break.
pub proof fn lemma_break_at_line_end(s: Seq<char>, i: int)
    requires
        0 <= i < s.len(),
        forall|k: int| 0 <= k < i ==> !is_line_break_at(s, k),
        is_line_break_at(s, i),
    ensures
        first_line_len(s) == i,
    decreases i,
{
    if i == 0 {
    } else {
        assert(!is_line_break_at(s, 0));
        assert forall|k: int| 0 <= k < i - 1 implies !is_line_break_at(
            s.drop_first(),
            k,
        ) by {
            lemma_break_shift(s, k);
            assert(!is_line_break_at(s, k + 1));
        }
        lemma_break_shift(s, i - 1);
        lemma_break_at_line_end(s.drop_first(), i - 1);
    }
}

/// No line break starts anywhere inside the first line.
pub proof fn lemma_no_break_in_first_line(s: Seq<char>)
    ensures
        forall|k: int| 0 <= k < first_line_len(s) ==> !is_line_break_at(s, k),
    decreases s.len(),
{
    if s.len() == 0 || is_line_break_at(s, 0) {
    } else {
        lemma_first_line_len_bound(s);
        lemma_no_break_in_first_line(s.drop_first());
        assert forall|k: int| 0 <= k < first_line_len(s) implies !is_line_break_at(
            s,
            k,
        ) by {
            if k > 0 {
                assert(!is_line_break_at(s.drop_first(), k - 1));
                lemma_break_shift(s, k - 1);
            }
        }
    }
}

/// A text without a line feed is a single line.
pub proof fn lemma_no_newline_whole_line(t: Seq<char>)
    requires
        forall|k: int| 0 <= k < t.len() ==> t[k] != '\n',
    ensures
        first_line_len(t) == t.len(),
{
    assert forall|k: int| 0 <= k < t.len() implies !is_line_break_at(t, k) by {
        assert(t[k] != '\n');
        if t[k] == '\r' && k + 1 < t.len() {
            assert(t[k + 1] != '\n');
        }
    }
    lemma_no_break_prefix(t, t.len() as int);
    lemma_first_line_len_bound(t);
}

/// The truncated message holds exactly the first characters of the
/// message, and no line feed among them.
pub proof fn lemma_limited_chars(s: Seq<char>, limit: nat)
    ensures
        limited(s, limit).len() == if first_line_len(s) <= limit {
            first_line_len(s)
        } else {
            limit
        },
        forall|k: int|
            0 <= k < limited(s, limit).len() ==> limited(s, limit)[k] == s[k] && s[k] != '\n',
{
    lemma_first_line_len_bound(s);
    lemma_no_break_in_first_line(s);
    assert forall|k: int| 0 <= k < limited(s, limit).len() implies limited(s, limit)[k] == s[k]
        && s[k] != '\n' by {
        assert(!is_line_break_at(s, k));
    }
}

/// Truncating an already-truncated message to the same or a larger limit
/// gives it back unchanged.
pub proof fn lemma_limited_idempotent(s: Seq<char>, l1: nat, l2: nat)
    requires
        l1 <= l2,
    ensures
        limited(limited(s, l1), l2) == limited(s, l1),
{
    let t = limited(s, l1);
    lemma_limited_chars(s, l1);
    assert forall|k: int| 0 <= k < t.len() implies t[k] != '\n' by {
        assert(t[k] == s[k] && s[k] != '\n');
    }
    lemma_no_newline_whole_line(t);
    assert(limited(t, l2) =~= t);
}

/// The summary of a multi-line message depends only on the text before
/// its first line break: whatever follows the break is ignored.  A head
/// ending in a carriage return is excluded when the break is a bare line
/// feed, since the two would merge into one two-character break.
pub proof fn lemma_multiline_first_line_only(
    head: Seq<char>,
    brk: Seq<char>,
    tail: Seq<char>,
    limit: nat,
)
    requires
        forall|k: int| 0 <= k < head.len() ==> head[k] != '\n',
        brk == seq!['\n'] || brk == seq!['\r', '\n'],
        brk == seq!['\n'] ==> head.len() == 0 || head[head.len() - 1] != '\r',
    ensures
        limited(head + brk + tail, limit) == limited(head, limit),
{
    let s = head + brk + tail;
    let h = head.len() as int;
    assert forall|k: int| 0 <= k < h implies !is_line_break_at(s, k) by {
        assert(s[k] == head[k]);
        if s[k] == '\r' && k + 1 < s.len() {
            if k + 1 < h {
                assert(s[k + 1] == head[k + 1]);
            } else {
                assert(s[k + 1] == brk[0]);
            }
        }
    }
    assert(is_line_break_at(s, h)) by {
        assert(s[h] == brk[0]);
        if brk == seq!['\r', '\n'] {
            assert(s[h + 1] == brk[1]);
        }
    }
    lemma_break_at_line_end(s, h);
    lemma_no_newline_whole_line(head);
    assert(limited(s, limit) =~= limited(head, limit));
}

/// True when a logical line break starts at character `i` of `s`, whose
/// character count is `n`.
fn line_break_at(s: &str, n: usize, i: usize) -> (r: bool)
    requires
        n == s@.len(),
        i < n,
    ensures
        r == is_line_break_at(s@, i as int),
{
    let c = s.get_char(i);
    if c == '\n' {
        true
    } else if c == '\r' && i + 1 < n {
        s.get_char(i + 1) == '\n'
    } else {
        false
    }
}

/// The first line of `s`, kept to at most `limit` characters, counted by
/// character rather than by encoded byte.
pub fn limit_str(s: &str, limit: usize) -> (r: String)
    ensures
        r@ == limited(s@, limit as nat),
        r@.len() == if first_line_len(s@) <= limit {
            first_line_len(s@)
        } else {
            limit as nat
        },
{
    let n = s.unicode_len();
    let mut i: usize = 0;
    let mut found: bool = false;
    while i < n && !found
        invariant
            n == s@.len(),
            i <= n,
            forall|k: int| 0 <= k < i ==> !is_line_break_at(s@, k),
            found ==> i < n && is_line_break_at(s@, i as int),
        decreases n - i, (if found { 0int } else { 1int }),
    {
        if line_break_at(s, n, i) {
            found = true;
        } else {
            i += 1;
        }
    }
    proof {
        lemma_first_line_len_bound(s@);
        if found {
            lemma_break_at_line_end(s@, i as int);
        } else {
            lemma_no_break_prefix(s@, n as int);
        }
        assert(first_line_len(s@) == i);
    }
    let end: usize = if limit < i {
        limit
    } else {
        i
    };
    let sub = s.substring_char(0, end);
    let r = String::from_str(sub);
    proof {
        assert(r@ =~= limited(s@, limit as nat));
    }
    r
}

} // verus!

