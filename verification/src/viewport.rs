//! The scroll-window algorithm: counting content lines and clamping the
//! scroll offset so the visible window never runs past the content.

use vstd::prelude::*;
use vstd::string::StrSliceExecFns;

verus! {

/// Number of `'\n'` characters in `s`.
pub open spec fn newline_count(s: Seq<char>) -> nat
    decreases s.len(),
{
    if s.len() == 0 {
        0
    } else {
        newline_count(s.drop_last()) + if s.last() == '\n' {
            1nat
        } else {
            0nat
        }
    }
}

/// Number of lines of a text buffer, counting as the standard library's
/// line iterator does: empty text has no lines, and a trailing newline
/// ends the last line rather than opening a new one.
pub open spec fn spec_line_count(s: Seq<char>) -> nat {
    if s.len() == 0 {
        0
    } else {
        1 + newline_count(s.take(s.len() - 1))
    }
}

/// Largest valid scroll offset for `n` content lines in a viewport of
/// height `vh`: when the content fits, no scrolling is possible.
pub open spec fn max_offset(n: nat, vh: nat) -> nat {
    if n > vh {
        (n - vh) as nat
    } else {
        0
    }
}

/// One scroll-down step: advance by one line, saturating at the largest
/// valid offset.
pub open spec fn spec_scroll_down(off: nat, n: nat, vh: nat) -> nat {
    if off < max_offset(n, vh) {
        off + 1
    } else {
        off
    }
}

/// One scroll-up step: retreat by one line, saturating at zero.
pub open spec fn spec_scroll_up(off: nat) -> nat {
    if off > 0 {
        (off - 1) as nat
    } else {
        0
    }
}

/// The once-per-frame clamp: when the content fits the viewport the
/// offset is forced straight to zero; otherwise an out-of-range offset
/// is walked back one line per frame, so a shrunken content or grown
/// viewport is caught up with smoothly instead of by a jump.
pub open spec fn spec_clamp_step(off: nat, n: nat, vh: nat) -> nat {
    if n <= vh {
        0
    } else if off > max_offset(n, vh) {
        (off - 1) as nat
    } else {
        off
    }
}

/// Index of the first `'\n'` in `s`, or `s.len()` when there is none.
pub open spec fn first_nl(s: Seq<char>) -> nat
    decreases s.len(),
{
    if s.len() == 0 {
        0
    } else if s[0] == '\n' {
        0
    } else {
        1 + first_nl(s.skip(1))
    }
}

/// A line with one trailing carriage return removed, as the standard
/// library's line iterator strips it from a `"\r\n"` ending.
pub open spec fn strip_cr(l: Seq<char>) -> Seq<char> {
    if l.len() > 0 && l.last() == '\r' {
        l.drop_last()
    } else {
        l
    }
}

/// The lines of a text buffer, in order, as the standard library's line
/// iterator yields them: pieces cut at each `'\n'`, a `'\r'` stripped
/// only when it stood directly before the `'\n'`, and a trailing
/// newline ending the last line rather than opening an empty one.
pub open spec fn spec_lines(s: Seq<char>) -> Seq<Seq<char>>
    decreases s.len(),
{
    if s.len() == 0 {
        seq![]
    } else if first_nl(s) >= s.len() {
        seq![s]
    } else {
        seq![strip_cr(s.take(first_nl(s) as int))] + spec_lines(s.skip(first_nl(s) + 1int))
    }
}

/// The views of a vector of owned lines.
pub open spec fn views_of(ls: Seq<String>) -> Seq<Seq<char>> {
    ls.map_values(|l: String| l@)
}

proof fn lemma_first_nl_props(s: Seq<char>)
    ensures
        first_nl(s) <= s.len(),
        first_nl(s) < s.len() ==> s[first_nl(s) as int] == '\n',
        forall|j: int| 0 <= j < first_nl(s) ==> s[j] != '\n',
    decreases s.len(),
{
    if s.len() > 0 && s[0] != '\n' {
        lemma_first_nl_props(s.skip(1));
        assert forall|j: int| 0 <= j < first_nl(s) implies s[j] != '\n' by {
            if j > 0 {
                assert(s.skip(1)[j - 1] == s[j]);
            }
        }
    }
}

proof fn lemma_first_nl_at(s: Seq<char>, i: nat)
    requires
        i <= s.len(),
        forall|j: int| 0 <= j < i ==> s[j] != '\n',
        i < s.len() ==> s[i as int] == '\n',
    ensures
        first_nl(s) == i,
    decreases i,
{
    if i > 0 {
        assert(s[0] != '\n');
        assert forall|j: int| 0 <= j < i - 1 implies s.skip(1)[j] != '\n' by {
            assert(s.skip(1)[j] == s[j + 1]);
        }
        assert(i - 1 < s.skip(1).len() ==> s.skip(1)[i - 1] == s[i as int]);
        lemma_first_nl_at(s.skip(1), (i - 1) as nat);
    }
}

proof fn lemma_no_nl_count_zero(s: Seq<char>)
    requires
        forall|j: int| 0 <= j < s.len() ==> s[j] != '\n',
    ensures
        newline_count(s) == 0,
    decreases s.len(),
{
    if s.len() > 0 {
        lemma_no_nl_count_zero(s.drop_last());
    }
}

proof fn lemma_newline_count_append(a: Seq<char>, b: Seq<char>)
    ensures
        newline_count(a + b) == newline_count(a) + newline_count(b),
    decreases b.len(),
{
    if b.len() == 0 {
        assert(a + b =~= a);
    } else {
        assert((a + b).drop_last() =~= a + b.drop_last());
        assert((a + b).last() == b.last());
        lemma_newline_count_append(a, b.drop_last());
    }
}

/// Coherence of the two views of content height: the number of lines
/// the splitter yields is exactly the line count the scroll arithmetic
/// is bounded by.
pub proof fn lemma_lines_len_is_line_count(s: Seq<char>)
    ensures
        spec_lines(s).len() == spec_line_count(s),
    decreases s.len(),
{
    if s.len() > 0 {
        lemma_first_nl_props(s);
        let i = first_nl(s) as int;
        if i == s.len() {
            assert forall|j: int| 0 <= j < s.take(s.len() - 1).len() implies #[trigger] s.take(
                s.len() - 1,
            )[j] != '\n' by {
                assert(s.take(s.len() - 1)[j] == s[j]);
            }
            lemma_no_nl_count_zero(s.take(s.len() - 1));
        } else {
            lemma_lines_len_is_line_count(s.skip(i + 1));
            assert forall|j: int| 0 <= j < s.take(i).len() implies s.take(i)[j] != '\n' by {
                assert(s.take(i)[j] == s[j]);
            }
            lemma_no_nl_count_zero(s.take(i));
            if s.len() == i + 1 {
                assert(s.skip(i + 1).len() == 0);
                assert(s.take(s.len() - 1) =~= s.take(i));
            } else {
                let tail = s.subrange(i + 1, s.len() - 1);
                assert(s.take(s.len() - 1) =~= (s.take(i).push('\n')) + tail);
                lemma_newline_count_append(s.take(i).push('\n'), tail);
                assert(s.take(i).push('\n').drop_last() =~= s.take(i));
                assert(tail =~= s.skip(i + 1).take(s.skip(i + 1).len() - 1));
            }
        }
    }
}

proof fn lemma_newline_count_step(s: Seq<char>, i: int)
    requires
        0 <= i < s.len(),
    ensures
        newline_count(s.take(i + 1)) == newline_count(s.take(i)) + if s[i] == '\n' {
            1nat
        } else {
            0nat
        },
{
    assert(s.take(i + 1).drop_last() =~= s.take(i));
    assert(s.take(i + 1).last() == s[i]);
}

/// Number of lines of `s`, equal to what the standard library's line
/// iterator would yield; empty text has zero lines.
pub fn count_lines(s: &str) -> (n: usize)
    ensures
        n == spec_line_count(s@),
{
    let len = s.unicode_len();
    if len == 0 {
        return 0;
    }
    let mut count: usize = 1;
    let mut i: usize = 0;
    while i + 1 < len
        invariant
            len == s@.len(),
            0 < len,
            i < len,
            count == 1 + newline_count(s@.take(i as int)),
            count <= 1 + i,
        decreases len - i,
    {
        let c = s.get_char(i);
        proof {
            lemma_newline_count_step(s@, i as int);
        }
        if c == '\n' {
            count = count + 1;
        }
        i = i + 1;
    }
    count
}

/// Split a text buffer into its lines, exactly as the standard
/// library's line iterator yields them.
pub fn split_lines(s: &str) -> (r: Vec<String>)
    ensures
        views_of(r@) == spec_lines(s@),
{
    let len = s.unicode_len();
    let mut out: Vec<String> = Vec::new();
    let mut start: usize = 0;
    let mut i: usize = 0;
    proof {
        assert(views_of(out@) =~= Seq::<Seq<char>>::empty());
        assert(s@.skip(0) =~= s@);
        assert(views_of(out@) + spec_lines(s@) =~= spec_lines(s@));
    }
    while i < len
        invariant
            len == s@.len(),
            start <= i <= len,
            forall|j: int| start <= j < i ==> s@[j] != '\n',
            views_of(out@) + spec_lines(s@.skip(start as int)) == spec_lines(s@),
        decreases len - i,
    {
        let c = s.get_char(i);
        if c == '\n' {
            let end = if i > start && s.get_char(i - 1) == '\r' {
                i - 1
            } else {
                i
            };
            let line = s.substring_char(start, end).to_owned();
            proof {
                let t = s@.skip(start as int);
                let k = (i - start) as nat;
                assert forall|j: int| 0 <= j < k implies t[j] != '\n' by {
                    assert(t[j] == s@[start + j]);
                }
                assert(t[k as int] == s@[i as int]);
                lemma_first_nl_at(t, k);
                assert(t.take(k as int) =~= s@.subrange(start as int, i as int));
                assert(strip_cr(t.take(k as int)) =~= s@.subrange(start as int, end as int));
                assert(t.skip(k + 1int) =~= s@.skip(i + 1));
                assert(views_of(out@.push(line)) =~= views_of(out@).push(line@));
                assert(views_of(out@.push(line)) + spec_lines(s@.skip(i + 1)) =~= spec_lines(
                    s@,
                ));
            }
            out.push(line);
            start = i + 1;
        }
        i = i + 1;
    }
    if start < len {
        let line = s.substring_char(start, len).to_owned();
        proof {
            let t = s@.skip(start as int);
            assert forall|j: int| 0 <= j < t.len() implies t[j] != '\n' by {
                assert(t[j] == s@[start + j]);
            }
            lemma_first_nl_at(t, t.len());
            assert(t =~= s@.subrange(start as int, len as int));
            assert(views_of(out@.push(line)) =~= views_of(out@).push(line@));
            assert(views_of(out@.push(line)) =~= views_of(out@) + spec_lines(
                s@.skip(start as int),
            ));
        }
        out.push(line);
    } else {
        proof {
            assert(s@.skip(start as int).len() == 0);
            assert(views_of(out@) + spec_lines(s@.skip(start as int)) =~= views_of(out@));
        }
    }
    out
}

/// The visible slice of the split content: at most `viewport_height`
/// lines starting at `offset`, cut short at the end of the content. An
/// offset at or past the end yields an empty window.
pub fn visible_window(lines: &Vec<String>, offset: usize, viewport_height: usize) -> (w: Vec<
    String,
>)
    ensures
        w@.len() == if offset < lines@.len() {
            if lines@.len() - offset > viewport_height {
                viewport_height as int
            } else {
                lines@.len() - offset
            }
        } else {
            0
        },
        forall|j: int|
            0 <= j < w@.len() ==> #[trigger] w@[j]@ == lines@[offset + j]@,
{
    let len = lines.len();
    let start = if offset < len {
        offset
    } else {
        len
    };
    let end = if len - start > viewport_height {
        start + viewport_height
    } else {
        len
    };
    let mut w: Vec<String> = Vec::new();
    let mut i: usize = start;
    while i < end
        invariant
            start <= i <= end <= len,
            len == lines@.len(),
            w@.len() == i - start,
            forall|j: int| 0 <= j < w@.len() ==> #[trigger] w@[j]@ == lines@[start + j]@,
        decreases end - i,
    {
        w.push(lines[i].clone());
        i = i + 1;
    }
    w
}

} // verus!
