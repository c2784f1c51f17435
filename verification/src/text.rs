//! Text helpers shared by the views: the first line of a description and
//! labels with their spaces taken out.
use vstd::prelude::*;

verus! {

/// True when `c` is not a space character.
pub open spec fn not_space(c: char) -> bool {
    c != ' '
}

/// The text with every space character taken out, the other characters kept in order.
pub open spec fn spaces_removed(s: Seq<char>) -> Seq<char> {
    s.filter(|c: char| not_space(c))
}

/// Takes every space character out of `text`, keeping the other characters in order.
pub fn remove_spaces(text: &str) -> (res: String)
    ensures
        res@ == spaces_removed(text@),
{
    let n = text.unicode_len();
    let mut res = String::new();
    let mut i: usize = 0;
    while i < n
        invariant
            n == text@.len(),
            i <= n,
            res@ == spaces_removed(text@.take(i as int)),
        decreases n - i,
    {
        let c = text.get_char(i);
        proof {
            reveal_with_fuel(Seq::<_>::filter, 1);
            assert(text@.take(i + 1).drop_last() =~= text@.take(i as int));
            assert(text@.take(i + 1).last() == c);
        }
        if c != ' ' {
            res.append(text.substring_char(i, i + 1));
            proof {
                assert(text@.subrange(i as int, i + 1) =~= seq![c]);
            }
        }
        i = i + 1;
    }
    proof {
        assert(text@.take(n as int) =~= text@);
    }
    res
}

/// No character of `s` is a line feed.
pub open spec fn newline_free(s: Seq<char>) -> bool {
    forall|i: int| 0 <= i < s.len() ==> s[i] != '\n'
}

/// The characters of `t` before its first line feed (all of `t` when it has none).
pub open spec fn before_newline(t: Seq<char>) -> Seq<char>
    decreases t.len(),
{
    if t.len() == 0 {
        t
    } else if t[0] == '\n' {
        Seq::<char>::empty()
    } else {
        seq![t[0]] + before_newline(t.drop_first())
    }
}

/// The first line of `t` as `str::lines` yields it: the characters before the first line feed,
/// without a carriage return just before that line feed; all of `t` when it holds no line feed
/// (an empty text gives an empty line).
pub open spec fn first_line(t: Seq<char>) -> Seq<char> {
    let l = before_newline(t);
    if l.len() < t.len() && l.len() > 0 && l.last() == '\r' {
        l.drop_last()
    } else {
        l
    }
}

/// When `t` has no line feed before index `k`, and a line feed at `k` (or ends there),
/// the part before the first line feed is `t.take(k)`.
pub proof fn lemma_before_newline_at(t: Seq<char>, k: int)
    requires
        0 <= k <= t.len(),
        newline_free(t.take(k)),
        k < t.len() ==> t[k] == '\n',
    ensures
        before_newline(t) == t.take(k),
    decreases t.len(),
{
    if t.len() == 0 {
        assert(t.take(k) =~= t);
    } else if k == 0 {
        assert(t.take(0) =~= Seq::<char>::empty());
    } else {
        assert(t.take(k)[0] == t[0]);
        let r = t.drop_first();
        assert(r.take(k - 1) =~= t.take(k).drop_first());
        assert forall|i: int| 0 <= i < k - 1 implies #[trigger] r.take(k - 1)[i] != '\n' by {
            assert(r.take(k - 1)[i] == t.take(k)[i + 1]);
        }
        lemma_before_newline_at(r, k - 1);
        assert(t.take(k) =~= seq![t[0]] + r.take(k - 1));
    }
}

/// A text without line feeds is its own part before the first line feed.
pub proof fn lemma_before_newline_free(t: Seq<char>)
    requires
        newline_free(t),
    ensures
        before_newline(t) == t,
{
    assert(t.take(t.len() as int) =~= t);
    lemma_before_newline_at(t, t.len() as int);
}

/// The part before the first line feed is a prefix of the text, free of line feeds.
pub proof fn lemma_before_newline_prefix(t: Seq<char>)
    ensures
        before_newline(t).len() <= t.len(),
        before_newline(t) == t.take(before_newline(t).len() as int),
        newline_free(before_newline(t)),
        before_newline(t).len() < t.len() ==> t[before_newline(t).len() as int] == '\n',
    decreases t.len(),
{
    if t.len() > 0 && t[0] != '\n' {
        lemma_before_newline_prefix(t.drop_first());
        let r = before_newline(t.drop_first());
        assert(before_newline(t) =~= seq![t[0]] + r);
        assert(before_newline(t) =~= t.take(before_newline(t).len() as int));
    } else if t.len() > 0 {
        assert(before_newline(t) =~= t.take(0));
    }
}

/// The text shown for a description: its first line, or an empty text when it has none.
pub fn description_display(text: &str) -> (res: String)
    ensures
        res@ == first_line(text@),
{
    let n = text.unicode_len();
    let mut k: usize = 0;
    while k < n && text.get_char(k) != '\n'
        invariant
            n == text@.len(),
            k <= n,
            newline_free(text@.take(k as int)),
        decreases n - k,
    {
        proof {
            assert forall|i: int| 0 <= i < k + 1 implies #[trigger] text@.take(k + 1)[i] != '\n' by {
                if i < k {
                    assert(text@.take(k + 1)[i] == text@.take(k as int)[i]);
                }
            }
        }
        k = k + 1;
    }
    proof {
        lemma_before_newline_at(text@, k as int);
    }
    let mut end = k;
    if k < n && k > 0 && text.get_char(k - 1) == '\r' {
        end = k - 1;
    }
    let line = text.substring_char(0, end);
    let res = String::from_str(line);
    proof {
        if end < k {
            assert(text@.take(k as int).drop_last() =~= text@.subrange(0, end as int));
        } else {
            assert(text@.take(k as int) =~= text@.subrange(0, end as int));
        }
    }
    res
}

/// Showing a description twice changes nothing more: the first line of a first line is
/// itself.
pub proof fn law_first_line_is_stable(t: Seq<char>)
    ensures
        first_line(first_line(t)) == first_line(t),
        newline_free(first_line(t)),
{
    lemma_before_newline_prefix(t);
    let l = before_newline(t);
    let f = first_line(t);
    assert(newline_free(f)) by {
        if f != l {
            assert forall|i: int| 0 <= i < f.len() implies f[i] != '\n' by {
                assert(f[i] == l[i]);
            }
        }
    }
    lemma_before_newline_free(f);
}

/// Taking the spaces out of a title leaves no space, and doing it again changes nothing.
pub proof fn law_spaces_removed_is_stable(s: Seq<char>)
    ensures
        forall|i: int| 0 <= i < spaces_removed(s).len() ==> spaces_removed(s)[i] != ' ',
        spaces_removed(spaces_removed(s)) == spaces_removed(s),
{
    broadcast use vstd::seq_lib::group_filter_ensures;
    let r = spaces_removed(s);
    assert forall|i: int| 0 <= i < r.len() implies r[i] != ' ' by {
        assert(not_space(r[i]));
    }
    lemma_filter_keeps_all(r);
}

/// Filtering out the spaces of a text that has none gives it back.
proof fn lemma_filter_keeps_all(r: Seq<char>)
    requires
        forall|i: int| 0 <= i < r.len() ==> r[i] != ' ',
    ensures
        spaces_removed(r) == r,
    decreases r.len(),
{
    reveal_with_fuel(Seq::<_>::filter, 1);
    if r.len() > 0 {
        let d = r.drop_last();
        assert forall|i: int| 0 <= i < d.len() implies d[i] != ' ' by {
            assert(d[i] == r[i]);
        }
        lemma_filter_keeps_all(d);
        assert(d.push(r.last()) =~= r);
    }
}

} // verus!
