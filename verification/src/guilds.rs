//! The file that lists the servers the bot serves: one server id per line.

use vstd::prelude::*;

use crate::text::{chars_of, parse_u64, spec_parse_u64, views_of};

verus! {

/// The pieces of `s` between line feeds; the last piece is what follows the
/// last line feed (empty when `s` ends with one).
pub open spec fn segments(s: Seq<char>) -> Seq<Seq<char>>
    decreases s.len(),
{
    if s.len() == 0 {
        seq![Seq::empty()]
    } else {
        let w = segments(s.drop_last());
        if s.last() == '\n' {
            w.push(Seq::empty())
        } else {
            w.update(w.len() - 1, w.last().push(s.last()))
        }
    }
}

/// A line without the carriage return that ended it, if any.
pub open spec fn strip_cr(line: Seq<char>) -> Seq<char> {
    if line.len() > 0 && line.last() == '\r' {
        line.drop_last()
    } else {
        line
    }
}

/// The lines of `s` as `str::lines` yields them: split at `\n` or `\r\n`,
/// the final line ending being optional.
pub open spec fn lines(s: Seq<char>) -> Seq<Seq<char>> {
    let segs = segments(s);
    let ended = segs.drop_last().map_values(|l: Seq<char>| strip_cr(l));
    if segs.last().len() == 0 {
        ended
    } else {
        ended.push(segs.last())
    }
}

/// The server id a line holds: a positive number.
pub open spec fn guild_id_of(line: Seq<char>) -> Option<u64> {
    match spec_parse_u64(line) {
        Some(v) => if v != 0 {
            Some(v)
        } else {
            None
        },
        None => None,
    }
}

/// The server ids of the file, in order; nothing unless every line holds one.
pub open spec fn spec_guild_ids(text: Seq<char>) -> Option<Seq<u64>> {
    let ls = lines(text);
    if forall|i: int| 0 <= i < ls.len() ==> (#[trigger] guild_id_of(ls[i])) is Some {
        Some(ls.map_values(|l: Seq<char>| guild_id_of(l)->0))
    } else {
        None
    }
}

proof fn lemma_segments_nonempty(s: Seq<char>)
    ensures
        segments(s).len() > 0,
    decreases s.len(),
{
    if s.len() > 0 {
        lemma_segments_nonempty(s.drop_last());
    }
}

fn split_segments(cs: &Vec<char>) -> (r: Vec<Vec<char>>)
    ensures
        views_of(r@) == segments(cs@),
{
    let mut out: Vec<Vec<char>> = Vec::new();
    out.push(Vec::new());
    assert(views_of(out@) =~= segments(cs@.take(0)));
    let n = cs.len();
    for i in 0..n
        invariant
            n == cs@.len(),
            views_of(out@) == segments(cs@.take(i as int)),
            out@.len() > 0,
    {
        let c = cs[i];
        let ghost prefix = cs@.take(i + 1);
        proof {
            assert(prefix.drop_last() =~= cs@.take(i as int));
            assert(prefix.last() == c);
        }
        if c == '\n' {
            out.push(Vec::new());
            assert(views_of(out@) =~= segments(prefix));
        } else {
            let last = out.len() - 1;
            let mut w = out.remove(last);
            w.push(c);
            out.push(w);
            assert(views_of(out@) =~= segments(prefix));
        }
    }
    assert(cs@.take(n as int) =~= cs@);
    out
}

/// Reads the server ids, one per line. `None` when a line does not hold a
/// positive number.
pub fn parse_guild_ids(text: &str) -> (r: Option<Vec<u64>>)
    ensures
        match r {
            Some(ids) => spec_guild_ids(text@) == Some(ids@),
            None => spec_guild_ids(text@) is None,
        },
{
    let cs = chars_of(text);
    let segs = split_segments(&cs);
    proof {
        lemma_segments_nonempty(cs@);
    }
    let ghost ls = lines(text@);
    let ghost sv = segments(text@);
    let count = segs.len();
    let last_empty = segs[count - 1].len() == 0;
    let n_lines: usize = if last_empty { count - 1 } else { count };
    assert(ls.len() == n_lines);
    let mut ids: Vec<u64> = Vec::new();
    for i in 0..n_lines
        invariant
            n_lines <= count == segs@.len() == sv.len(),
            views_of(segs@) == sv,
            sv == segments(text@),
            ls == lines(text@),
            ls.len() == n_lines,
            last_empty == (sv.last().len() == 0),
            ids@.len() == i,
            forall|j: int| 0 <= j < i ==> (#[trigger] guild_id_of(ls[j])) == Some(ids@[j]),
    {
        let seg = &segs[i];
        assert(seg@ == sv[i as int]);
        let line: Vec<char> = if i + 1 < count && seg.len() > 0 && seg[seg.len() - 1] == '\r' {
            let mut l = seg.clone();
            l.pop();
            l
        } else {
            seg.clone()
        };
        proof {
            if i + 1 < count {
                assert(ls[i as int] == strip_cr(sv[i as int]));
                assert(line@ =~= strip_cr(sv[i as int]));
            } else {
                assert(ls[i as int] == sv.last());
            }
        }
        match parse_u64(&line) {
            Some(v) => {
                if v == 0 {
                    assert(guild_id_of(ls[i as int]) is None);
                    return None;
                }
                ids.push(v);
            },
            None => {
                assert(guild_id_of(ls[i as int]) is None);
                return None;
            },
        }
    }
    assert(ids@ =~= ls.map_values(|l: Seq<char>| guild_id_of(l)->0));
    Some(ids)
}

/// Splitting at line feeds works piece by piece: the pieces of two texts
/// joined by a line feed are the pieces of the first followed by those of
/// the second.
pub proof fn lemma_segments_join(a: Seq<char>, b: Seq<char>)
    ensures
        segments(a + seq!['\n'] + b) == segments(a) + segments(b),
    decreases b.len(),
{
    let an = a + seq!['\n'];
    if b.len() == 0 {
        assert(a + seq!['\n'] + b =~= an);
        assert(an.drop_last() =~= a);
        assert(segments(b) =~= seq![Seq::<char>::empty()]);
        assert(segments(an) =~= segments(a).push(Seq::empty()));
        assert(segments(a) + segments(b) =~= segments(a).push(Seq::empty()));
    } else {
        let whole = an + b;
        assert(whole.drop_last() =~= an + b.drop_last());
        assert(whole.last() == b.last());
        assert(a + seq!['\n'] + b =~= whole);
        assert(a + seq!['\n'] + b.drop_last() =~= an + b.drop_last());
        lemma_segments_join(a, b.drop_last());
        lemma_segments_nonempty(b.drop_last());
        let w = segments(b.drop_last());
        let sa = segments(a);
        if b.last() == '\n' {
            assert(sa + w.push(Seq::empty()) =~= (sa + w).push(Seq::empty()));
        } else {
            assert((sa + w).last() == w.last());
            assert(sa + w.update(w.len() - 1, w.last().push(b.last()))
                =~= (sa + w).update((sa + w).len() - 1, (sa + w).last().push(b.last())));
        }
    }
}

/// A text without line feeds is one piece.
pub proof fn lemma_segments_single(s: Seq<char>)
    requires
        forall|i: int| 0 <= i < s.len() ==> s[i] != '\n',
    ensures
        segments(s) == seq![s],
    decreases s.len(),
{
    if s.len() > 0 {
        let t = s.drop_last();
        assert forall|i: int| 0 <= i < t.len() implies t[i] != '\n' by {
            assert(t[i] == s[i]);
        }
        lemma_segments_single(t);
        assert(s.last() == s[s.len() - 1]);
        assert(s.last() != '\n');
        assert(t.push(s.last()) =~= s);
        assert(seq![t].last() == t);
        assert(seq![t].update(0, t.push(s.last())) =~= seq![s]);
    } else {
        assert(s =~= Seq::<char>::empty());
    }
}

} // verus!
