use vstd::prelude::*;
use vstd::string::*;

use crate::store::texts;

verus! {

/// The pieces of `t` between newline characters, as splitting at each `'\n'`
/// gives them: there is always one more piece than there are newlines.
pub open spec fn segments(t: Seq<char>) -> Seq<Seq<char>>
    decreases t.len(),
{
    if t.len() == 0 {
        seq![seq![]]
    } else {
        let init = segments(t.drop_last());
        if t.last() == '\n' {
            init.push(seq![])
        } else {
            init.update(init.len() - 1, init.last().push(t.last()))
        }
    }
}

/// A line without its carriage return, where one ends it.
pub open spec fn strip_cr(l: Seq<char>) -> Seq<char> {
    if l.len() > 0 && l.last() == '\r' {
        l.drop_last()
    } else {
        l
    }
}

/// The lines of a text: each line ends at `"\n"` or `"\r\n"`, which is not part
/// of it; the last line needs no ending, and an empty text has no lines.
pub open spec fn lines_of(t: Seq<char>) -> Seq<Seq<char>> {
    let segs = segments(t);
    let ended = segs.drop_last().map_values(|l: Seq<char>| strip_cr(l));
    if segs.last().len() == 0 {
        ended
    } else {
        ended.push(segs.last())
    }
}

/// The file text for a list of entries: each entry followed by a newline.
pub open spec fn render(s: Seq<Seq<char>>) -> Seq<char>
    decreases s.len(),
{
    if s.len() == 0 {
        seq![]
    } else {
        render(s.drop_last()) + s.last().push('\n')
    }
}

/// An entry that a file keeps as it is: no newline in it, no carriage return
/// at its end.
pub open spec fn is_line(l: Seq<char>) -> bool {
    &&& !l.contains('\n')
    &&& !(l.len() > 0 && l.last() == '\r')
}

/// The line of `text` from `start` to `end`, without a carriage return before
/// the newline at `end`.
fn ended_line(text: &str, start: usize, end: usize) -> (r: String)
    requires
        start <= end < text@.len(),
    ensures
        r@ == strip_cr(text@.subrange(start as int, end as int)),
{
    if start < end && text.get_char(end - 1) == '\r' {
        String::from_str(text.substring_char(start, end - 1))
    } else {
        String::from_str(text.substring_char(start, end))
    }
}

/// Splits a file's text into its lines.
pub fn parse_lines(text: &str) -> (r: Vec<String>)
    ensures
        texts(r@) == lines_of(text@),
{
    let n = text.unicode_len();
    let mut out: Vec<String> = Vec::new();
    let ghost mut raw: Seq<Seq<char>> = seq![];
    let mut start: usize = 0;
    let mut i: usize = 0;
    assert(text@.take(0) =~= seq![]);
    assert(text@.subrange(0, 0) =~= seq![]);
    while i < n
        invariant
            n == text@.len(),
            start <= i <= n,
            segments(text@.take(i as int)) == raw.push(text@.subrange(start as int, i as int)),
            texts(out@) == raw.map_values(|l: Seq<char>| strip_cr(l)),
        decreases n - i,
    {
        let c = text.get_char(i);
        let ghost t = text@.take(i as int + 1);
        assert(t.drop_last() =~= text@.take(i as int));
        assert(t.last() == c);
        if c == '\n' {
            let line = ended_line(text, start, i);
            let ghost prev_out = out@;
            let ghost prev_raw = raw;
            out.push(line);
            proof {
                raw = raw.push(text@.subrange(start as int, i as int));
                assert(texts(prev_out) == prev_raw.map_values(|l: Seq<char>| strip_cr(l)));
                assert(out@ == prev_out.push(line));
                assert forall|k: int| 0 <= k < prev_out.len() implies texts(out@)[k] == texts(prev_out)[k] by {}
                assert(raw.map_values(|l: Seq<char>| strip_cr(l)) =~= prev_raw.map_values(
                    |l: Seq<char>| strip_cr(l),
                ).push(line@));
                assert(texts(out@) =~= texts(prev_out).push(line@));
                assert(text@.subrange(i as int + 1, i as int + 1) =~= seq![]);
                assert(texts(out@) =~= raw.map_values(|l: Seq<char>| strip_cr(l)));
            }
            start = i + 1;
        } else {
            assert(text@.subrange(start as int, i as int).push(c) =~= text@.subrange(
                start as int,
                i as int + 1,
            ));
            assert(segments(t) =~= raw.push(text@.subrange(start as int, i as int + 1)));
        }
        i = i + 1;
    }
    assert(text@.take(n as int) =~= text@);
    let ghost segs = segments(text@);
    assert(segs.drop_last() =~= raw);
    if start < n {
        out.push(String::from_str(text.substring_char(start, n)));
    }
    assert(texts(out@) =~= lines_of(text@));
    out
}

/// The file text for the entries, one line each.
pub fn render_lines(entries: &Vec<String>) -> (r: String)
    ensures
        r@ == render(texts(entries@)),
{
    let mut r = String::new();
    let mut i: usize = 0;
    assert(texts(entries@).take(0) =~= seq![]);
    while i < entries.len()
        invariant
            i <= entries.len(),
            r@ == render(texts(entries@).take(i as int)),
        decreases entries.len() - i,
    {
        let ghost before = r@;
        r.append(entries[i].as_str());
        r.append("\n");
        proof {
            reveal_strlit("\n");
            let s = texts(entries@).take(i as int + 1);
            assert(s.drop_last() =~= texts(entries@).take(i as int));
            assert(r@ =~= before + s.last().push('\n'));
        }
        i = i + 1;
    }
    assert(texts(entries@).take(entries.len() as int) =~= texts(entries@));
    r
}

proof fn lemma_segments_nonempty(t: Seq<char>)
    ensures
        segments(t).len() >= 1,
    decreases t.len(),
{
    if t.len() > 0 {
        lemma_segments_nonempty(t.drop_last());
    }
}

/// Text without newlines extends the last piece.
proof fn lemma_segments_plain(t: Seq<char>, x: Seq<char>)
    requires
        !x.contains('\n'),
    ensures
        segments(t + x) == segments(t).update(
            segments(t).len() - 1,
            segments(t).last() + x,
        ),
    decreases x.len(),
{
    lemma_segments_nonempty(t);
    let s = segments(t);
    if x.len() == 0 {
        assert(t + x =~= t);
        assert(s.last() + x =~= s.last());
        assert(s.update(s.len() - 1, s.last()) =~= s);
    } else {
        let x0 = x.drop_last();
        assert(!x0.contains('\n')) by {
            if x0.contains('\n') {
                let k = choose|k: int| 0 <= k < x0.len() && x0[k] == '\n';
                assert(x[k] == '\n');
            }
        }
        lemma_segments_plain(t, x0);
        assert((t + x).drop_last() =~= t + x0);
        assert((t + x).last() == x.last());
        assert(x[x.len() - 1] != '\n');
        assert((s.last() + x0).push(x.last()) =~= s.last() + x);
        assert(segments(t + x) =~= s.update(s.len() - 1, s.last() + x));
    }
}

/// Rendered entries without newlines split back into the entries and one empty
/// piece after the last newline.
proof fn lemma_segments_render(s: Seq<Seq<char>>)
    requires
        forall|i: int| 0 <= i < s.len() ==> !s[i].contains('\n'),
    ensures
        segments(render(s)) == s.push(seq![]),
    decreases s.len(),
{
    if s.len() == 0 {
        assert(segments(seq![]) =~= seq![seq![]]);
        assert(s.push(seq![]) =~= seq![seq![]]);
    } else {
        let s0 = s.drop_last();
        let l = s.last();
        lemma_segments_render(s0);
        lemma_segments_plain(render(s0), l);
        let t = render(s0) + l;
        assert(render(s) =~= t.push('\n'));
        assert(t.push('\n').drop_last() =~= t);
        assert(seq![] + l =~= l);
        assert(s0.push(seq![]).update(s0.len() as int, l) =~= s);
    }
}

/// Writing entries to a file and reading the file back gives the same entries,
/// when no entry holds a newline or ends in a carriage return.
pub proof fn lemma_reload(s: Seq<Seq<char>>)
    requires
        forall|i: int| 0 <= i < s.len() ==> is_line(#[trigger] s[i]),
    ensures
        lines_of(render(s)) == s,
{
    lemma_segments_render(s);
    let segs = segments(render(s));
    assert(segs.drop_last() =~= s);
    assert(s.map_values(|l: Seq<char>| strip_cr(l)) =~= s);
}

} // verus!
