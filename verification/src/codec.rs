//! Conversion between buffer lines and flat file text: joining lines with a
//! newline separator on save, and splitting text on line boundaries on load.

use vstd::prelude::*;
use crate::buffer::lines_of;

verus! {

/// Drops one trailing carriage return, if present: the treatment a line
/// terminated by `"\r\n"` receives when text is split into lines.
pub open spec fn strip_cr(s: Seq<char>) -> Seq<char> {
    if s.len() > 0 && s.last() == '\r' {
        s.drop_last()
    } else {
        s
    }
}

/// Index of the first newline in `t`, or `t.len()` if there is none.
pub open spec fn first_newline(t: Seq<char>) -> nat
    decreases t.len(),
{
    if t.len() == 0 {
        0
    } else if t[0] == '\n' {
        0
    } else {
        (1 + first_newline(t.drop_first())) as nat
    }
}

/// The lines of `t`: the pieces between newlines, each newline-terminated
/// piece with one trailing carriage return removed. Text after the last
/// newline forms a final line only if it is nonempty, so a final newline
/// produces no trailing empty line. Empty text has no lines.
pub open spec fn split_lines(t: Seq<char>) -> Seq<Seq<char>>
    decreases t.len(),
{
    if t.len() == 0 {
        Seq::empty()
    } else {
        let i = first_newline(t) as int;
        if i >= t.len() {
            seq![t]
        } else {
            seq![strip_cr(t.take(i))] + split_lines(t.skip(i + 1))
        }
    }
}

/// Buffer contents produced by loading text `t`: its lines, except that
/// empty text yields a single empty line, so a buffer is never empty.
pub open spec fn load_spec(t: Seq<char>) -> Seq<Seq<char>> {
    if split_lines(t).len() == 0 {
        seq![Seq::<char>::empty()]
    } else {
        split_lines(t)
    }
}

/// Text produced by saving buffer contents `b`: the lines joined by a
/// newline separator, with no separator after the last line.
pub open spec fn serialize_spec(b: Seq<Seq<char>>) -> Seq<char>
    decreases b.len(),
{
    if b.len() == 0 {
        Seq::empty()
    } else if b.len() == 1 {
        b[0]
    } else {
        serialize_spec(b.drop_last()) + seq!['\n'] + b.last()
    }
}

/// `first_newline` is at most `t.len()`, everything before it is not a
/// newline, and when it is within bounds it points at a newline.
proof fn lemma_first_newline(t: Seq<char>)
    ensures
        first_newline(t) <= t.len(),
        forall|k: int| 0 <= k < first_newline(t) ==> t[k] != '\n',
        first_newline(t) < t.len() ==> t[first_newline(t) as int] == '\n',
    decreases t.len(),
{
    if t.len() > 0 && t[0] != '\n' {
        lemma_first_newline(t.drop_first());
        assert forall|k: int| 0 <= k < first_newline(t) implies t[k] != '\n' by {
            if k > 0 {
                assert(t.drop_first()[k - 1] != '\n');
            }
        }
    }
}

/// `first_newline` is pinned down by its characterization: if nothing before
/// `m` is a newline and `m` is the end or a newline, it is `m`.
proof fn lemma_first_newline_at(t: Seq<char>, m: int)
    requires
        0 <= m <= t.len(),
        forall|k: int| 0 <= k < m ==> t[k] != '\n',
        m < t.len() ==> t[m] == '\n',
    ensures
        first_newline(t) == m,
    decreases t.len(),
{
    if m > 0 {
        lemma_first_newline_at(t.drop_first(), m - 1);
    } else if t.len() > 0 {
        assert(t[0] == '\n');
    }
}

/// Joins the buffer's lines with a newline separator; the last line gets no
/// trailing separator.
pub fn serialize(buffer: &Vec<Vec<char>>) -> (out: Vec<char>)
    ensures
        out@ == serialize_spec(lines_of(buffer@)),
{
    let ghost all = lines_of(buffer@);
    let mut out: Vec<char> = Vec::new();
    let mut i: usize = 0;
    while i < buffer.len()
        invariant
            0 <= i <= buffer@.len(),
            all == lines_of(buffer@),
            out@ == serialize_spec(all.take(i as int)),
        decreases buffer@.len() - i,
    {
        if i > 0 {
            out.push('\n');
        }
        let line = &buffer[i];
        let mut j: usize = 0;
        let ghost pre = out@;
        while j < line.len()
            invariant
                0 <= j <= line@.len(),
                out@ == pre + line@.take(j as int),
            decreases line@.len() - j,
        {
            let c = line[j];
            out.push(c);
            proof {
                assert(out@ =~= pre + line@.take(j + 1));
            }
            j = j + 1;
        }
        proof {
            assert(out@ =~= pre + all[i as int]);
            let next = all.take(i as int + 1);
            assert(next.drop_last() =~= all.take(i as int));
            assert(next.last() == all[i as int]);
            assert(out@ =~= serialize_spec(next));
        }
        i = i + 1;
    }
    proof {
        assert(all.take(all.len() as int) =~= all);
    }
    out
}

/// Splits text into buffer lines: pieces between newlines, a `"\r\n"`
/// terminator treated like `"\n"`, no trailing empty line for a final
/// newline, and at least one (empty) line for empty text.
pub fn load(text: &Vec<char>) -> (r: Vec<Vec<char>>)
    ensures
        lines_of(r@) == load_spec(text@),
        r@.len() >= 1,
{
    let ghost t = text@;
    let mut result: Vec<Vec<char>> = Vec::new();
    let mut current: Vec<char> = Vec::new();
    let ghost mut j: int = 0;
    proof {
        assert(t.skip(0) =~= t);
        assert(lines_of(result@) + split_lines(t) =~= split_lines(t));
    }
    let mut i: usize = 0;
    while i < text.len()
        invariant
            0 <= j <= i <= t.len(),
            text@ == t,
            current@ == t.subrange(j, i as int),
            forall|k: int| j <= k < i ==> t[k] != '\n',
            split_lines(t) == lines_of(result@) + split_lines(t.skip(j)),
        decreases t.len() - i,
    {
        let c = text[i];
        if c == '\n' {
            proof {
                let s = t.skip(j);
                lemma_first_newline_at(s, i - j);
                assert(s.take(i - j) =~= current@);
                assert(s.skip(i - j + 1) =~= t.skip(i + 1));
                assert(split_lines(s) == seq![strip_cr(current@)] + split_lines(t.skip(i + 1)));
            }
            let ghost pre = current@;
            if current.len() > 0 {
                let last = current[current.len() - 1];
                if last == '\r' {
                    current.pop();
                }
            }
            proof {
                assert(current@ =~= strip_cr(pre));
            }
            let ghost rs = result@;
            result.push(current);
            proof {
                assert(lines_of(result@) =~= lines_of(rs) + seq![strip_cr(pre)]);
                assert(lines_of(result@) + split_lines(t.skip(i + 1)) =~= split_lines(t));
                assert(t.subrange(i + 1, i + 1) =~= Seq::<char>::empty());
            }
            current = Vec::new();
            proof {
                j = i + 1;
            }
        } else {
            current.push(c);
            proof {
                assert(current@ =~= t.subrange(j, i + 1));
            }
        }
        i = i + 1;
    }
    if current.len() > 0 {
        proof {
            assert(j < t.len());
            let s = t.skip(j);
            lemma_first_newline_at(s, t.len() - j);
            assert(s.take(t.len() - j) =~= s);
            assert(current@ =~= s);
            assert(split_lines(s) == seq![current@]);
        }
        let ghost rs = result@;
        result.push(current);
        proof {
            assert(lines_of(result@) =~= lines_of(rs) + seq![current@]);
            assert(lines_of(result@) =~= split_lines(t));
        }
    } else {
        proof {
            assert(t.skip(j) =~= Seq::<char>::empty());
            assert(lines_of(result@) =~= split_lines(t));
        }
        if result.len() == 0 {
            let empty_line: Vec<char> = Vec::new();
            result.push(empty_line);
            proof {
                assert(lines_of(result@) =~= seq![Seq::<char>::empty()]);
            }
        }
    }
    result
}

/// A line that can sit in saved text unambiguously: it holds no newline.
pub open spec fn line_has_no_newline(l: Seq<char>) -> bool {
    forall|k: int| 0 <= k < l.len() ==> l[k] != '\n'
}

/// Serializing and then splitting restores the lines exactly, provided no
/// line holds a newline, no line before the last ends in a carriage return,
/// and the last line is nonempty.
proof fn lemma_split_of_serialize(b: Seq<Seq<char>>)
    requires
        b.len() >= 1,
        forall|i: int| 0 <= i < b.len() ==> line_has_no_newline(#[trigger] b[i]),
        forall|i: int| 0 <= i < b.len() - 1 ==> (#[trigger] b[i]).len() == 0 || b[i].last() != '\r',
        b.last().len() > 0,
    ensures
        split_lines(serialize_spec(b)) == b,
    decreases b.len(),
{
    if b.len() == 1 {
        let t = serialize_spec(b);
        assert(t == b[0]);
        lemma_first_newline_at(t, t.len() as int);
        assert(split_lines(t) =~= b);
    } else {
        lemma_serialize_cons(b);
        let rest = serialize_spec(b.drop_first());
        let t = serialize_spec(b);
        assert(t == b[0] + seq!['\n'] + rest);
        let n = b[0].len() as int;
        assert(forall|k: int| 0 <= k < n ==> t[k] == b[0][k] && t[k] != '\n');
        assert(t[n] == '\n');
        lemma_first_newline_at(t, n);
        assert(t.take(n) =~= b[0]);
        assert(strip_cr(b[0]) == b[0]);
        assert(t.skip(n + 1) =~= rest);
        assert(b.drop_first().last() == b.last());
        assert(forall|i: int| 0 <= i < b.drop_first().len() ==> line_has_no_newline(
            #[trigger] b.drop_first()[i],
        ));
        assert(forall|i: int| 0 <= i < b.drop_first().len() - 1 ==> (#[trigger] b.drop_first()[i]).len()
            == 0 || b.drop_first()[i].last() != '\r');
        lemma_split_of_serialize(b.drop_first());
        assert(split_lines(t) == seq![b[0]] + b.drop_first());
        assert(split_lines(t) =~= b);
    }
}

/// Serialization peeled from the front: with two or more lines, the text is
/// the first line, a newline, then the serialization of the remaining lines.
proof fn lemma_serialize_cons(b: Seq<Seq<char>>)
    requires
        b.len() >= 2,
    ensures
        serialize_spec(b) == b[0] + seq!['\n'] + serialize_spec(b.drop_first()),
    decreases b.len(),
{
    if b.len() == 2 {
        assert(b.drop_last() =~= seq![b[0]]);
        assert(b.drop_first() =~= seq![b[1]]);
        assert(serialize_spec(seq![b[0]]) == seq![b[0]][0]);
        assert(serialize_spec(seq![b[1]]) == seq![b[1]][0]);
        assert(b.last() == b[1]);
    } else {
        lemma_serialize_cons(b.drop_last());
        assert(b.drop_last()[0] == b[0]);
        assert(b.drop_last().drop_first() =~= b.drop_first().drop_last());
        assert(b.drop_first().last() == b.last());
        assert(serialize_spec(b) == serialize_spec(b.drop_last()) + seq!['\n'] + b.last());
        assert(serialize_spec(b) == (b[0] + seq!['\n'] + serialize_spec(b.drop_first().drop_last()))
            + seq!['\n'] + b.last());
        assert(serialize_spec(b.drop_first()) == serialize_spec(b.drop_first().drop_last())
            + seq!['\n'] + b.drop_first().last());
        assert(serialize_spec(b) =~= b[0] + seq!['\n'] + serialize_spec(b.drop_first()));
    }
}

/// Round trip: loading the serialization of a buffer restores the buffer,
/// for every buffer whose lines hold no newline, whose lines before the last
/// do not end in a carriage return, and whose last line is nonempty (or that
/// is the single empty line).
pub proof fn lemma_load_of_serialize(b: Seq<Seq<char>>)
    requires
        b.len() >= 1,
        forall|i: int| 0 <= i < b.len() ==> line_has_no_newline(#[trigger] b[i]),
        forall|i: int| 0 <= i < b.len() - 1 ==> (#[trigger] b[i]).len() == 0 || b[i].last() != '\r',
        b.last().len() > 0 || (b.len() == 1 && b[0].len() == 0),
    ensures
        load_spec(serialize_spec(b)) == b,
{
    if b.last().len() > 0 {
        lemma_split_of_serialize(b);
    } else {
        assert(b =~~= seq![Seq::<char>::empty()]);
        assert(serialize_spec(b) == b[0]);
        assert(split_lines(serialize_spec(b)) == Seq::<Seq<char>>::empty());
        assert(load_spec(serialize_spec(b)) =~= b);
    }
}

} // verus!
