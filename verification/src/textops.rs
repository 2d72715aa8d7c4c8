//! Splitting a text into lines and joining lines back into a text.
//!
//! A document is stored as a sequence of lines.  Loading splits the input on
//! `'\n'` boundaries and discards the terminators (a trailing terminator does
//! not produce an extra empty line); saving appends the line terminator to
//! every line, including the last.

use vstd::prelude::*;

verus! {

/// One pass of the line splitter over `s`, starting at index `i` with the
/// partial current line `cur` and the lines `acc` already produced.
pub open spec fn split_rec(s: Seq<char>, i: int, cur: Seq<char>, acc: Seq<Seq<char>>) -> Seq<
    Seq<char>,
>
    decreases s.len() - i,
{
    if i < 0 || i >= s.len() {
        if cur.len() == 0 {
            acc
        } else {
            acc.push(cur)
        }
    } else if s[i] == '\n' {
        split_rec(s, i + 1, Seq::empty(), acc.push(cur))
    } else {
        split_rec(s, i + 1, cur.push(s[i]), acc)
    }
}

/// The lines of `s`: the segments between `'\n'` characters, with the
/// terminators discarded and no extra empty line for a trailing terminator.
pub open spec fn split_lines(s: Seq<char>) -> Seq<Seq<char>> {
    split_rec(s, 0, Seq::empty(), Seq::empty())
}

/// The serialized form of `ls`: every line followed by `endl`, the last
/// included.
pub open spec fn join_lines(ls: Seq<Seq<char>>, endl: Seq<char>) -> Seq<char>
    decreases ls.len(),
{
    if ls.len() == 0 {
        Seq::empty()
    } else {
        ls[0] + endl + join_lines(ls.drop_first(), endl)
    }
}

/// The lines of `ls` joined with `sep` between consecutive lines and nothing
/// at the end.
pub open spec fn join_sep(ls: Seq<Seq<char>>, sep: Seq<char>) -> Seq<char>
    decreases ls.len(),
{
    if ls.len() == 0 {
        Seq::empty()
    } else if ls.len() == 1 {
        ls[0]
    } else {
        ls[0] + sep + join_sep(ls.drop_first(), sep)
    }
}

/// `t` with a final `'\n'` guaranteed: unchanged if it already ends with one,
/// with one appended otherwise.
pub open spec fn terminated(t: Seq<char>) -> Seq<char> {
    if t.len() > 0 && t.last() == '\n' {
        t
    } else {
        t.push('\n')
    }
}

pub proof fn lemma_join_lines_push(ls: Seq<Seq<char>>, x: Seq<char>, endl: Seq<char>)
    ensures
        join_lines(ls.push(x), endl) == join_lines(ls, endl) + x + endl,
    decreases ls.len(),
{
    if ls.len() == 0 {
        assert(join_lines(Seq::<Seq<char>>::empty(), endl) == Seq::<char>::empty());
        assert(ls.push(x).drop_first() =~= Seq::<Seq<char>>::empty());
        assert(ls.push(x)[0] == x);
        assert(join_lines(ls.push(x), endl) == x + endl + join_lines(
            Seq::<Seq<char>>::empty(),
            endl,
        ));
        assert(x + endl + Seq::<char>::empty() =~= x + endl);
        assert(join_lines(ls, endl) + x + endl =~= x + endl);
    } else {
        assert(ls.push(x).drop_first() =~= ls.drop_first().push(x));
        lemma_join_lines_push(ls.drop_first(), x, endl);
        assert(join_lines(ls.push(x), endl) =~= join_lines(ls, endl) + x + endl);
    }
}

pub proof fn lemma_join_sep_push(ls: Seq<Seq<char>>, x: Seq<char>, sep: Seq<char>)
    ensures
        join_sep(ls.push(x), sep) == if ls.len() == 0 {
            x
        } else {
            join_sep(ls, sep) + sep + x
        },
    decreases ls.len(),
{
    if ls.len() == 0 {
        assert(join_sep(ls.push(x), sep) =~= x);
    } else {
        assert(ls.push(x).drop_first() =~= ls.drop_first().push(x));
        lemma_join_sep_push(ls.drop_first(), x, sep);
        if ls.len() == 1 {
            assert(join_sep(ls.push(x), sep) =~= join_sep(ls, sep) + sep + x);
        } else {
            assert(join_sep(ls.push(x), sep) =~= join_sep(ls, sep) + sep + x);
        }
    }
}

proof fn lemma_split_rec_join(s: Seq<char>, i: int, cur: Seq<char>, acc: Seq<Seq<char>>)
    requires
        0 <= i <= s.len(),
    ensures
        join_lines(split_rec(s, i, cur, acc), seq!['\n']) == join_lines(acc, seq!['\n']) + (if i
            >= s.len() {
            if cur.len() == 0 {
                Seq::<char>::empty()
            } else {
                cur.push('\n')
            }
        } else {
            cur + terminated(s.subrange(i, s.len() as int))
        }),
    decreases s.len() - i,
{
    if i >= s.len() {
        if cur.len() == 0 {
        } else {
            lemma_join_lines_push(acc, cur, seq!['\n']);
            assert(cur + seq!['\n'] =~= cur.push('\n'));
        }
    } else {
        let tail = s.subrange(i, s.len() as int);
        if s[i] == '\n' {
            lemma_split_rec_join(s, i + 1, Seq::empty(), acc.push(cur));
            lemma_join_lines_push(acc, cur, seq!['\n']);
            if i + 1 >= s.len() {
                assert(terminated(tail) =~= seq!['\n']);
                assert(join_lines(acc, seq!['\n']) + cur + seq!['\n'] =~= join_lines(
                    acc,
                    seq!['\n'],
                ) + (cur + terminated(tail)));
            } else {
                let tail2 = s.subrange(i + 1, s.len() as int);
                assert(tail.last() == tail2.last());
                assert(terminated(tail) =~= seq!['\n'] + terminated(tail2));
                assert(join_lines(acc, seq!['\n']) + cur + seq!['\n'] + (Seq::<char>::empty()
                    + terminated(tail2)) =~= join_lines(acc, seq!['\n']) + (cur + terminated(
                    tail,
                )));
            }
        } else {
            lemma_split_rec_join(s, i + 1, cur.push(s[i]), acc);
            if i + 1 >= s.len() {
                assert(terminated(tail) =~= seq![s[i], '\n']);
                assert(join_lines(acc, seq!['\n']) + cur.push(s[i]).push('\n') =~= join_lines(
                    acc,
                    seq!['\n'],
                ) + (cur + terminated(tail)));
            } else {
                let tail2 = s.subrange(i + 1, s.len() as int);
                assert(tail.last() == tail2.last());
                assert(terminated(tail) =~= seq![s[i]] + terminated(tail2));
                assert(join_lines(acc, seq!['\n']) + (cur.push(s[i]) + terminated(tail2))
                    =~= join_lines(acc, seq!['\n']) + (cur + terminated(tail)));
            }
        }
    }
}

/// Serializing the lines of a text reproduces the text, with a final
/// terminator guaranteed: splitting any `t` into lines and joining those
/// lines with `'\n'` appended to each yields `t` itself when `t` is empty or
/// already ends in `'\n'`, and `t` with one `'\n'` appended otherwise.
pub proof fn lemma_split_join_round_trip(t: Seq<char>)
    ensures
        join_lines(split_lines(t), seq!['\n']) == if t.len() == 0 {
            Seq::<char>::empty()
        } else {
            terminated(t)
        },
{
    lemma_split_rec_join(t, 0, Seq::empty(), Seq::empty());
    if t.len() == 0 {
    } else {
        assert(t.subrange(0, t.len() as int) =~= t);
        assert(join_lines(Seq::empty(), seq!['\n']) + (Seq::<char>::empty() + terminated(t))
            =~= terminated(t));
    }
}

} // verus!
