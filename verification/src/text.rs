//! The on-disk form of a buffer. Saving writes every line followed by one
//! newline, a trailing newline included; loading splits the text back on
//! newlines, a trailing newline yielding no extra empty line. Loading what
//! was saved restores the line sequence exactly.

use vstd::prelude::*;

verus! {

/// The character stream a buffer is saved as: each line, then a newline.
pub open spec fn render_spec(lines: Seq<Seq<char>>) -> Seq<char>
    decreases lines.len(),
{
    if lines.len() == 0 {
        Seq::<char>::empty()
    } else {
        lines[0] + seq!['\n'] + render_spec(lines.skip(1))
    }
}

/// The lines a text loads as: newline-free runs, one line per newline,
/// plus a final line for a non-empty run after the last newline.
pub open spec fn split_spec(s: Seq<char>) -> Seq<Seq<char>>
    decreases s.len(),
{
    if s.len() == 0 {
        Seq::<Seq<char>>::empty()
    } else if s[0] == '\n' {
        seq![Seq::<char>::empty()] + split_spec(s.skip(1))
    } else {
        let rest = split_spec(s.skip(1));
        if rest.len() == 0 {
            seq![seq![s[0]]]
        } else {
            seq![seq![s[0]] + rest[0]] + rest.skip(1)
        }
    }
}

/// Splitting takes the leading newline-free run as the first line.
proof fn lemma_split_prefix(a: Seq<char>, t: Seq<char>)
    requires
        !a.contains('\n'),
    ensures
        split_spec(a + seq!['\n'] + t) == seq![a] + split_spec(t),
    decreases a.len(),
{
    let s = a + seq!['\n'] + t;
    if a.len() == 0 {
        assert(s =~= seq!['\n'] + t);
        assert(s.skip(1) =~= t);
        assert(split_spec(s) =~~= seq![a] + split_spec(t));
    } else {
        assert(a[0] != '\n') by {
            if a[0] == '\n' {
                assert(a.contains('\n'));
            }
        }
        assert(s[0] == a[0]);
        if a.skip(1).contains('\n') {
            let k = choose|k: int| 0 <= k < a.skip(1).len() && a.skip(1)[k] == '\n';
            assert(a[k + 1] == '\n');
            assert(a.contains('\n'));
        }
        lemma_split_prefix(a.skip(1), t);
        assert(s.skip(1) =~= a.skip(1) + seq!['\n'] + t);
        let rest = split_spec(s.skip(1));
        assert(rest == seq![a.skip(1)] + split_spec(t));
        assert(rest.len() > 0);
        assert(seq![s[0]] + rest[0] =~= a);
        assert(rest.skip(1) =~= split_spec(t));
        assert(split_spec(s) =~~= seq![a] + split_spec(t));
    }
}

/// A non-empty text with no newline splits into itself as the only line.
proof fn lemma_split_single(a: Seq<char>)
    requires
        !a.contains('\n'),
        a.len() > 0,
    ensures
        split_spec(a) == seq![a],
    decreases a.len(),
{
    assert(a[0] != '\n') by {
        if a[0] == '\n' {
            assert(a.contains('\n'));
        }
    }
    if a.skip(1).contains('\n') {
        let k = choose|k: int| 0 <= k < a.skip(1).len() && a.skip(1)[k] == '\n';
        assert(a[k + 1] == '\n');
        assert(a.contains('\n'));
    }
    if a.len() == 1 {
        assert(a.skip(1) =~= Seq::<char>::empty());
        assert(split_spec(a.skip(1)) =~= Seq::<Seq<char>>::empty());
        assert(seq![a[0]] =~= a);
        assert(split_spec(a) =~~= seq![a]);
    } else {
        lemma_split_single(a.skip(1));
        assert(seq![a[0]] + a.skip(1) =~= a);
        assert(split_spec(a) =~~= seq![a]);
    }
}

/// Save idempotence: a buffer whose lines hold no newline characters,
/// saved and loaded again, yields the identical line sequence.
pub proof fn lemma_save_load_round_trip(lines: Seq<Seq<char>>)
    requires
        forall|i: int| 0 <= i < lines.len() ==> !(#[trigger] lines[i]).contains('\n'),
    ensures
        split_spec(render_spec(lines)) == lines,
    decreases lines.len(),
{
    if lines.len() > 0 {
        assert forall|i: int| 0 <= i < lines.skip(1).len() implies !(#[trigger] lines.skip(
            1,
        )[i]).contains('\n') by {
            assert(lines.skip(1)[i] == lines[i + 1]);
        }
        lemma_save_load_round_trip(lines.skip(1));
        lemma_split_prefix(lines[0], render_spec(lines.skip(1)));
        assert(split_spec(render_spec(lines)) =~~= lines);
    }
}

/// Flatten a buffer to the character stream that is written to disk.
pub fn render(lines: &Vec<Vec<char>>) -> (out: Vec<char>)
    ensures
        out@ == render_spec(lines.deep_view()),
{
    let ghost all = lines.deep_view();
    let mut out: Vec<char> = Vec::new();
    let mut i: usize = 0;
    proof {
        assert(all.skip(0) =~= all);
        assert(out@ + render_spec(all) =~= render_spec(all));
    }
    while i < lines.len()
        invariant
            i <= lines.len(),
            all == lines.deep_view(),
            out@ + render_spec(all.skip(i as int)) == render_spec(all),
        decreases lines.len() - i,
    {
        let ghost out0 = out@;
        let line = &lines[i];
        let mut j: usize = 0;
        while j < line.len()
            invariant
                j <= line.len(),
                out@ == out0 + line@.take(j as int),
            decreases line.len() - j,
        {
            out.push(line[j]);
            proof {
                assert(out@ =~= out0 + line@.take(j as int + 1));
            }
            j = j + 1;
        }
        out.push('\n');
        proof {
            assert(line@.take(line.len() as int) =~= line@);
            assert(line@ == all[i as int]);
            assert(all.skip(i as int).skip(1) =~= all.skip(i as int + 1));
            assert(all.skip(i as int)[0] == all[i as int]);
            assert(out@ =~= out0 + all[i as int] + seq!['\n']);
            assert(out@ + render_spec(all.skip(i as int + 1)) =~= render_spec(all));
        }
        i = i + 1;
    }
    proof {
        assert(all.skip(lines.len() as int) =~= Seq::<Seq<char>>::empty());
        assert(out@ =~= render_spec(all));
    }
    out
}

/// Split loaded text into the lines of a buffer.
pub fn parse(text: &Vec<char>) -> (lines: Vec<Vec<char>>)
    ensures
        lines.deep_view() == split_spec(text@),
{
    let mut lines: Vec<Vec<char>> = Vec::new();
    let mut cur: Vec<char> = Vec::new();
    let mut i: usize = 0;
    proof {
        assert(lines.deep_view() =~= Seq::<Seq<char>>::empty());
        assert(cur@ + text@.skip(0) =~= text@);
        assert(lines.deep_view() + split_spec(text@) =~= split_spec(text@));
    }
    while i < text.len()
        invariant
            i <= text.len(),
            !cur@.contains('\n'),
            lines.deep_view() + split_spec(cur@ + text@.skip(i as int)) == split_spec(text@),
        decreases text.len() - i,
    {
        let ghost lines0 = lines.deep_view();
        let c = text[i];
        if c == '\n' {
            proof {
                assert(cur@ + text@.skip(i as int) =~= cur@ + seq!['\n'] + text@.skip(
                    i as int + 1,
                ));
                lemma_split_prefix(cur@, text@.skip(i as int + 1));
            }
            let ghost cur0 = cur@;
            lines.push(cur);
            cur = Vec::new();
            proof {
                assert(lines.deep_view() =~~= lines0.push(cur0));
                assert(cur@ + text@.skip(i as int + 1) =~= text@.skip(i as int + 1));
                assert(lines.deep_view() + split_spec(text@.skip(i as int + 1)) =~= split_spec(
                    text@,
                ));
            }
        } else {
            proof {
                assert(cur@.push(c) + text@.skip(i as int + 1) =~= cur@ + text@.skip(i as int));
                if cur@.push(c).contains('\n') {
                    let k = choose|k: int|
                        0 <= k < cur@.push(c).len() && cur@.push(c)[k] == '\n';
                    assert(k < cur@.len() ==> cur@[k] == '\n' && cur@.contains('\n'));
                }
            }
            cur.push(c);
        }
        i = i + 1;
    }
    proof {
        assert(cur@ + text@.skip(text@.len() as int) =~= cur@);
    }
    if cur.len() > 0 {
        let ghost lines0 = lines.deep_view();
        let ghost cur0 = cur@;
        proof {
            lemma_split_single(cur@);
        }
        lines.push(cur);
        proof {
            assert(lines.deep_view() =~~= lines0.push(cur0));
            assert(lines.deep_view() =~= split_spec(text@));
        }
    } else {
        proof {
            assert(cur@ =~= Seq::<char>::empty());
            assert(lines.deep_view() + split_spec(cur@) =~= lines.deep_view());
        }
    }
    lines
}

} // verus!

