//! Properties of the editing operations, proved over their mathematical
//! models: the session invariant survives any sequence of operations,
//! splitting a line and deleting at the split point round-trips, so does
//! inserting a character and deleting it, and the motions are no-ops at
//! the buffer's edges.

use vstd::prelude::*;

use crate::cursor::EditOp;
use crate::cursor::EditorState;
use crate::cursor::step;

verus! {

/// One operation from a well-formed state leaves a well-formed state.
pub proof fn lemma_step_preserves_wf(s: EditorState, op: EditOp)
    requires
        s.wf(),
    ensures
        step(s, op).wf(),
{
    match op {
        EditOp::Insert(c) => {
            crate::cursor::lemma_insert_shape(s, c);
        },
        EditOp::Tab => {
            crate::cursor::lemma_insert_shape(s, ' ');
            crate::cursor::lemma_insert_shape(s.insert_spec(' '), ' ');
            crate::cursor::lemma_insert_shape(s.insert_spec(' ').insert_spec(' '), ' ');
            crate::cursor::lemma_insert_shape(
                s.insert_spec(' ').insert_spec(' ').insert_spec(' '),
                ' ',
            );
        },
        _ => {},
    }
}

/// The state an operation sequence leads to, first operation first.
pub open spec fn run(s: EditorState, ops: Seq<EditOp>) -> EditorState
    decreases ops.len(),
{
    if ops.len() == 0 {
        s
    } else {
        run(step(s, ops[0]), ops.skip(1))
    }
}

/// Invariant: after any sequence of operations from a well-formed state,
/// the row stays a valid 1-based index into a never-empty buffer and the
/// column stays at most one past the end of the current line.
pub proof fn lemma_run_preserves_wf(s: EditorState, ops: Seq<EditOp>)
    requires
        s.wf(),
    ensures
        run(s, ops).wf(),
    decreases ops.len(),
{
    if ops.len() > 0 {
        lemma_step_preserves_wf(s, ops[0]);
        lemma_run_preserves_wf(step(s, ops[0]), ops.skip(1));
    }
}

/// Split/join round trip: from any well-formed state whose column is not
/// the transient 0, splitting the line and then deleting at the resulting
/// cursor position restores the buffer, the row, and the column exactly.
pub proof fn lemma_newline_delete_round_trip(s: EditorState)
    requires
        s.wf(),
        1 <= s.x,
    ensures
        s.newline_spec().delete_spec() == s,
{
    if s.cur().len() == 0 {
        let s1 = s.newline_spec();
        assert(s1.lines == s.lines.insert(s.y, Seq::<char>::empty()));
        assert(s1.delete_spec().lines =~~= s.lines);
        assert(s1.delete_spec() =~~= s);
    } else {
        let x0 = s.x;
        let head = s.cur().subrange(0, x0 - 1);
        let tail = s.cur().subrange(x0 - 1, s.cur().len() as int);
        let s1 = s.newline_spec();
        assert(s1.lines == s.lines.insert(s.y, tail).update(s.y - 1, head));
        assert(s1.x == 1 && s1.y == s.y + 1);
        let joined = s1.lines[s1.y - 2] + s1.cur();
        assert(joined =~~= s.cur());
        assert(s1.delete_spec().lines =~~= s.lines);
        assert(s1.delete_spec() =~~= s);
    }
}

/// Insert/delete round trip: from any well-formed state whose column is
/// not the transient 0, inserting a character and then deleting at the
/// resulting cursor position restores the line and the column exactly.
pub proof fn lemma_insert_delete_round_trip(s: EditorState, c: char)
    requires
        s.wf(),
        1 <= s.x,
    ensures
        s.insert_spec(c).delete_spec() == s,
{
    let s1 = s.insert_spec(c);
    assert(s1.lines == s.lines.update(s.y - 1, s.cur().insert(s.x - 1, c)));
    s.cur().insert_ensures(s.x - 1, c);
    assert(s1.x == s.x + 1 && s1.y == s.y);
    assert(s1.cur().remove(s1.x - 2) =~~= s.cur());
    assert(s1.delete_spec().lines =~~= s.lines);
    assert(s1.delete_spec() =~~= s);
}

/// Boundary behavior: moving up at the first row, moving down at the last
/// row, and deleting at column 1 of the first row all leave the state
/// unchanged.
pub proof fn lemma_boundary_no_ops(s: EditorState)
    requires
        s.wf(),
    ensures
        s.y == 1 ==> s.up_spec() == s,
        s.y == s.lines.len() ==> s.down_spec() == s,
        s.x == 1 && s.y == 1 ==> s.delete_spec() == s,
{
}

} // verus!
