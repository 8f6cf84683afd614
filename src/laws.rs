//! Laws of the editor's state machine, proved over the spec functions that
//! the executable functions' contracts use.
use vstd::prelude::*;

use crate::editor::Editor;
use crate::input::{Action, Event, Mode, is_mapped, resolve};

verus! {

/// Whether `a` is one of the four cursor moves.
pub open spec fn is_move(a: Action) -> bool {
    ||| a is MoveUp
    ||| a is MoveDown
    ||| a is MoveLeft
    ||| a is MoveRight
}

/// The state after applying `acts` to `e`, first to last.
pub open spec fn after_all(e: Editor, acts: Seq<Action>) -> Editor
    decreases acts.len(),
{
    if acts.len() == 0 {
        e
    } else {
        after_all(e, acts.drop_last()).after(acts.last())
    }
}

/// An event that the command table of its mode does not list resolves to no
/// action; one that it lists resolves to an action.
pub proof fn lemma_unmapped_event_is_ignored(mode: Mode, ev: Event)
    ensures
        resolve(mode, ev) is None <==> !is_mapped(mode, ev),
{
}

/// Entering insert mode twice in a row leaves the editor in insert mode after
/// each step, and the second step changes nothing.
pub proof fn lemma_enter_insert_idempotent(e: Editor)
    ensures
        e.after(Action::EnterMode(Mode::Insert)).mode == Mode::Insert,
        e.after(Action::EnterMode(Mode::Insert)).after(Action::EnterMode(Mode::Insert)).mode
            == Mode::Insert,
        e.after(Action::EnterMode(Mode::Insert)).after(Action::EnterMode(Mode::Insert))
            == e.after(Action::EnterMode(Mode::Insert)),
{
}

/// A cursor move keeps a cursor that lies within the terminal there, and
/// leaves the terminal's size as it was.
pub proof fn lemma_move_keeps_bounds(e: Editor, a: Action)
    requires
        e.in_bounds(),
        is_move(a),
    ensures
        e.after(a).in_bounds(),
        e.after(a).size == e.size,
{
}

/// Applying only cursor moves to a state whose cursor lies within the
/// terminal keeps the cursor within the terminal.
proof fn lemma_moves_keep_bounds(e: Editor, acts: Seq<Action>)
    requires
        e.in_bounds(),
        forall|i: int| 0 <= i < acts.len() ==> is_move(#[trigger] acts[i]),
    ensures
        after_all(e, acts).in_bounds(),
    decreases acts.len(),
{
    if acts.len() > 0 {
        lemma_moves_keep_bounds(e, acts.drop_last());
        lemma_move_keeps_bounds(after_all(e, acts.drop_last()), acts.last());
    }
}

/// Along any sequence of cursor moves from a state whose cursor lies within
/// the terminal, the cursor lies within the terminal after every move:
/// `0 <= row <= height` and `0 <= column <= width`.
pub proof fn lemma_clamp_invariant(e: Editor, acts: Seq<Action>)
    requires
        e.in_bounds(),
        forall|i: int| 0 <= i < acts.len() ==> is_move(#[trigger] acts[i]),
    ensures
        forall|n: int| 0 <= n <= acts.len() ==> #[trigger] after_all(e, acts.take(n)).in_bounds(),
{
    assert forall|n: int| 0 <= n <= acts.len() implies #[trigger] after_all(
        e,
        acts.take(n),
    ).in_bounds() by {
        let pre = acts.take(n);
        assert forall|i: int| 0 <= i < pre.len() implies is_move(#[trigger] pre[i]) by {
            assert(pre[i] == acts[i]);
        }
        lemma_moves_keep_bounds(e, pre);
    }
}

/// Moving up from the top row stays on the top row.
pub proof fn lemma_move_up_at_top(e: Editor)
    requires
        e.cy == 0,
    ensures
        e.after(Action::MoveUp).cy == 0,
{
}

/// Moving right from the last column, `column == width`, leaves the column
/// unchanged.
pub proof fn lemma_move_right_at_edge(e: Editor)
    requires
        e.cx == e.size.width,
    ensures
        e.after(Action::MoveRight).cx == e.cx,
{
}

} // verus!
