//! The input dispatcher: translates one keyboard event into a view-model
//! mutation or a loop-termination signal.
//!
//! The meaning of every event is fixed by the spec function [`step_model`];
//! the executable dispatcher is proved to follow it exactly.  The proof
//! functions at the end state the laws of event sequences: the selection
//! invariant is preserved by every event, the list grows by exactly the
//! number of `Enter` events, and navigation never touches the items.

use vstd::prelude::*;
use crate::model::{item_label, ModelView, ViewModel};

verus! {

/// A keyboard event, as the dispatcher understands it.
#[derive(Clone, Copy, PartialEq, Eq, Structural, Debug)]
pub enum Key {
    /// A printable character key.
    Char(char),
    /// The up arrow.
    Up,
    /// The down arrow.
    Down,
    /// The enter key.
    Enter,
    /// Any other key; always a no-op.
    Other,
}

/// What the dispatcher tells the loop after each event.
#[derive(Clone, Copy, PartialEq, Eq, Structural, Debug)]
pub enum Signal {
    /// Keep rendering and polling.
    Continue,
    /// Leave the loop and tear the terminal session down.
    Terminate,
}

/// Whether the key quits the browser.
pub open spec fn is_quit(k: Key) -> bool {
    k == Key::Char('q')
}

/// The effect of one key event on the view model: `Down`/`Up` move the
/// cursor by one, saturating at the list ends and ignoring an empty
/// list; `Enter` appends a synthesized item without moving the cursor;
/// every other key (the quit key included) leaves the model unchanged.
pub open spec fn step_model(m: ModelView, k: Key) -> ModelView {
    match k {
        Key::Down => ModelView {
            selected: if m.items.len() > 0 && m.selected < m.items.len() - 1 {
                m.selected + 1
            } else {
                m.selected
            },
            ..m
        },
        Key::Up => ModelView {
            selected: if m.selected > 0 {
                m.selected - 1
            } else {
                m.selected
            },
            ..m
        },
        Key::Enter => ModelView { items: m.items.push(item_label(m.items.len() + 1 as int)), ..m },
        _ => m,
    }
}

/// The view model after a whole sequence of key events, applied in order.
pub open spec fn run_model(m: ModelView, ks: Seq<Key>) -> ModelView
    decreases ks.len(),
{
    if ks.len() == 0 {
        m
    } else {
        run_model(step_model(m, ks[0]), ks.skip(1))
    }
}

/// How many events of a sequence are `Enter`.
pub open spec fn count_enter(ks: Seq<Key>) -> int
    decreases ks.len(),
{
    if ks.len() == 0 {
        0
    } else {
        (if ks[0] == Key::Enter {
            1int
        } else {
            0int
        }) + count_enter(ks.skip(1))
    }
}

/// Whether every event of a sequence is a navigation key.
pub open spec fn all_navigation(ks: Seq<Key>) -> bool {
    forall|i: int| 0 <= i < ks.len() ==> (ks[i] == Key::Up || ks[i] == Key::Down)
}

/// Dispatches one key event: mutates the model as [`step_model`] says and
/// signals termination exactly on the quit key.
pub fn dispatch(model: &mut ViewModel, k: Key) -> (s: Signal)
    requires
        old(model)@.items.len() < usize::MAX,
    ensures
        final(model)@ == step_model(old(model)@, k),
        s == Signal::Terminate <==> is_quit(k),
{
    match k {
        Key::Char(c) => {
            if c == 'q' {
                Signal::Terminate
            } else {
                Signal::Continue
            }
        },
        Key::Down => {
            model.select_down();
            proof {
                assert(model@ == step_model(old(model)@, k));
            }
            Signal::Continue
        },
        Key::Up => {
            model.select_up();
            proof {
                assert(model@ == step_model(old(model)@, k));
            }
            Signal::Continue
        },
        Key::Enter => {
            model.append_new();
            proof {
                assert(model@ == step_model(old(model)@, k));
            }
            Signal::Continue
        },
        Key::Other => Signal::Continue,
    }
}

/// Selection bounds law: one event keeps the cursor inside the list.
pub proof fn lemma_step_wf(m: ModelView, k: Key)
    requires
        m.wf(),
    ensures
        step_model(m, k).wf(),
{
}

/// Selection bounds law: after every prefix of any event sequence the
/// cursor is still inside the list — it never leaves `[0, len)` on a
/// non-empty list and never moves off zero on an empty one.
pub proof fn lemma_selection_bounds(m: ModelView, ks: Seq<Key>)
    requires
        m.wf(),
    ensures
        forall|i: int| 0 <= i <= ks.len() ==> #[trigger] run_model(m, ks.take(i)).wf(),
    decreases ks.len(),
{
    assert forall|i: int| 0 <= i <= ks.len() implies #[trigger] run_model(m, ks.take(i)).wf() by {
        lemma_run_prefix_wf(m, ks.take(i));
    }
}

/// Selection bounds law, stated of one whole sequence.
pub proof fn lemma_run_prefix_wf(m: ModelView, ks: Seq<Key>)
    requires
        m.wf(),
    ensures
        run_model(m, ks).wf(),
    decreases ks.len(),
{
    if ks.len() > 0 {
        lemma_step_wf(m, ks[0]);
        lemma_run_prefix_wf(step_model(m, ks[0]), ks.skip(1));
    }
}

/// Insertion monotonicity law: a sequence with `n` `Enter` events grows
/// the list by exactly `n`, whatever else it contains, and no single
/// `Enter` moves the cursor.
pub proof fn lemma_insertion_monotonic(m: ModelView, ks: Seq<Key>)
    ensures
        run_model(m, ks).items.len() == m.items.len() + count_enter(ks),
        count_enter(ks) >= 0,
        step_model(m, Key::Enter).selected == m.selected,
    decreases ks.len(),
{
    if ks.len() > 0 {
        lemma_insertion_monotonic(step_model(m, ks[0]), ks.skip(1));
    }
}

/// Empty-list safety law (and more generally: navigation never touches
/// the items): a sequence of `Up`/`Down` events leaves the item list —
/// in particular an empty one — exactly as it was.
pub proof fn lemma_navigation_keeps_items(m: ModelView, ks: Seq<Key>)
    requires
        all_navigation(ks),
    ensures
        run_model(m, ks).items == m.items,
    decreases ks.len(),
{
    if ks.len() > 0 {
        assert(all_navigation(ks.skip(1)));
        lemma_navigation_keeps_items(step_model(m, ks[0]), ks.skip(1));
    }
}

/// Empty-list safety law: on an empty list a sequence of `Up`/`Down`
/// events changes nothing at all — the list stays empty and the cursor
/// stays at zero.
pub proof fn lemma_empty_navigation_noop(m: ModelView, ks: Seq<Key>)
    requires
        m.wf(),
        m.items.len() == 0,
        all_navigation(ks),
    ensures
        run_model(m, ks) == m,
{
    lemma_navigation_keeps_items(m, ks);
    lemma_run_prefix_wf(m, ks);
    assert(run_model(m, ks) =~= m);
}

} // verus!
