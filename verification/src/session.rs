//! The browser loop as a state machine.
//!
//! The main loop alternates terminal work (drawing, polling) with
//! decisions.  The decisions live here: a [`Browser`] holds the view
//! model and a flag that records whether a quit key has been seen, and
//! [`Browser::on_event`] advances it by one event.  Its result tells the
//! driver whether this event is the one on which to leave the loop and
//! tear the terminal session down; once the flag is set, every further
//! queued event is ignored and no second teardown is ever asked for.

use vstd::prelude::*;
use crate::input::{dispatch, is_quit, step_model, Key, Signal};
use crate::model::{ModelView, ViewModel};

verus! {

/// Mathematical view of the loop state: the view model and whether the
/// quit key has been seen.
pub struct BrowserView {
    pub model: ModelView,
    pub done: bool,
}

/// One step of the loop: a finished browser ignores every event; the
/// quit key finishes it; any other event steps the view model.
pub open spec fn browser_step(b: BrowserView, k: Key) -> BrowserView {
    if b.done {
        b
    } else if is_quit(k) {
        BrowserView { done: true, ..b }
    } else {
        BrowserView { model: step_model(b.model, k), ..b }
    }
}

/// The loop state after a whole queue of events, applied in order.
pub open spec fn browser_run(b: BrowserView, ks: Seq<Key>) -> BrowserView
    decreases ks.len(),
{
    if ks.len() == 0 {
        b
    } else {
        browser_run(browser_step(b, ks[0]), ks.skip(1))
    }
}

/// How many of the events in the queue make the driver tear the
/// terminal session down: exactly those quit keys that arrive while the
/// browser is not yet finished.
pub open spec fn teardown_count(b: BrowserView, ks: Seq<Key>) -> int
    decreases ks.len(),
{
    if ks.len() == 0 {
        0
    } else {
        (if !b.done && is_quit(ks[0]) {
            1int
        } else {
            0int
        }) + teardown_count(browser_step(b, ks[0]), ks.skip(1))
    }
}

/// The browser loop state: the view model plus the termination flag.
pub struct Browser {
    model: ViewModel,
    done: bool,
}

impl View for Browser {
    type V = BrowserView;

    closed spec fn view(&self) -> BrowserView {
        BrowserView { model: self.model@, done: self.done }
    }
}

impl Browser {
    /// A running browser over the given view model.
    pub fn new(model: ViewModel) -> (b: Browser)
        ensures
            b@.model == model@,
            !b@.done,
    {
        Browser { model, done: false }
    }

    /// Read-only access to the view model, for rendering.
    pub fn model(&self) -> (m: &ViewModel)
        ensures
            m@ == self@.model,
    {
        &self.model
    }

    /// Whether a quit key has been seen.
    pub fn is_done(&self) -> (d: bool)
        ensures
            d == self@.done,
    {
        self.done
    }

    /// Advances the loop by one event.  Returns true exactly when this
    /// event is the one on which the driver must leave the loop and tear
    /// the terminal session down.
    pub fn on_event(&mut self, k: Key) -> (teardown: bool)
        requires
            old(self)@.model.items.len() < usize::MAX,
        ensures
            final(self)@ == browser_step(old(self)@, k),
            teardown == (!old(self)@.done && is_quit(k)),
    {
        if self.done {
            return false;
        }
        let s = dispatch(&mut self.model, k);
        match s {
            Signal::Terminate => {
                self.done = true;
                true
            },
            Signal::Continue => false,
        }
    }
}

/// A finished browser absorbs every further event: the queue changes
/// nothing and asks for no teardown.
pub proof fn lemma_done_absorbs(b: BrowserView, ks: Seq<Key>)
    requires
        b.done,
    ensures
        browser_run(b, ks) == b,
        teardown_count(b, ks) == 0,
    decreases ks.len(),
{
    if ks.len() > 0 {
        lemma_done_absorbs(b, ks.skip(1));
    }
}

/// Idempotent quit law: from a running browser, any queue of events
/// leads to at most one teardown; there is one exactly when the queue
/// holds a quit key, however many events follow it.
pub proof fn lemma_quit_teardown_once(b: BrowserView, ks: Seq<Key>)
    requires
        !b.done,
    ensures
        browser_run(b, ks).done <==> exists|i: int| 0 <= i < ks.len() && is_quit(ks[i]),
        teardown_count(b, ks) == if browser_run(b, ks).done {
            1int
        } else {
            0int
        },
        teardown_count(b, ks) <= 1,
    decreases ks.len(),
{
    if ks.len() > 0 {
        let b1 = browser_step(b, ks[0]);
        if is_quit(ks[0]) {
            lemma_done_absorbs(b1, ks.skip(1));
            assert(is_quit(ks[0int]));
        } else {
            lemma_quit_teardown_once(b1, ks.skip(1));
            assert(browser_run(b, ks).done <==> exists|i: int|
                0 <= i < ks.skip(1).len() && is_quit(ks.skip(1)[i]));
            if exists|i: int| 0 <= i < ks.skip(1).len() && is_quit(ks.skip(1)[i]) {
                let i = choose|i: int| 0 <= i < ks.skip(1).len() && is_quit(ks.skip(1)[i]);
                assert(ks[i + 1] == ks.skip(1)[i]);
            }
            if exists|i: int| 0 <= i < ks.len() && is_quit(ks[i]) {
                let i = choose|i: int| 0 <= i < ks.len() && is_quit(ks[i]);
                assert(i >= 1);
                assert(ks.skip(1)[i - 1] == ks[i]);
            }
        }
    }
}

} // verus!
