//! The view model: an ordered list of text items and a selection cursor.
//!
//! The model is pure in-memory state.  It is mutated only through the
//! methods here, each of which preserves the selection invariant: the
//! cursor stays inside the list, and is pinned at zero while the list is
//! empty.

use vstd::prelude::*;
use vstd::string::StringExecFns;

verus! {

/// Mathematical view of the browser state: the item texts in display
/// order (duplicates permitted) and the selection cursor.
#[verifier::ext_equal]
pub struct ModelView {
    pub items: Seq<Seq<char>>,
    pub selected: int,
}

impl ModelView {
    /// The selection invariant: the cursor is a valid index whenever the
    /// list is non-empty, and sits at zero while the list is empty.
    pub open spec fn wf(self) -> bool {
        if self.items.len() == 0 {
            self.selected == 0
        } else {
            0 <= self.selected < self.items.len()
        }
    }
}

/// The character for one decimal digit.
pub open spec fn digit_char(d: int) -> char {
    if d == 0 {
        '0'
    } else if d == 1 {
        '1'
    } else if d == 2 {
        '2'
    } else if d == 3 {
        '3'
    } else if d == 4 {
        '4'
    } else if d == 5 {
        '5'
    } else if d == 6 {
        '6'
    } else if d == 7 {
        '7'
    } else if d == 8 {
        '8'
    } else {
        '9'
    }
}

/// The decimal representation of a non-negative integer, most
/// significant digit first and without leading zeros (zero itself is
/// written "0").
pub open spec fn dec_rep(n: int) -> Seq<char>
    decreases n,
{
    if n < 10 {
        seq![digit_char(n)]
    } else {
        dec_rep(n / 10) + seq![digit_char(n % 10)]
    }
}

/// The fixed prefix of every synthesized item text.
pub open spec fn label_prefix() -> Seq<char> {
    seq!['N', 'e', 'w', ' ', 'I', 't', 'e', 'm', ' ']
}

/// The text of the item synthesized when the list grows to `n` entries.
pub open spec fn item_label(n: int) -> Seq<char> {
    label_prefix() + dec_rep(n)
}

/// The one-character string for a decimal digit.
fn digit_str(d: u64) -> (r: &'static str)
    requires
        d < 10,
    ensures
        r@ == seq![digit_char(d as int)],
{
    proof {
        reveal_strlit("0");
        reveal_strlit("1");
        reveal_strlit("2");
        reveal_strlit("3");
        reveal_strlit("4");
        reveal_strlit("5");
        reveal_strlit("6");
        reveal_strlit("7");
        reveal_strlit("8");
        reveal_strlit("9");
    }
    match d {
        0 => "0",
        1 => "1",
        2 => "2",
        3 => "3",
        4 => "4",
        5 => "5",
        6 => "6",
        7 => "7",
        8 => "8",
        _ => "9",
    }
}

/// Appends the decimal representation of `n` to `s`.
fn push_dec(s: &mut String, n: u64)
    ensures
        final(s)@ == old(s)@ + dec_rep(n as int),
    decreases n,
{
    if n >= 10 {
        push_dec(s, n / 10);
        let d = digit_str(n % 10);
        s.append(d);
        proof {
            assert(s@ =~= old(s)@ + dec_rep(n as int));
        }
    } else {
        let d = digit_str(n);
        s.append(d);
    }
}

/// Builds the text of a newly synthesized item, `"New Item "` followed
/// by the decimal representation of `n`.
pub fn new_item_label(n: u64) -> (r: String)
    ensures
        r@ == item_label(n as int),
{
    let mut s = "New Item ".to_owned();
    proof {
        reveal_strlit("New Item ");
        assert(s@ =~= label_prefix());
    }
    push_dec(&mut s, n);
    s
}

/// The in-memory state driving what is rendered each frame.
pub struct ViewModel {
    items: Vec<String>,
    selected: usize,
}

impl View for ViewModel {
    type V = ModelView;

    closed spec fn view(&self) -> ModelView {
        ModelView { items: self.items.deep_view(), selected: self.selected as int }
    }
}

impl ViewModel {
    /// A model over the given items with the cursor on the first one.
    pub fn from_items(items: Vec<String>) -> (m: ViewModel)
        ensures
            m@.items == items.deep_view(),
            m@.selected == 0,
            m@.wf(),
    {
        ViewModel { items, selected: 0 }
    }

    /// The fixed three-item seed state the browser starts from.
    pub fn initial() -> (m: ViewModel)
        ensures
            m@.items =~= seq!["Item 1"@, "Item 2"@, "Item 3"@],
            m@.selected == 0,
            m@.wf(),
    {
        let mut items: Vec<String> = Vec::new();
        items.push("Item 1".to_owned());
        items.push("Item 2".to_owned());
        items.push("Item 3".to_owned());
        let m = ViewModel { items, selected: 0 };
        proof {
            assert(m@.items =~= seq!["Item 1"@, "Item 2"@, "Item 3"@]);
        }
        m
    }

    /// How many items the list holds.
    pub fn len(&self) -> (n: usize)
        ensures
            n == self@.items.len(),
    {
        self.items.len()
    }

    /// The index of the selected item.
    pub fn selected_index(&self) -> (i: usize)
        ensures
            i == self@.selected,
    {
        self.selected
    }

    /// The text of the item at index `i`.
    pub fn item(&self, i: usize) -> (s: &String)
        requires
            i < self@.items.len(),
        ensures
            s@ == self@.items[i as int],
    {
        &self.items[i]
    }

    /// Moves the cursor one item down, saturating at the last index; a
    /// no-op on an empty list.
    pub fn select_down(&mut self)
        ensures
            final(self)@.items == old(self)@.items,
            final(self)@.selected == if old(self)@.items.len() > 0
                && old(self)@.selected < old(self)@.items.len() - 1 {
                old(self)@.selected + 1
            } else {
                old(self)@.selected
            },
    {
        if self.items.len() > 0 && self.selected < self.items.len() - 1 {
            self.selected = self.selected + 1;
        }
    }

    /// Moves the cursor one item up, saturating at zero.
    pub fn select_up(&mut self)
        ensures
            final(self)@.items == old(self)@.items,
            final(self)@.selected == if old(self)@.selected > 0 {
                old(self)@.selected - 1
            } else {
                old(self)@.selected
            },
    {
        if self.selected > 0 {
            self.selected = self.selected - 1;
        }
    }

    /// Appends the synthesized item `"New Item {len + 1}"` to the end of
    /// the list; the cursor does not move.
    pub fn append_new(&mut self)
        requires
            old(self)@.items.len() < usize::MAX,
        ensures
            final(self)@.items =~= old(self)@.items.push(
                item_label(old(self)@.items.len() + 1 as int),
            ),
            final(self)@.selected == old(self)@.selected,
    {
        let n = self.items.len() as u64 + 1;
        let label = new_item_label(n);
        self.items.push(label);
        proof {
            assert(self@.items =~= old(self)@.items.push(
                item_label(old(self)@.items.len() + 1 as int),
            ));
        }
    }
}

} // verus!
