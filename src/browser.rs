use vstd::prelude::*;
use crate::registry::{Package, truncate_description, truncated};

verus! {

/// Rows that one package occupies in the rendered table.
pub const ITEM_HEIGHT: usize = 4;

/// Largest catalog whose scroll offsets all fit in a `usize`.
pub const MAX_PACKAGES: usize = usize::MAX / ITEM_HEIGHT;

/// A navigation step of the browser.
#[derive(Clone, Copy, Debug, PartialEq, Eq, Structural)]
pub enum Nav {
    Next,
    Previous,
}

/// A cursor fits a snapshot of `len` records: absent when it is empty,
/// an index into it otherwise.
pub open spec fn cursor_valid(len: nat, cursor: Option<nat>) -> bool {
    if len == 0 {
        cursor is None
    } else {
        cursor is Some && cursor->0 < len
    }
}

/// The cursor that a fresh browser over `len` records starts with.
pub open spec fn initial_cursor(len: nat) -> Option<nat> {
    if len == 0 {
        None
    } else {
        Some(0)
    }
}

/// The cursor after one step forward, wrapping from the last record to the first.
pub open spec fn next_index(c: nat, len: nat) -> nat {
    if c + 1 >= len {
        0
    } else {
        c + 1
    }
}

/// The cursor after one step back, wrapping from the first record to the last.
pub open spec fn previous_index(c: nat, len: nat) -> nat {
    if c == 0 {
        (len - 1) as nat
    } else {
        (c - 1) as nat
    }
}

/// One navigation step over a snapshot of `len` records; a no-op when it is empty.
pub open spec fn navigate(len: nat, cursor: Option<nat>, op: Nav) -> Option<nat> {
    if len == 0 {
        cursor
    } else {
        let c = match cursor {
            Some(c) => c,
            None => 0,
        };
        match op {
            Nav::Next => Some(next_index(c, len)),
            Nav::Previous => Some(previous_index(c, len)),
        }
    }
}

/// The cursor after the steps `ops`, taken in order.
pub open spec fn navigate_all(len: nat, cursor: Option<nat>, ops: Seq<Nav>) -> Option<nat>
    decreases ops.len(),
{
    if ops.len() == 0 {
        cursor
    } else {
        navigate_all(len, navigate(len, cursor, ops[0]), ops.drop_first())
    }
}

/// The cursor after `k` steps forward from `c`.
pub open spec fn next_times(c: nat, len: nat, k: nat) -> nat
    decreases k,
{
    if k == 0 {
        c
    } else {
        next_times(next_index(c, len), len, (k - 1) as nat)
    }
}

/// Where `k` steps forward from `c` land, for up to one full turn.
proof fn lemma_next_times_value(c: nat, len: nat, k: nat)
    requires
        c < len,
        k <= len,
    ensures
        next_times(c, len, k) == if c + k < len {
            c + k
        } else {
            (c + k - len) as nat
        },
    decreases k,
{
    if k > 0 {
        lemma_next_times_value(next_index(c, len), len, (k - 1) as nat);
    }
}

/// `k` forward steps of the browser move the cursor as `next_times` says.
proof fn lemma_navigate_forward(c: nat, len: nat, k: nat)
    requires
        len > 0,
    ensures
        navigate_all(len, Some(c), Seq::new(k, |i: int| Nav::Next)) == Some(next_times(c, len, k)),
    decreases k,
{
    if k > 0 {
        let ops = Seq::new(k, |i: int| Nav::Next);
        assert(ops.drop_first() =~= Seq::new((k - 1) as nat, |i: int| Nav::Next));
        lemma_navigate_forward(next_index(c, len), len, (k - 1) as nat);
    }
}

/// Full-cycle closure: on a snapshot of `len` records, `len` steps forward
/// from any cursor come back to that cursor.
pub proof fn lemma_full_cycle(c: nat, len: nat)
    requires
        c < len,
    ensures
        next_times(c, len, len) == c,
        navigate_all(len, Some(c), Seq::new(len, |i: int| Nav::Next)) == Some(c),
{
    lemma_next_times_value(c, len, len);
    lemma_navigate_forward(c, len, len);
}

/// A step forward and a step back undo each other, in either order.
pub proof fn lemma_next_previous_inverse(c: nat, len: nat)
    requires
        c < len,
    ensures
        previous_index(next_index(c, len), len) == c,
        next_index(previous_index(c, len), len) == c,
        navigate(len, navigate(len, Some(c), Nav::Next), Nav::Previous) == Some(c),
        navigate(len, navigate(len, Some(c), Nav::Previous), Nav::Next) == Some(c),
{
}

/// Any sequence of navigation steps keeps the cursor valid: inside the
/// snapshot when it has records, absent when it has none, where every
/// step is a no-op.
pub proof fn lemma_navigation_in_bounds(len: nat, cursor: Option<nat>, ops: Seq<Nav>)
    requires
        cursor_valid(len, cursor),
    ensures
        cursor_valid(len, navigate_all(len, cursor, ops)),
        len > 0 ==> navigate_all(len, cursor, ops)->0 < len,
        len == 0 ==> navigate_all(len, cursor, ops) is None,
    decreases ops.len(),
{
    if ops.len() > 0 {
        lemma_navigation_in_bounds(len, navigate(len, cursor, ops[0]), ops.drop_first());
    }
}

/// Vertical scroll offset that keeps the row of `cursor` in view.
pub fn scroll_offset_for(cursor: usize) -> (r: usize)
    requires
        cursor <= MAX_PACKAGES,
    ensures
        r == cursor * ITEM_HEIGHT,
{
    cursor * ITEM_HEIGHT
}

/// One row of the rendered table.
#[derive(Debug)]
pub struct TableRow {
    pub name: String,
    pub description: String,
}

/// The interactive browser: the snapshot and the selected row.
pub struct App {
    items: Vec<Package>,
    selected: Option<usize>,
}

impl App {
    /// The snapshot, in display order.
    pub closed spec fn packages(&self) -> Seq<Package> {
        self.items@
    }

    /// The selected row, if any.
    pub closed spec fn cursor(&self) -> Option<nat> {
        match self.selected {
            Some(i) => Some(i as nat),
            None => None,
        }
    }

    pub open spec fn wf(&self) -> bool {
        &&& self.packages().len() <= MAX_PACKAGES
        &&& cursor_valid(self.packages().len(), self.cursor())
    }

    /// A browser over `packages`, with the first row selected if there is one.
    pub fn new(packages: Vec<Package>) -> (r: App)
        requires
            packages@.len() <= MAX_PACKAGES,
        ensures
            r.wf(),
            r.packages() == packages@,
            r.cursor() == initial_cursor(packages@.len()),
    {
        let selected = if packages.len() == 0 {
            None
        } else {
            Some(0)
        };
        App { items: packages, selected }
    }

    /// Selects the following row, wrapping from the last to the first.
    pub fn next(&mut self)
        requires
            old(self).wf(),
        ensures
            final(self).wf(),
            final(self).packages() == old(self).packages(),
            final(self).cursor() == navigate(
                old(self).packages().len(),
                old(self).cursor(),
                Nav::Next,
            ),
    {
        let len = self.items.len();
        if len == 0 {
            return;
        }
        let c = match self.selected {
            Some(c) => c,
            None => 0,
        };
        let i = if c >= len - 1 {
            0
        } else {
            c + 1
        };
        self.selected = Some(i);
    }

    /// Selects the preceding row, wrapping from the first to the last.
    pub fn previous(&mut self)
        requires
            old(self).wf(),
        ensures
            final(self).wf(),
            final(self).packages() == old(self).packages(),
            final(self).cursor() == navigate(
                old(self).packages().len(),
                old(self).cursor(),
                Nav::Previous,
            ),
    {
        let len = self.items.len();
        if len == 0 {
            return;
        }
        let c = match self.selected {
            Some(c) => c,
            None => 0,
        };
        let i = if c == 0 {
            len - 1
        } else {
            c - 1
        };
        self.selected = Some(i);
    }

    /// Takes one navigation step.
    pub fn apply(&mut self, op: Nav)
        requires
            old(self).wf(),
        ensures
            final(self).wf(),
            final(self).packages() == old(self).packages(),
            final(self).cursor() == navigate(old(self).packages().len(), old(self).cursor(), op),
    {
        match op {
            Nav::Next => self.next(),
            Nav::Previous => self.previous(),
        }
    }

    /// Index of the selected row; none when the snapshot is empty.
    pub fn selected(&self) -> (r: Option<usize>)
        ensures
            match r {
                Some(i) => self.cursor() == Some(i as nat),
                None => self.cursor() is None,
            },
    {
        self.selected
    }

    /// Number of packages in the snapshot.
    pub fn len(&self) -> (r: usize)
        ensures
            r == self.packages().len(),
    {
        self.items.len()
    }

    /// The record under the cursor; none when the snapshot is empty.
    pub fn current_selection(&self) -> (r: Option<&Package>)
        requires
            self.wf(),
        ensures
            r is None <==> self.cursor() is None,
            r is Some ==> *r->0 == self.packages()[self.cursor()->0 as int],
    {
        match self.selected {
            Some(i) => Some(&self.items[i]),
            None => None,
        }
    }

    /// Scroll offset for the selected row; zero when nothing is selected.
    pub fn scroll_position(&self) -> (r: usize)
        requires
            self.wf(),
        ensures
            r == match self.cursor() {
                Some(c) => c * ITEM_HEIGHT,
                None => 0,
            },
    {
        match self.selected {
            Some(i) => scroll_offset_for(i),
            None => 0,
        }
    }

    /// The table's rows, one per package in display order, each with the
    /// name and the truncated description.
    pub fn rows(&self) -> (r: Vec<TableRow>)
        ensures
            r@.len() == self.packages().len(),
            forall|i: int|
                0 <= i < r@.len() ==> {
                    &&& (#[trigger] r@[i]).name@ == self.packages()[i].name@
                    &&& r@[i].description@ == truncated(self.packages()[i].description@)
                },
    {
        let mut rows: Vec<TableRow> = Vec::new();
        let mut i: usize = 0;
        while i < self.items.len()
            invariant
                i <= self.items@.len(),
                rows@.len() == i,
                forall|j: int|
                    0 <= j < i ==> {
                        &&& (#[trigger] rows@[j]).name@ == self.items@[j].name@
                        &&& rows@[j].description@ == truncated(self.items@[j].description@)
                    },
            decreases self.items@.len() - i,
        {
            let p = &self.items[i];
            let row = TableRow {
                name: p.name.clone(),
                description: truncate_description(p.description.as_str()),
            };
            rows.push(row);
            i = i + 1;
        }
        rows
    }
}

} // verus!
