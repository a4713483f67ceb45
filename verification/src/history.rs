//! Bounded store of recent finalized transcripts, most recent first.
//!
//! Blank text is ignored, new entries go to the front, and once the fixed
//! capacity is reached the oldest entry is evicted from the back. Listing
//! hands out a snapshot copy, never a live view.

use vstd::prelude::*;

use crate::chars::is_blank;
use crate::chars::str_is_blank;

verus! {

/// Fixed capacity of the history store.
pub const MAX_HISTORY_ITEMS: usize = 50;

/// Recent finalized transcripts, most recent first.
pub struct HistoryStore {
    items: Vec<String>,
}

impl View for HistoryStore {
    type V = Seq<Seq<char>>;

    closed spec fn view(&self) -> Seq<Seq<char>> {
        self.items.deep_view()
    }
}

impl HistoryStore {
    /// The store never holds more than the fixed capacity, and never holds a
    /// blank entry.
    pub open spec fn wf(&self) -> bool {
        &&& self@.len() <= MAX_HISTORY_ITEMS
        &&& forall|i: int| 0 <= i < self@.len() ==> !is_blank(#[trigger] self@[i])
    }

    /// An empty store.
    pub fn new() -> (r: HistoryStore)
        ensures
            r.wf(),
            r@ == Seq::<Seq<char>>::empty(),
    {
        let r = HistoryStore { items: Vec::new() };
        proof {
            assert(r@ =~= Seq::<Seq<char>>::empty());
        }
        r
    }

    /// Inserts `text` at the front; blank text is ignored; the oldest entry
    /// is evicted when the store is full.
    pub fn add_history_item(&mut self, text: &str)
        requires
            old(self).wf(),
        ensures
            final(self).wf(),
            is_blank(text@) ==> final(self)@ == old(self)@,
            !is_blank(text@) && old(self)@.len() < MAX_HISTORY_ITEMS ==> final(self)@ == seq![
                text@,
            ] + old(self)@,
            !is_blank(text@) && old(self)@.len() == MAX_HISTORY_ITEMS ==> final(self)@ == (seq![
                text@,
            ] + old(self)@).take(MAX_HISTORY_ITEMS as int),
    {
        if str_is_blank(text) {
            return ;
        }
        self.items.insert(0, text.to_owned());
        if self.items.len() > MAX_HISTORY_ITEMS {
            self.items.pop();
        }
        proof {
            if old(self)@.len() < MAX_HISTORY_ITEMS {
                assert(final(self)@ =~= seq![text@] + old(self)@);
            } else {
                assert(final(self)@ =~= (seq![text@] + old(self)@).take(MAX_HISTORY_ITEMS as int));
            }
        }
    }

    /// A snapshot copy of the stored transcripts, most recent first.
    pub fn get_history_items(&self) -> (r: Vec<String>)
        ensures
            r.deep_view() == self@,
    {
        let n = self.items.len();
        let mut r: Vec<String> = Vec::new();
        let mut i: usize = 0;
        while i < n
            invariant
                n == self.items@.len(),
                i <= n,
                r@.len() == i as int,
                forall|k: int| 0 <= k < i ==> r@[k] == self.items@[k],
            decreases n - i,
        {
            r.push(self.items[i].clone());
            i = i + 1;
        }
        proof {
            assert forall|k: int| 0 <= k < n implies r.deep_view()[k] == self@[k] by {
                assert(r@[k] == self.items@[k]);
            }
            assert(r.deep_view() =~= self@);
        }
        r
    }

    /// Removes every stored transcript.
    pub fn clear_history(&mut self)
        ensures
            final(self).wf(),
            final(self)@ == Seq::<Seq<char>>::empty(),
    {
        self.items.clear();
        proof {
            assert(final(self)@ =~= Seq::<Seq<char>>::empty());
        }
    }

    /// Number of stored transcripts.
    pub fn len(&self) -> (r: usize)
        ensures
            r == self@.len(),
    {
        self.items.len()
    }
}

} // verus!
