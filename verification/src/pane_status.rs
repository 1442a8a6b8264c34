//! Bookkeeping for the floating per-pane status overlay.
//!
//! The overlay hosts a row of pluggable indicator items and follows one
//! active pane. The UI shell owns the real views; here each item and each
//! pane is an identifier. Whenever the followed pane (or its active item)
//! changes, every hosted indicator must be told, in the order the indicators
//! were added; these methods say exactly which indicators that is.

use vstd::prelude::*;

verus! {

/// A floating status display for editor-specific information like cursor
/// position, language, and input mode, shown over the active pane.
///
/// Holds the hosted indicator items, newest last, and the pane the overlay
/// currently follows.
pub struct EditorPaneStatus {
    items: Vec<u64>,
    active_pane: u64,
}

impl EditorPaneStatus {
    /// The hosted indicator items, in the order they were added.
    pub closed spec fn items(self) -> Seq<u64> {
        self.items@
    }

    /// The pane the overlay follows.
    pub closed spec fn active_pane(self) -> u64 {
        self.active_pane
    }

    /// A fresh overlay over the given pane, hosting no items yet.
    pub fn new(active_pane: u64) -> (s: Self)
        ensures
            s.items() == Seq::<u64>::empty(),
            s.active_pane() == active_pane,
    {
        EditorPaneStatus { items: Vec::new(), active_pane }
    }

    /// Adds an indicator item to the end of the row. The result names the
    /// pane whose active item the new indicator must be shown before it is
    /// first drawn.
    pub fn add_item(&mut self, item: u64) -> (pane: u64)
        ensures
            final(self).items() == old(self).items().push(item),
            final(self).active_pane() == old(self).active_pane(),
            pane == old(self).active_pane(),
    {
        self.items.push(item);
        self.active_pane
    }

    /// Switches the overlay to follow another pane. The result lists every
    /// hosted indicator, in order: each must be told of the new pane's
    /// active item.
    pub fn set_active_pane(&mut self, active_pane: u64) -> (notify: Vec<u64>)
        ensures
            final(self).active_pane() == active_pane,
            final(self).items() == old(self).items(),
            notify@ == old(self).items(),
    {
        self.active_pane = active_pane;
        self.update_active_pane_item()
    }

    /// The followed pane changed its active item: the result lists every
    /// hosted indicator, in order, so each can be told of it.
    pub fn update_active_pane_item(&self) -> (notify: Vec<u64>)
        ensures
            notify@ == self.items(),
    {
        let mut notify: Vec<u64> = Vec::new();
        let mut i: usize = 0;
        while i < self.items.len()
            invariant
                i <= self.items.len(),
                notify@ == self.items@.subrange(0, i as int),
            decreases self.items.len() - i,
        {
            notify.push(self.items[i]);
            i = i + 1;
        }
        assert(self.items@.subrange(0, self.items@.len() as int) =~= self.items@);
        notify
    }
}

} // verus!
