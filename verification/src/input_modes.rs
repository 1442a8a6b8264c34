//! The two modal-editing settings and how their menu entries flip them.
//!
//! The dropdown offers a "Vim Mode" and a "Helix Mode" entry. Turning either
//! one on always turns the other off, so the two modes are never enabled at
//! the same time after a toggle.

use vstd::prelude::*;

verus! {

/// The pair of global modal-editing settings, as plain booleans.
#[derive(Clone, Copy, Debug, PartialEq, Eq, Structural)]
pub struct InputModes {
    /// Whether vim-style editing is enabled.
    pub vim: bool,
    /// Whether helix-style editing is enabled.
    pub helix: bool,
}

impl InputModes {
    /// At most one of the two modes is on.
    pub open spec fn exclusive(self) -> bool {
        !(self.vim && self.helix)
    }

    /// What the "Vim Mode" entry does when activated: flip the vim setting
    /// and force the helix setting off.
    pub fn toggle_vim(&mut self)
        ensures
            final(self).vim == !old(self).vim,
            final(self).helix == false,
            final(self).exclusive(),
    {
        self.vim = !self.vim;
        self.helix = false;
    }

    /// What the "Helix Mode" entry does when activated: flip the helix
    /// setting and force the vim setting off.
    pub fn toggle_helix(&mut self)
        ensures
            final(self).helix == !old(self).helix,
            final(self).vim == false,
            final(self).exclusive(),
    {
        self.helix = !self.helix;
        self.vim = false;
    }
}

} // verus!
