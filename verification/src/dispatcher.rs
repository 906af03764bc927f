use crate::store::{apply_action, Action, Store};
use vstd::prelude::*;

verus! {

/// The sole mutation gateway: every state transition goes through
/// `dispatch`, which holds the store under exclusive access (`&mut`) for
/// the duration of the update, so the counter is never observed
/// half-updated.
pub struct Dispatcher {
    pub store: Store,
}

impl Dispatcher {
    /// Takes ownership of the store it will guard.
    pub fn new(store: Store) -> (d: Dispatcher)
        ensures
            d.store == store,
    {
        Dispatcher { store }
    }

    /// Forwards one action to the store under exclusive access.
    pub fn dispatch(&mut self, action: Action)
        requires
            action is Increment ==> old(self).store.count < i32::MAX,
            action is Decrement ==> old(self).store.count > i32::MIN,
        ensures
            final(self).store.count == apply_action(old(self).store.count as int, action),
    {
        self.store.update(action);
    }
}

} // verus!
