use vstd::prelude::*;

use std::collections::HashMap;

use crate::reaction::ReactionKind;
use crate::watched::{WatchedMessage, WatchedView};

verus! {

broadcast use vstd::std_specs::hash::group_hash_axioms;

/// The messages that are collecting stars, keyed by message id.
pub struct WatchedMessageStore {
    entries: HashMap<u64, WatchedMessage>,
}

impl View for WatchedMessageStore {
    type V = Map<u64, WatchedView>;

    closed spec fn view(&self) -> Map<u64, WatchedView> {
        self.entries@.map_values(|w: WatchedMessage| w@)
    }
}

impl WatchedMessageStore {
    /// Each entry is filed under the id of its message.
    pub open spec fn wf(&self) -> bool {
        forall|k: u64| #[trigger] self@.contains_key(k) ==> self@[k].message.id == k
    }

    pub fn new() -> (r: WatchedMessageStore)
        ensures
            r@ == Map::<u64, WatchedView>::empty(),
            r.wf(),
    {
        let r = WatchedMessageStore { entries: HashMap::new() };
        assert(r@ =~= Map::<u64, WatchedView>::empty());
        r
    }

    pub fn contains(&self, id: u64) -> (r: bool)
        ensures
            r == self@.contains_key(id),
    {
        self.entries.contains_key(&id)
    }

    /// Read-only look at an entry.
    pub fn peek(&self, id: u64) -> (r: Option<&WatchedMessage>)
        ensures
            match r {
                Some(w) => self@.contains_key(id) && w@ == self@[id],
                None => !self@.contains_key(id),
            },
    {
        self.entries.get(&id)
    }

    /// Files a new entry under its message's id, replacing any there.
    pub fn insert(&mut self, w: WatchedMessage)
        requires
            old(self).wf(),
        ensures
            final(self)@ == old(self)@.insert(w.message.id, w@),
            final(self).wf(),
    {
        let id = w.message.id;
        let ghost v = w@;
        self.entries.insert(id, w);
        assert(self@ =~= old(self)@.insert(id, v));
    }

    /// Deletes the entry of `id`, if there is one.
    pub fn remove(&mut self, id: u64) -> (r: Option<WatchedMessage>)
        requires
            old(self).wf(),
        ensures
            final(self)@ == old(self)@.remove(id),
            final(self).wf(),
            match r {
                Some(w) => old(self)@.contains_key(id) && w@ == old(self)@[id],
                None => !old(self)@.contains_key(id),
            },
    {
        let r = self.entries.remove(&id);
        assert(self@ =~= old(self)@.remove(id));
        r
    }

    /// Moves the score of `id` by the weight of `kind`, up when `added`,
    /// down otherwise. Does nothing to a message that is not watched.
    pub fn apply_delta(&mut self, id: u64, kind: ReactionKind, added: bool)
        requires
            old(self).wf(),
        ensures
            final(self).wf(),
            final(self)@ == if old(self)@.contains_key(id) {
                old(self)@.insert(
                    id,
                    old(self)@[id].moved(if added { kind.weight() } else { -kind.weight() }),
                )
            } else {
                old(self)@
            },
    {
        match self.entries.remove(&id) {
            Some(mut w) => {
                if added {
                    w.on_star_added(&kind);
                } else {
                    w.on_star_removed(&kind);
                }
                let ghost v = w@;
                self.entries.insert(id, w);
                assert(self@ =~= old(self)@.insert(id, v));
            },
            None => {
                assert(self@ =~= old(self)@);
            },
        }
    }

    /// Records whether a promotion of `id` is under way. Does nothing to a
    /// message that is not watched.
    pub fn set_promoting(&mut self, id: u64, promoting: bool)
        requires
            old(self).wf(),
        ensures
            final(self).wf(),
            final(self)@ == if old(self)@.contains_key(id) {
                old(self)@.insert(id, WatchedView { promoting, ..old(self)@[id] })
            } else {
                old(self)@
            },
    {
        match self.entries.remove(&id) {
            Some(mut w) => {
                w.promoting = promoting;
                let ghost v = w@;
                self.entries.insert(id, w);
                assert(self@ =~= old(self)@.insert(id, v));
            },
            None => {
                assert(self@ =~= old(self)@);
            },
        }
    }
}

} // verus!
