use vstd::prelude::*;

use std::collections::HashSet;

use crate::reaction::{permitted_spec, reaction_permitted, ReactionKind, StarEmojis, classify_spec};
use crate::store::WatchedMessageStore;
use crate::watched::{eligible, MessageSnapshot, SnapshotView, WatchedMessage, WatchedView};

verus! {

broadcast use vstd::std_specs::hash::group_hash_axioms;

/// The state of the starboard: the messages collecting stars, and the ids of
/// the messages already promoted.
pub struct BoardView {
    pub emojis: StarEmojis,
    pub starboard_channel: u64,
    pub watched: Map<u64, WatchedView>,
    pub posted: Set<u64>,
}

/// What the caller does next after a reaction was added.
pub enum AddStep {
    /// Nothing.
    Done,
    /// The message is not watched yet: fetch it and hand it to
    /// `Starboard::track_message` with this kind.
    FetchMessage(ReactionKind),
    /// Post this message to the starboard, then report the outcome to
    /// `Starboard::promotion_finished`.
    Promote(WatchedMessage),
}

pub enum StepView {
    Done,
    FetchMessage(ReactionKind),
    Promote(WatchedView),
}

impl View for AddStep {
    type V = StepView;

    open spec fn view(&self) -> StepView {
        match self {
            AddStep::Done => StepView::Done,
            AddStep::FetchMessage(k) => StepView::FetchMessage(*k),
            AddStep::Promote(w) => StepView::Promote(w@),
        }
    }
}

/// Whether a watched message is to be posted now: it has enough stars and no
/// post of it is under way.
pub open spec fn due(w: WatchedView) -> bool {
    eligible(w.star_count) && !w.promoting
}

/// After the score of the watched message `id` changed: start its promotion
/// if it is due.
pub open spec fn settle(m: BoardView, id: u64) -> (BoardView, StepView) {
    let w = m.watched[id];
    if due(w) {
        let p = WatchedView { promoting: true, ..w };
        (BoardView { watched: m.watched.insert(id, p), ..m }, StepView::Promote(p))
    } else {
        (m, StepView::Done)
    }
}

/// The score of the watched message `id` moved by `delta`.
pub open spec fn moved_by(m: BoardView, id: u64, delta: int) -> BoardView {
    BoardView { watched: m.watched.insert(id, m.watched[id].moved(delta)), ..m }
}

/// A reaction of `kind` was added to the message `id`; `is_admin` is the
/// outcome of the reactor's permission lookup.
pub open spec fn added_spec(m: BoardView, id: u64, kind: ReactionKind, is_admin: Option<bool>) -> (
    BoardView,
    StepView,
) {
    if !permitted_spec(kind, is_admin) || m.posted.contains(id) {
        (m, StepView::Done)
    } else if m.watched.contains_key(id) {
        settle(moved_by(m, id, kind.weight()), id)
    } else {
        (m, StepView::FetchMessage(kind))
    }
}

/// The message `msg`, fetched after a reaction of `kind` on it, is handed in.
pub open spec fn tracked_spec(m: BoardView, kind: ReactionKind, msg: SnapshotView) -> (
    BoardView,
    StepView,
) {
    let id = msg.id;
    if m.posted.contains(id) {
        (m, StepView::Done)
    } else if m.watched.contains_key(id) {
        settle(moved_by(m, id, kind.weight()), id)
    } else {
        let w = WatchedView { star_count: kind.seed(), message: msg, promoting: false };
        settle(BoardView { watched: m.watched.insert(id, w), ..m }, id)
    }
}

/// A reaction of `kind` was removed from the message `id`.
pub open spec fn removed_spec(m: BoardView, id: u64, kind: ReactionKind) -> BoardView {
    if m.posted.contains(id) || !m.watched.contains_key(id) {
        m
    } else {
        moved_by(m, id, -kind.weight())
    }
}

/// The post of the message `id` succeeded (`sent`) or failed.
pub open spec fn finished_spec(m: BoardView, id: u64, sent: bool) -> BoardView {
    if sent {
        BoardView { watched: m.watched.remove(id), posted: m.posted.insert(id), ..m }
    } else if m.watched.contains_key(id) {
        BoardView {
            watched: m.watched.insert(id, WatchedView { promoting: false, ..m.watched[id] }),
            ..m
        }
    } else {
        m
    }
}

/// The ids of the messages written by `bot_id` in a channel's history of
/// (message id, author id) pairs.
pub open spec fn bot_posts(history: Seq<(u64, u64)>, bot_id: u64) -> Set<u64>
    decreases history.len(),
{
    if history.len() == 0 {
        Set::empty()
    } else {
        let rest = bot_posts(history.drop_last(), bot_id);
        let (message_id, author_id) = history.last();
        if author_id == bot_id {
            rest.insert(message_id)
        } else {
            rest
        }
    }
}

/// Tracks the reactions on a guild's messages and decides when a message is
/// promoted to the starboard channel.
pub struct Starboard {
    emojis: StarEmojis,
    starboard_channel: u64,
    watched: WatchedMessageStore,
    posted: HashSet<u64>,
}

impl View for Starboard {
    type V = BoardView;

    closed spec fn view(&self) -> BoardView {
        BoardView {
            emojis: self.emojis,
            starboard_channel: self.starboard_channel,
            watched: self.watched@,
            posted: self.posted@,
        }
    }
}

impl Starboard {
    pub closed spec fn wf(&self) -> bool {
        self.watched.wf()
    }

    /// A starboard listening for the given emojis, with nothing watched and
    /// nothing posted yet.
    pub fn new(admin_star_id: u64, star_id: u64, starboard_channel: u64) -> (r: Starboard)
        ensures
            r.wf(),
            r@.watched == Map::<u64, WatchedView>::empty(),
            r@.posted == Set::<u64>::empty(),
            r@.emojis == (StarEmojis { admin_star_id, star_id }),
            r@.starboard_channel == starboard_channel,
    {
        Starboard {
            emojis: StarEmojis::new(admin_star_id, star_id),
            starboard_channel,
            watched: WatchedMessageStore::new(),
            posted: HashSet::new(),
        }
    }

    /// The kind of star that the emoji `custom_id` gives, if any.
    pub fn is_valid_reaction(&self, custom_id: Option<u64>) -> (r: Option<ReactionKind>)
        ensures
            r == classify_spec(self@.emojis, custom_id),
    {
        self.emojis.classify(custom_id)
    }

    pub fn emojis(&self) -> (r: StarEmojis)
        ensures
            r == self@.emojis,
    {
        self.emojis
    }

    pub fn starboard_channel(&self) -> (r: u64)
        ensures
            r == self@.starboard_channel,
    {
        self.starboard_channel
    }

    /// Whether the message `id` has been promoted.
    pub fn is_posted(&self, id: u64) -> (r: bool)
        ensures
            r == self@.posted.contains(id),
    {
        self.posted.contains(&id)
    }

    /// Read-only look at the watched message `id`.
    pub fn peek(&self, id: u64) -> (r: Option<&WatchedMessage>)
        ensures
            match r {
                Some(w) => self@.watched.contains_key(id) && w@ == self@.watched[id],
                None => !self@.watched.contains_key(id),
            },
    {
        self.watched.peek(id)
    }

    fn settle(&mut self, id: u64) -> (r: AddStep)
        requires
            old(self).wf(),
            old(self)@.watched.contains_key(id),
        ensures
            final(self).wf(),
            (final(self)@, r@) == settle(old(self)@, id),
    {
        let due = match self.watched.peek(id) {
            Some(w) => w.is_ready_for_pinning() && !w.promoting,
            None => false,
        };
        if due {
            self.watched.set_promoting(id, true);
            match self.watched.peek(id) {
                Some(w) => {
                    let p = w.duplicate();
                    proof {
                        assert(self@.watched =~= settle(old(self)@, id).0.watched);
                    }
                    AddStep::Promote(p)
                },
                None => AddStep::Done,
            }
        } else {
            AddStep::Done
        }
    }

    /// A reaction of `kind` was added to the message `message_id`.
    /// `is_admin` is what the lookup of the reactor's permissions gave:
    /// `None` where it failed or was not made.
    pub fn reaction_add(&mut self, message_id: u64, kind: ReactionKind, is_admin: Option<bool>) -> (r:
        AddStep)
        requires
            old(self).wf(),
        ensures
            final(self).wf(),
            (final(self)@, r@) == added_spec(old(self)@, message_id, kind, is_admin),
    {
        if !reaction_permitted(kind, is_admin) || self.posted.contains(&message_id) {
            return AddStep::Done;
        }
        if self.watched.contains(message_id) {
            self.watched.apply_delta(message_id, kind, true);
            self.settle(message_id)
        } else {
            AddStep::FetchMessage(kind)
        }
    }

    /// The message that a reaction of `kind` was added to, fetched after
    /// `reaction_add` asked for it.
    pub fn track_message(&mut self, kind: ReactionKind, message: MessageSnapshot) -> (r: AddStep)
        requires
            old(self).wf(),
        ensures
            final(self).wf(),
            (final(self)@, r@) == tracked_spec(old(self)@, kind, message@),
    {
        let id = message.id;
        if self.posted.contains(&id) {
            return AddStep::Done;
        }
        if self.watched.contains(id) {
            self.watched.apply_delta(id, kind, true);
        } else {
            self.watched.insert(WatchedMessage::new(kind, message));
        }
        self.settle(id)
    }

    /// A reaction of `kind` was removed from the message `message_id`.
    pub fn reaction_remove(&mut self, message_id: u64, kind: ReactionKind)
        requires
            old(self).wf(),
        ensures
            final(self).wf(),
            final(self)@ == removed_spec(old(self)@, message_id, kind),
    {
        if self.posted.contains(&message_id) {
            return;
        }
        self.watched.apply_delta(message_id, kind, false);
    }

    /// The post of the message `message_id` to the starboard succeeded
    /// (`sent`) or failed. A posted message leaves the watched messages for
    /// good; one whose post failed stays, to be tried again on its next star.
    pub fn promotion_finished(&mut self, message_id: u64, sent: bool)
        requires
            old(self).wf(),
        ensures
            final(self).wf(),
            final(self)@ == finished_spec(old(self)@, message_id, sent),
    {
        if sent {
            self.watched.remove(message_id);
            self.posted.insert(message_id);
        } else {
            self.watched.set_promoting(message_id, false);
        }
    }

    /// Records as posted each message of the starboard channel's history,
    /// given as (message id, author id) pairs, that `bot_id` wrote.
    pub fn ready(&mut self, bot_id: u64, history: &Vec<(u64, u64)>)
        requires
            old(self).wf(),
        ensures
            final(self).wf(),
            final(self)@.emojis == old(self)@.emojis,
            final(self)@.starboard_channel == old(self)@.starboard_channel,
            final(self)@.watched == old(self)@.watched,
            final(self)@.posted == old(self)@.posted.union(bot_posts(history@, bot_id)),
    {
        let mut i: usize = 0;
        while i < history.len()
            invariant
                i <= history.len(),
                self.wf(),
                self@.watched == old(self)@.watched,
                self@.posted == old(self)@.posted.union(bot_posts(history@.take(i as int), bot_id)),
                self@.emojis == old(self)@.emojis,
                self@.starboard_channel == old(self)@.starboard_channel,
            decreases history.len() - i,
        {
            let (message_id, author_id) = history[i];
            let ghost prev = self@.posted;
            if author_id == bot_id {
                self.posted.insert(message_id);
            }
            proof {
                let next = history@.take(i + 1);
                assert(next.drop_last() =~= history@.take(i as int));
                assert(self@.posted =~= old(self)@.posted.union(bot_posts(next, bot_id)));
            }
            i = i + 1;
        }
        assert(history@.take(history.len() as int) =~= history@);
    }
}

} // verus!
