use vstd::prelude::*;

use crate::board::{added_spec, bot_posts, finished_spec, removed_spec, tracked_spec, BoardView, StepView};
use crate::reaction::{permitted_spec, ReactionKind};
use crate::watched::{eligible, SnapshotView};

verus! {

/// One added reaction of `kind` on the message `msg`, carried through: where
/// the message is not watched yet, it is fetched (as `msg`) and handed in.
pub open spec fn star_event(
    m: BoardView,
    kind: ReactionKind,
    is_admin: Option<bool>,
    msg: SnapshotView,
) -> (BoardView, StepView) {
    let (m1, s) = added_spec(m, msg.id, kind, is_admin);
    match s {
        StepView::FetchMessage(k) => tracked_spec(m1, k, msg),
        _ => (m1, s),
    }
}

/// `n` added reactions of `kind` on `msg`, one after the other; the step is
/// the one of the last reaction.
pub open spec fn star_events(
    m: BoardView,
    kind: ReactionKind,
    is_admin: Option<bool>,
    msg: SnapshotView,
    n: nat,
) -> (BoardView, StepView)
    decreases n,
{
    if n == 0 {
        (m, StepView::Done)
    } else {
        star_event(star_events(m, kind, is_admin, msg, (n - 1) as nat).0, kind, is_admin, msg)
    }
}

/// Ordinary stars on a message that was neither watched nor posted: the
/// first one starts watching it at a score of zero and each later one adds
/// one, so after `n` of them the score is `n - 1`. The message is eligible
/// from the eleventh star on, and its post is asked for once, at the
/// eleventh.
pub proof fn lemma_user_stars(m: BoardView, is_admin: Option<bool>, msg: SnapshotView, n: nat)
    requires
        !m.watched.contains_key(msg.id),
        !m.posted.contains(msg.id),
        1 <= n <= 1_000_000,
    ensures
        ({
            let (m2, s) = star_events(m, ReactionKind::UserStar, is_admin, msg, n);
            &&& m2.watched.contains_key(msg.id)
            &&& m2.watched[msg.id].star_count == n - 1
            &&& eligible(m2.watched[msg.id].star_count) <==> n >= 11
            &&& m2.watched[msg.id].promoting <==> n >= 11
            &&& s is Promote <==> n == 11
            &&& !m2.posted.contains(msg.id)
        }),
    decreases n,
{
    let kind = ReactionKind::UserStar;
    let prev = star_events(m, kind, is_admin, msg, (n - 1) as nat).0;
    assert(star_events(m, kind, is_admin, msg, n) == star_event(prev, kind, is_admin, msg));
    if n == 1 {
        assert(prev == m);
    } else {
        lemma_user_stars(m, is_admin, msg, (n - 1) as nat);
        assert(prev.watched.contains_key(msg.id));
        assert(prev.watched[msg.id].star_count == n - 2);
    }
}

/// An admin star, counted, on a message that was neither watched nor posted
/// gives it a score of ten at once and asks for its post.
pub proof fn lemma_admin_star(m: BoardView, is_admin: Option<bool>, msg: SnapshotView)
    requires
        !m.watched.contains_key(msg.id),
        !m.posted.contains(msg.id),
        permitted_spec(ReactionKind::AdminStar, is_admin),
    ensures
        ({
            let (m2, s) = star_event(m, ReactionKind::AdminStar, is_admin, msg);
            &&& m2.watched.contains_key(msg.id)
            &&& m2.watched[msg.id].star_count == 10
            &&& eligible(m2.watched[msg.id].star_count)
            &&& s == StepView::Promote(m2.watched[msg.id])
        }),
{
}

/// While the post of a message is under way, no further reaction asks for
/// another post of it.
pub proof fn lemma_single_promotion(
    m: BoardView,
    id: u64,
    kind: ReactionKind,
    is_admin: Option<bool>,
    msg: SnapshotView,
)
    requires
        m.watched.contains_key(id),
        m.watched[id].promoting,
        msg.id == id,
    ensures
        !(added_spec(m, id, kind, is_admin).1 is Promote),
        !(tracked_spec(m, kind, msg).1 is Promote),
        !(star_event(m, kind, is_admin, msg).1 is Promote),
{
}

/// Removing a reaction from a message that is not watched changes nothing.
pub proof fn lemma_remove_unwatched(m: BoardView, id: u64, kind: ReactionKind)
    requires
        !m.watched.contains_key(id),
    ensures
        removed_spec(m, id, kind) == m,
        !removed_spec(m, id, kind).watched.contains_key(id),
{
}

/// A posted message stays posted whatever happens next, and no reaction
/// on it changes the state or asks for a post.
pub proof fn lemma_posted_is_final(
    m: BoardView,
    id: u64,
    other: u64,
    kind: ReactionKind,
    is_admin: Option<bool>,
    msg: SnapshotView,
    sent: bool,
)
    requires
        m.posted.contains(id),
    ensures
        added_spec(m, id, kind, is_admin) == (m, StepView::Done),
        msg.id == id ==> tracked_spec(m, kind, msg) == (m, StepView::Done),
        removed_spec(m, id, kind) == m,
        added_spec(m, other, kind, is_admin).0.posted.contains(id),
        tracked_spec(m, kind, msg).0.posted.contains(id),
        removed_spec(m, other, kind).posted.contains(id),
        finished_spec(m, other, sent).posted.contains(id),
{
}

/// The same reaction added twice to a watched, unposted message adds its
/// weight twice: adds are not told apart by the event.
pub proof fn lemma_repeated_add(m: BoardView, id: u64, kind: ReactionKind, is_admin: Option<bool>)
    requires
        m.watched.contains_key(id),
        !m.posted.contains(id),
        permitted_spec(kind, is_admin),
        i64::MIN <= m.watched[id].star_count,
        m.watched[id].star_count + 2 * kind.weight() <= i64::MAX,
    ensures
        ({
            let m2 = added_spec(added_spec(m, id, kind, is_admin).0, id, kind, is_admin).0;
            m2.watched[id].star_count == m.watched[id].star_count + 2 * kind.weight()
        }),
{
    let m1 = added_spec(m, id, kind, is_admin).0;
    assert(m1.watched.contains_key(id));
    assert(m1.watched[id].star_count == m.watched[id].star_count + kind.weight());
}

/// The same reaction twice on a message that was neither watched nor
/// posted: the first starts watching it at its kind's seed, the second adds
/// its weight.
pub proof fn lemma_repeated_add_unseen(
    m: BoardView,
    kind: ReactionKind,
    is_admin: Option<bool>,
    msg: SnapshotView,
)
    requires
        !m.watched.contains_key(msg.id),
        !m.posted.contains(msg.id),
        permitted_spec(kind, is_admin),
    ensures
        ({
            let m2 = star_events(m, kind, is_admin, msg, 2).0;
            m2.watched[msg.id].star_count == kind.seed() + kind.weight()
        }),
{
    assert(star_events(m, kind, is_admin, msg, 0).0 == m);
    let m1 = star_events(m, kind, is_admin, msg, 1).0;
    assert(m1 == star_event(m, kind, is_admin, msg).0);
    assert(m1.watched.contains_key(msg.id));
    assert(m1.watched[msg.id].star_count == kind.seed());
}

/// The ids recorded from a channel's history are exactly those of the
/// messages that the bot wrote there.
pub proof fn lemma_bot_posts(history: Seq<(u64, u64)>, bot_id: u64)
    ensures
        forall|id: u64|
            #[trigger] bot_posts(history, bot_id).contains(id) <==> exists|i: int|
                0 <= i < history.len() && history[i] == (id, bot_id),
    decreases history.len(),
{
    if history.len() > 0 {
        let rest = history.drop_last();
        lemma_bot_posts(rest, bot_id);
        let last = history.last();
        assert forall|id: u64|
            #[trigger] bot_posts(history, bot_id).contains(id) <==> exists|i: int|
                0 <= i < history.len() && history[i] == (id, bot_id) by {
            if bot_posts(history, bot_id).contains(id) {
                if bot_posts(rest, bot_id).contains(id) {
                    let i = choose|i: int| 0 <= i < rest.len() && rest[i] == (id, bot_id);
                    assert(history[i] == (id, bot_id));
                } else {
                    assert(last.1 == bot_id && last.0 == id);
                    assert(history[history.len() - 1] == (id, bot_id));
                }
            }
            if exists|i: int| 0 <= i < history.len() && history[i] == (id, bot_id) {
                let i = choose|i: int| 0 <= i < history.len() && history[i] == (id, bot_id);
                if i < history.len() - 1 {
                    assert(rest[i] == (id, bot_id));
                    assert(bot_posts(rest, bot_id).contains(id));
                } else {
                    assert(last == (id, bot_id));
                }
            }
        }
    }
}

} // verus!
