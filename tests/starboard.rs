use starboard::board::{AddStep, Starboard};
use starboard::reaction::{reaction_permitted, ReactionKind, StarEmojis};
use starboard::text::{join_lines, push_decimal};
use starboard::watched::{MessageSnapshot, PostLayout, WatchedMessage};

const ADMIN_STAR: u64 = 501;
const STAR: u64 = 502;
const BOARD_CHANNEL: u64 = 900;

fn snapshot(id: u64, content: &str, attachments: &[&str]) -> MessageSnapshot {
    MessageSnapshot {
        id,
        channel_id: 77,
        author_id: 5,
        author_name: "alice".to_string(),
        author_avatar: "https://cdn.example/alice.png".to_string(),
        content: content.to_string(),
        attachments: attachments.iter().map(|a| a.to_string()).collect(),
    }
}

fn board() -> Starboard {
    Starboard::new(ADMIN_STAR, STAR, BOARD_CHANNEL)
}

/// Adds one reaction and, where the board asks for the message, hands it in.
fn react(b: &mut Starboard, msg: &MessageSnapshot, kind: ReactionKind, is_admin: Option<bool>) -> AddStep {
    match b.reaction_add(msg.id, kind, is_admin) {
        AddStep::FetchMessage(k) => b.track_message(k, msg.duplicate()),
        step => step,
    }
}

fn count(b: &Starboard, id: u64) -> Option<i64> {
    b.peek(id).map(|w| w.star_count)
}

#[test]
fn weights_of_kinds() {
    assert_eq!(ReactionKind::AdminStar.power(), 10);
    assert_eq!(ReactionKind::UserStar.power(), 1);
}

#[test]
fn classify_emojis() {
    let e = StarEmojis::new(ADMIN_STAR, STAR);
    assert_eq!(e.classify(Some(ADMIN_STAR)), Some(ReactionKind::AdminStar));
    assert_eq!(e.classify(Some(STAR)), Some(ReactionKind::UserStar));
    assert_eq!(e.classify(Some(3)), None);
    assert_eq!(e.classify(None), None);
    let b = board();
    assert_eq!(b.is_valid_reaction(Some(STAR)), Some(ReactionKind::UserStar));
    assert_eq!(b.emojis(), e);
    assert_eq!(b.starboard_channel(), BOARD_CHANNEL);
}

#[test]
fn permission_gate() {
    assert!(reaction_permitted(ReactionKind::UserStar, Some(false)));
    assert!(reaction_permitted(ReactionKind::UserStar, None));
    assert!(reaction_permitted(ReactionKind::AdminStar, Some(true)));
    assert!(!reaction_permitted(ReactionKind::AdminStar, Some(false)));
    // a failed lookup lets the admin star through
    assert!(reaction_permitted(ReactionKind::AdminStar, None));
}

#[test]
fn user_stars_count_from_zero() {
    let mut b = board();
    let m = snapshot(1, "hello", &[]);
    for n in 1..=10i64 {
        let step = react(&mut b, &m, ReactionKind::UserStar, None);
        assert!(matches!(step, AddStep::Done));
        assert_eq!(count(&b, 1), Some(n - 1));
        assert!(!b.peek(1).unwrap().is_ready_for_pinning());
    }
    let step = react(&mut b, &m, ReactionKind::UserStar, None);
    assert!(matches!(step, AddStep::Promote(_)));
    assert_eq!(count(&b, 1), Some(10));
    assert!(b.peek(1).unwrap().is_ready_for_pinning());
}

#[test]
fn admin_star_promotes_at_once() {
    let mut b = board();
    let m = snapshot(2, "wow", &[]);
    match react(&mut b, &m, ReactionKind::AdminStar, Some(true)) {
        AddStep::Promote(w) => {
            assert_eq!(w.star_count, 10);
            assert_eq!(w.message.id, 2);
            assert!(w.promoting);
        }
        _ => panic!("expected a promotion"),
    }
    assert_eq!(count(&b, 2), Some(10));
}

#[test]
fn admin_star_on_failed_lookup_counts() {
    let mut b = board();
    let m = snapshot(3, "x", &[]);
    assert!(matches!(react(&mut b, &m, ReactionKind::AdminStar, None), AddStep::Promote(_)));
}

#[test]
fn remove_on_unwatched_is_noop() {
    let mut b = board();
    b.reaction_remove(4, ReactionKind::UserStar);
    b.reaction_remove(4, ReactionKind::AdminStar);
    assert!(b.peek(4).is_none());
    assert!(!b.is_posted(4));
}

#[test]
fn removals_can_go_negative() {
    let mut b = board();
    let m = snapshot(5, "x", &[]);
    react(&mut b, &m, ReactionKind::UserStar, None);
    b.reaction_remove(5, ReactionKind::UserStar);
    b.reaction_remove(5, ReactionKind::UserStar);
    assert_eq!(count(&b, 5), Some(-2));
}

#[test]
fn posted_message_is_final() {
    let mut b = board();
    let m = snapshot(6, "x", &[]);
    assert!(matches!(react(&mut b, &m, ReactionKind::AdminStar, Some(true)), AddStep::Promote(_)));
    b.promotion_finished(6, true);
    assert!(b.is_posted(6));
    assert!(b.peek(6).is_none());
    assert!(matches!(b.reaction_add(6, ReactionKind::UserStar, None), AddStep::Done));
    assert!(matches!(b.reaction_add(6, ReactionKind::AdminStar, Some(true)), AddStep::Done));
    assert!(matches!(b.track_message(ReactionKind::AdminStar, m.duplicate()), AddStep::Done));
    b.reaction_remove(6, ReactionKind::UserStar);
    assert!(b.peek(6).is_none());
    assert!(b.is_posted(6));
}

#[test]
fn replayed_add_counts_twice() {
    let mut b = board();
    let m = snapshot(7, "x", &[]);
    react(&mut b, &m, ReactionKind::UserStar, None);
    assert_eq!(count(&b, 7), Some(0));
    react(&mut b, &m, ReactionKind::UserStar, None);
    react(&mut b, &m, ReactionKind::UserStar, None);
    assert_eq!(count(&b, 7), Some(2));
}

#[test]
fn ready_records_bot_posts() {
    let mut b = board();
    let bot = 42;
    let history = vec![(100, bot), (200, 9), (101, bot)];
    b.ready(bot, &history);
    assert!(b.is_posted(100));
    assert!(b.is_posted(101));
    assert!(!b.is_posted(200));
    assert!(matches!(b.reaction_add(100, ReactionKind::AdminStar, Some(true)), AddStep::Done));
}

#[test]
fn eleven_stars_post_once() {
    let mut b = board();
    let m = snapshot(8, "m", &[]);
    let mut promotions = 0;
    for _ in 0..11 {
        if let AddStep::Promote(w) = react(&mut b, &m, ReactionKind::UserStar, None) {
            promotions += 1;
            assert_eq!(w.message.id, 8);
        }
    }
    assert_eq!(promotions, 1);
    b.promotion_finished(8, true);
    assert!(b.peek(8).is_none());
    assert!(matches!(react(&mut b, &m, ReactionKind::UserStar, None), AddStep::Done));
    assert!(b.peek(8).is_none());
}

#[test]
fn no_second_post_while_one_is_under_way() {
    let mut b = board();
    let m = snapshot(9, "m", &[]);
    assert!(matches!(react(&mut b, &m, ReactionKind::AdminStar, Some(true)), AddStep::Promote(_)));
    assert!(matches!(react(&mut b, &m, ReactionKind::UserStar, None), AddStep::Done));
    assert_eq!(count(&b, 9), Some(11));
}

#[test]
fn failed_post_is_retried_on_next_star() {
    let mut b = board();
    let m = snapshot(10, "m", &[]);
    assert!(matches!(react(&mut b, &m, ReactionKind::AdminStar, Some(true)), AddStep::Promote(_)));
    b.promotion_finished(10, false);
    assert!(!b.is_posted(10));
    assert!(!b.peek(10).unwrap().promoting);
    assert!(matches!(react(&mut b, &m, ReactionKind::UserStar, None), AddStep::Promote(_)));
}

#[test]
fn non_admin_admin_star_is_dropped() {
    let mut b = board();
    let m = snapshot(11, "m", &[]);
    assert!(matches!(react(&mut b, &m, ReactionKind::AdminStar, Some(false)), AddStep::Done));
    assert!(b.peek(11).is_none());
    react(&mut b, &m, ReactionKind::UserStar, None);
    assert!(matches!(react(&mut b, &m, ReactionKind::AdminStar, Some(false)), AddStep::Done));
    assert_eq!(count(&b, 11), Some(0));
}

#[test]
fn attachments_only_layout() {
    let atts = vec!["https://a/1.png".to_string(), "https://a/2.png".to_string(), "https://a/3.png".to_string()];
    let l = PostLayout::new(&String::new(), &atts);
    assert_eq!(l.description.as_deref(), Some("https://a/1.png\nhttps://a/2.png\nhttps://a/3.png"));
    assert!(l.thumbnail.is_none());
    assert!(l.image.is_none());
}

#[test]
fn several_attachments_replace_text() {
    let atts = vec!["u1".to_string(), "u2".to_string()];
    let l = PostLayout::new(&"text".to_string(), &atts);
    assert_eq!(l.description.as_deref(), Some("u1\nu2"));
}

#[test]
fn single_attachment_layout() {
    let atts = vec!["https://a/1.png".to_string()];
    let with_text = PostLayout::new(&"look".to_string(), &atts);
    assert_eq!(with_text.description.as_deref(), Some("look"));
    assert_eq!(with_text.thumbnail.as_deref(), Some("https://a/1.png"));
    assert!(with_text.image.is_none());
    let without = PostLayout::new(&String::new(), &atts);
    assert!(without.description.is_none());
    assert!(without.thumbnail.is_none());
    assert_eq!(without.image.as_deref(), Some("https://a/1.png"));
}

#[test]
fn text_only_layout() {
    let l = PostLayout::new(&"just text".to_string(), &vec![]);
    assert_eq!(l.description.as_deref(), Some("just text"));
    assert!(l.thumbnail.is_none() && l.image.is_none());
    let empty = PostLayout::new(&String::new(), &vec![]);
    assert!(empty.description.is_none());
}

#[test]
fn join_lines_edges() {
    assert_eq!(join_lines(&vec![]), "");
    assert_eq!(join_lines(&vec!["one".to_string()]), "one");
    assert_eq!(join_lines(&vec!["a".to_string(), "".to_string(), "b".to_string()]), "a\n\nb");
}

#[test]
fn decimal_rendering() {
    let mut s = String::from("n=");
    push_decimal(&mut s, 0);
    assert_eq!(s, "n=0");
    let mut s = String::new();
    push_decimal(&mut s, 1234567890);
    assert_eq!(s, "1234567890");
    let mut s = String::new();
    push_decimal(&mut s, u64::MAX);
    assert_eq!(s, "18446744073709551615");
}

#[test]
fn message_url() {
    let w = WatchedMessage::new(ReactionKind::UserStar, snapshot(123, "x", &[]));
    assert_eq!(w.url(55), "https://discordapp.com/channels/55/77/123");
}

#[test]
fn post_author_and_link() {
    let w = WatchedMessage::new(ReactionKind::AdminStar, snapshot(124, "hi", &["u"]));
    let p = w.starboard_post(55, Some("Ally".to_string()));
    assert_eq!(p.author_name, "Ally");
    assert_eq!(p.link, "https://discordapp.com/channels/55/77/124");
    assert_eq!(p.author_avatar, "https://cdn.example/alice.png");
    assert_eq!(p.layout.thumbnail.as_deref(), Some("u"));
    let q = w.starboard_post(55, None);
    assert_eq!(q.author_name, "alice");
}

#[test]
fn watched_message_moves() {
    let mut w = WatchedMessage::new(ReactionKind::UserStar, snapshot(1, "", &[]));
    assert_eq!(w.star_count, 0);
    w.on_star_added(&ReactionKind::AdminStar);
    assert_eq!(w.star_count, 10);
    assert!(w.is_ready_for_pinning());
    w.on_star_removed(&ReactionKind::UserStar);
    assert_eq!(w.star_count, 9);
    assert!(!w.is_ready_for_pinning());
    let d = w.duplicate();
    assert_eq!(d.star_count, 9);
    assert_eq!(d.message.author_name, "alice");
}
