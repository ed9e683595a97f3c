use vstd::prelude::*;

use crate::reaction::{ReactionKind, THRESHOLD};
use crate::text::{decimal, join_lines, join_lines_spec, push_decimal, views};

verus! {

/// What the starboard keeps of a message, read once when it is first seen.
#[derive(Debug)]
pub struct MessageSnapshot {
    pub id: u64,
    pub channel_id: u64,
    pub author_id: u64,
    pub author_name: String,
    pub author_avatar: String,
    pub content: String,
    pub attachments: Vec<String>,
}

/// The content of a snapshot, with each text as a sequence of characters.
pub struct SnapshotView {
    pub id: u64,
    pub channel_id: u64,
    pub author_id: u64,
    pub author_name: Seq<char>,
    pub author_avatar: Seq<char>,
    pub content: Seq<char>,
    pub attachments: Seq<Seq<char>>,
}

impl View for MessageSnapshot {
    type V = SnapshotView;

    open spec fn view(&self) -> SnapshotView {
        SnapshotView {
            id: self.id,
            channel_id: self.channel_id,
            author_id: self.author_id,
            author_name: self.author_name@,
            author_avatar: self.author_avatar@,
            content: self.content@,
            attachments: views(self.attachments@),
        }
    }
}

impl MessageSnapshot {
    /// A copy of the snapshot.
    pub fn duplicate(&self) -> (r: MessageSnapshot)
        ensures
            r@ == self@,
    {
        let attachments = self.attachments.clone();
        assert(views(attachments@) =~= views(self.attachments@)) by {
            assert forall|i: int| 0 <= i < attachments.len() implies attachments@[i]@
                == self.attachments@[i]@ by {
                assert(cloned::<String>(self.attachments[i], attachments[i]));
            }
        }
        MessageSnapshot {
            id: self.id,
            channel_id: self.channel_id,
            author_id: self.author_id,
            author_name: self.author_name.clone(),
            author_avatar: self.author_avatar.clone(),
            content: self.content.clone(),
            attachments,
        }
    }
}

/// A message that is collecting stars and has not been promoted yet.
#[derive(Debug)]
pub struct WatchedMessage {
    pub star_count: i64,
    pub message: MessageSnapshot,
    /// A starboard post for this message has been handed out and its
    /// outcome is not known yet.
    pub promoting: bool,
}

/// The state of a watched message.
pub struct WatchedView {
    pub star_count: int,
    pub message: SnapshotView,
    pub promoting: bool,
}

impl View for WatchedMessage {
    type V = WatchedView;

    open spec fn view(&self) -> WatchedView {
        WatchedView {
            star_count: self.star_count as int,
            message: self.message@,
            promoting: self.promoting,
        }
    }
}

impl WatchedView {
    /// The state after the score moved by `delta`, held to the range of `i64`.
    pub open spec fn moved(self, delta: int) -> WatchedView {
        WatchedView { star_count: saturate(self.star_count + delta), ..self }
    }
}

/// `x` held to the range of `i64`.
pub open spec fn saturate(x: int) -> int {
    if x > i64::MAX {
        i64::MAX as int
    } else if x < i64::MIN {
        i64::MIN as int
    } else {
        x
    }
}

/// Whether a score is enough for promotion.
pub open spec fn eligible(star_count: int) -> bool {
    star_count >= THRESHOLD
}

/// Link to a message of a guild channel.
pub open spec fn message_url_spec(guild_id: u64, channel_id: u64, message_id: u64) -> Seq<char> {
    "https://discordapp.com/channels/"@ + decimal(guild_id as nat) + seq!['/'] + decimal(
        channel_id as nat,
    ) + seq!['/'] + decimal(message_id as nat)
}

/// How a starboard post presents a message: its description, its thumbnail
/// and its main image.
pub struct PostLayout {
    pub description: Option<String>,
    pub thumbnail: Option<String>,
    pub image: Option<String>,
}

pub open spec fn opt_view(o: Option<String>) -> Option<Seq<char>> {
    match o {
        Some(s) => Some(s@),
        None => None,
    }
}

/// The layout of a post for a message with this text and these attachment
/// links: the text is the description; a single attachment is the
/// thumbnail beside text or the image without it; several attachments are
/// listed one per line as the description instead of the text.
pub open spec fn layout_spec(content: Seq<char>, attachments: Seq<Seq<char>>) -> (
    Option<Seq<char>>,
    Option<Seq<char>>,
    Option<Seq<char>>,
) {
    let has_text = content.len() > 0;
    let description = if attachments.len() > 1 {
        Some(join_lines_spec(attachments))
    } else if has_text {
        Some(content)
    } else {
        None
    };
    let thumbnail = if attachments.len() == 1 && has_text {
        Some(attachments[0])
    } else {
        None
    };
    let image = if attachments.len() == 1 && !has_text {
        Some(attachments[0])
    } else {
        None
    };
    (description, thumbnail, image)
}

impl PostLayout {
    pub open spec fn view_parts(&self) -> (
        Option<Seq<char>>,
        Option<Seq<char>>,
        Option<Seq<char>>,
    ) {
        (opt_view(self.description), opt_view(self.thumbnail), opt_view(self.image))
    }

    /// Lays out a message's text and attachment links.
    pub fn new(content: &String, attachments: &Vec<String>) -> (r: PostLayout)
        ensures
            r.view_parts() == layout_spec(content@, views(attachments@)),
    {
        let has_text = !content.as_str().is_empty();
        let n = attachments.len();
        let description = if n > 1 {
            Some(join_lines(attachments))
        } else if has_text {
            Some(content.clone())
        } else {
            None
        };
        let mut thumbnail = None;
        let mut image = None;
        if n == 1 {
            let link = attachments[0].clone();
            if has_text {
                thumbnail = Some(link);
            } else {
                image = Some(link);
            }
        }
        let r = PostLayout { description, thumbnail, image };
        proof {
            if n >= 1 {
                assert(views(attachments@)[0] == attachments@[0]@);
            }
        }
        r
    }
}

/// The post that promotes a message: who wrote it, a link back to it and
/// its layout.
pub struct StarboardPost {
    pub author_name: String,
    pub author_avatar: String,
    pub link: String,
    pub layout: PostLayout,
}

/// Colour of the starboard posts.
pub const ACCENT_COLOR: u64 = 0xFFCC36;

impl WatchedMessage {
    /// Starts watching a message first seen through a reaction of `kind`.
    pub fn new(kind: ReactionKind, message: MessageSnapshot) -> (r: WatchedMessage)
        ensures
            r@ == (WatchedView { star_count: kind.seed(), message: message@, promoting: false }),
    {
        let star_count: i64 = match kind {
            ReactionKind::AdminStar => 10,
            ReactionKind::UserStar => 0,
        };
        WatchedMessage { star_count, message, promoting: false }
    }

    /// A copy of the watched message.
    pub fn duplicate(&self) -> (r: WatchedMessage)
        ensures
            r@ == self@,
    {
        WatchedMessage {
            star_count: self.star_count,
            message: self.message.duplicate(),
            promoting: self.promoting,
        }
    }

    pub fn on_star_added(&mut self, kind: &ReactionKind)
        ensures
            final(self)@ == old(self)@.moved(kind.weight()),
    {
        let w = kind.power();
        if self.star_count > i64::MAX - w {
            self.star_count = i64::MAX;
        } else {
            self.star_count = self.star_count + w;
        }
    }

    pub fn on_star_removed(&mut self, kind: &ReactionKind)
        ensures
            final(self)@ == old(self)@.moved(-kind.weight()),
    {
        let w = kind.power();
        if self.star_count < i64::MIN + w {
            self.star_count = i64::MIN;
        } else {
            self.star_count = self.star_count - w;
        }
    }

    pub fn is_ready_for_pinning(&self) -> (r: bool)
        ensures
            r == eligible(self.star_count as int),
    {
        self.star_count >= THRESHOLD
    }

    /// Link to the watched message in the guild `guild_id`.
    pub fn url(&self, guild_id: u64) -> (r: String)
        ensures
            r@ == message_url_spec(guild_id, self.message.channel_id, self.message.id),
    {
        let mut r = String::from_str("https://discordapp.com/channels/");
        push_decimal(&mut r, guild_id);
        r.append("/");
        push_decimal(&mut r, self.message.channel_id);
        r.append("/");
        push_decimal(&mut r, self.message.id);
        proof {
            reveal_strlit("https://discordapp.com/channels/");
            reveal_strlit("/");
        }
        assert(r@ =~= message_url_spec(guild_id, self.message.channel_id, self.message.id));
        r
    }

    /// The post that promotes this message. The author is named by
    /// `nickname`, their name in the guild, where it is known, else by their
    /// account name.
    pub fn starboard_post(&self, guild_id: u64, nickname: Option<String>) -> (r: StarboardPost)
        ensures
            r.author_name@ == match nickname {
                Some(n) => n@,
                None => self.message.author_name@,
            },
            r.author_avatar@ == self.message.author_avatar@,
            r.link@ == message_url_spec(guild_id, self.message.channel_id, self.message.id),
            r.layout.view_parts() == layout_spec(
                self.message.content@,
                views(self.message.attachments@),
            ),
    {
        let author_name = match nickname {
            Some(n) => n,
            None => self.message.author_name.clone(),
        };
        StarboardPost {
            author_name,
            author_avatar: self.message.author_avatar.clone(),
            link: self.url(guild_id),
            layout: PostLayout::new(&self.message.content, &self.message.attachments),
        }
    }
}

} // verus!
