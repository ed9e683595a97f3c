use vstd::prelude::*;

verus! {

/// The two kinds of reaction that count towards a message's stars.
#[derive(PartialEq, Eq, Structural, Clone, Copy, Debug)]
pub enum ReactionKind {
    /// A privileged star, given by an administrator.
    AdminStar,
    /// An ordinary star.
    UserStar,
}

/// Score a message needs to be promoted to the starboard.
pub const THRESHOLD: i64 = 10;

impl ReactionKind {
    /// Weight of one reaction of this kind.
    pub open spec fn weight(self) -> int {
        match self {
            ReactionKind::AdminStar => 10,
            ReactionKind::UserStar => 1,
        }
    }

    /// Score of a message that is first seen through a reaction of this kind.
    pub open spec fn seed(self) -> int {
        match self {
            ReactionKind::AdminStar => 10,
            ReactionKind::UserStar => 0,
        }
    }

    pub fn power(&self) -> (r: i64)
        ensures
            r == self.weight(),
    {
        match self {
            ReactionKind::AdminStar => 10,
            ReactionKind::UserStar => 1,
        }
    }
}

/// The emoji identities that the starboard listens for.
#[derive(PartialEq, Eq, Structural, Clone, Copy, Debug)]
pub struct StarEmojis {
    pub admin_star_id: u64,
    pub star_id: u64,
}

/// The kind of a reaction, given the id of its emoji (`None` for a
/// standard, non-custom emoji), or `None` when the reaction is ignored.
pub open spec fn classify_spec(emojis: StarEmojis, custom_id: Option<u64>) -> Option<ReactionKind> {
    match custom_id {
        Some(id) => if id == emojis.admin_star_id {
            Some(ReactionKind::AdminStar)
        } else if id == emojis.star_id {
            Some(ReactionKind::UserStar)
        } else {
            None
        },
        None => None,
    }
}

impl StarEmojis {
    pub fn new(admin_star_id: u64, star_id: u64) -> (r: StarEmojis)
        ensures
            r.admin_star_id == admin_star_id,
            r.star_id == star_id,
    {
        StarEmojis { admin_star_id, star_id }
    }

    /// Maps an emoji to the kind of star it gives, if any.
    pub fn classify(&self, custom_id: Option<u64>) -> (r: Option<ReactionKind>)
        ensures
            r == classify_spec(*self, custom_id),
    {
        match custom_id {
            Some(id) => {
                if id == self.admin_star_id {
                    Some(ReactionKind::AdminStar)
                } else if id == self.star_id {
                    Some(ReactionKind::UserStar)
                } else {
                    None
                }
            },
            None => None,
        }
    }
}

/// Whether a reaction may count. An admin star counts unless the reactor is
/// known not to be an administrator: a failed permission lookup (`None`)
/// lets it through.
pub open spec fn permitted_spec(kind: ReactionKind, is_admin: Option<bool>) -> bool {
    kind == ReactionKind::UserStar || is_admin != Some(false)
}

/// Authorization gate applied to an added reaction before it is counted.
pub fn reaction_permitted(kind: ReactionKind, is_admin: Option<bool>) -> (r: bool)
    ensures
        r == permitted_spec(kind, is_admin),
{
    match kind {
        ReactionKind::UserStar => true,
        ReactionKind::AdminStar => match is_admin {
            Some(admin) => admin,
            None => true,
        },
    }
}

} // verus!
