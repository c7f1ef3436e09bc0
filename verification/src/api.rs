//! What the platforms' account services report of a user and their
//! friends. Fetching it is the caller's business.

use vstd::prelude::*;

verus! {

/// A user's profile on the content-delivery client's network.
#[derive(Debug, PartialEq, Eq)]
pub struct SteamProfile {
    pub steamid: String,
    pub personaname: String,
    pub profileurl: String,
    pub avatar: String,
    pub avatarfull: String,
    pub personastate: i32,
    pub gameextrainfo: Option<String>,
}

/// A friend on the content-delivery client's network.
#[derive(Debug, PartialEq, Eq)]
pub struct SteamFriend {
    pub steamid: String,
    pub relationship: String,
    pub friend_since: i64,
}

/// The media that the content-delivery client's store shows for a game.
#[derive(Debug, PartialEq, Eq)]
pub struct GameMediaInfo {
    pub thumbnail: Option<String>,
    pub cover: Option<String>,
    pub screenshots: Vec<String>,
    pub description: Option<String>,
}

/// An account linked to a storefront profile.
#[derive(Debug, PartialEq, Eq)]
pub struct LinkedAccount {
    pub identity_provider_id: String,
    pub display_name: String,
}

/// A user's profile on the storefront.
#[derive(Debug, PartialEq, Eq)]
pub struct EpicProfile {
    pub account_id: String,
    pub display_name: String,
    pub preferred_language: String,
    pub linked_accounts: Vec<LinkedAccount>,
    pub country: String,
}

/// What a storefront friend is doing.
#[derive(Debug, PartialEq, Eq)]
pub struct EpicPresence {
    pub status: String,
    pub game: Option<String>,
}

/// A friend on the storefront.
#[derive(Debug, PartialEq, Eq)]
pub struct EpicFriend {
    pub account_id: String,
    pub display_name: String,
    pub status: String,
    pub presence: Option<EpicPresence>,
}

/// A user's profile on the social-gaming client's network.
#[derive(Debug, PartialEq, Eq)]
pub struct BattleNetProfile {
    pub id: i64,
    pub battletag: String,
    pub sub: String,
}

/// A friend on the social-gaming client's network.
#[derive(Debug, PartialEq, Eq)]
pub struct BattleNetFriend {
    pub id: String,
    pub battletag: String,
    pub status: String,
    pub game_id: Option<String>,
    pub game_name: Option<String>,
}

} // verus!
