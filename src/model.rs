//! The records that the service sends and receives.
//!
//! Each type mirrors one JSON shape. Members that the service may leave out
//! are `Option`s; a decimal number is a [`Number`].
use vstd::prelude::*;
use crate::json::{Field, Number};

verus! {

/// A game of the store.
#[derive(Clone, Debug, PartialEq)]
pub struct Game {
    pub game_id: String,
    pub name: String,
    pub description: String,
    pub owner_id: String,
    pub download_link: Option<String>,
    pub price: Number,
    pub show_in_store: bool,
    pub icon_hash: Option<String>,
    pub splash_hash: Option<String>,
    pub banner_hash: Option<String>,
    pub genre: Option<String>,
    pub release_date: Option<String>,
    pub developer: Option<String>,
    pub publisher: Option<String>,
    pub platforms: Option<String>,
    pub rating: Number,
    pub website: Option<String>,
    pub trailer_link: Option<String>,
    pub multiplayer: bool,
}

/// A user account. The nested lists are filled only when the service
/// enriches the record (the caller's own profile, for instance).
#[derive(Debug)]
pub struct User {
    pub user_id: String,
    pub username: String,
    pub email: Option<String>,
    pub balance: Option<Number>,
    pub verified: bool,
    pub steam_id: Option<String>,
    pub steam_username: Option<String>,
    pub steam_avatar_url: Option<String>,
    pub is_studio: bool,
    pub admin: bool,
    pub disabled: Option<bool>,
    pub google_id: Option<String>,
    pub discord_id: Option<String>,
    pub studios: Option<Vec<Studio>>,
    pub roles: Option<Vec<String>>,
    pub inventory: Option<Vec<InventoryItem>>,
    pub owned_items: Option<Vec<Item>>,
    pub created_games: Option<Vec<Game>>,
    pub have_authenticator: Option<bool>,
    pub verification_key: Option<String>,
}

/// An item of the store. A deleted item is left out of listings but can
/// still be fetched by its id.
#[derive(Clone, Debug, PartialEq)]
pub struct Item {
    pub item_id: String,
    pub name: String,
    pub description: String,
    pub price: Number,
    pub owner: String,
    pub show_in_store: bool,
    pub icon_hash: String,
    pub deleted: bool,
}

/// A stack of one item held by a user. Stacks of one item are told apart by
/// their free-form metadata.
#[derive(Debug)]
pub struct InventoryItem {
    pub item_id: String,
    pub name: String,
    pub description: String,
    pub amount: i32,
    pub icon_hash: Option<String>,
    pub metadata: Option<Vec<Field>>,
}

/// A member of a lobby.
#[derive(Clone, Debug, PartialEq)]
pub struct LobbyUser {
    pub username: String,
    pub user_id: String,
    pub verified: bool,
    pub steam_username: Option<String>,
    pub steam_avatar_url: Option<String>,
    pub steam_id: Option<String>,
}

/// A lobby and its members.
#[derive(Clone, Debug, PartialEq)]
pub struct Lobby {
    pub lobby_id: String,
    pub users: Vec<LobbyUser>,
}

/// A member of a studio.
#[derive(Clone, Debug, PartialEq)]
pub struct StudioUser {
    pub user_id: String,
    pub username: String,
    pub verified: bool,
    pub admin: bool,
}

/// A studio. The API key is sent only to the studio's owner.
#[derive(Clone, Debug, PartialEq)]
pub struct Studio {
    pub user_id: String,
    pub username: String,
    pub verified: bool,
    pub admin_id: String,
    pub is_admin: Option<bool>,
    pub api_key: Option<String>,
    pub users: Option<Vec<StudioUser>>,
}

/// An amount of one item, as put into or taken out of a trade. The metadata,
/// when given, picks one stack of the item.
#[derive(Debug)]
pub struct TradeItem {
    pub item_id: String,
    pub amount: i32,
    pub metadata: Option<Vec<Field>>,
}

/// An item of a trade, with the item's details.
#[derive(Clone, Debug, PartialEq)]
pub struct TradeItemInfo {
    pub item_id: String,
    pub name: String,
    pub description: String,
    pub icon_hash: String,
    pub amount: i32,
}

/// A trade between two users. It completes once both sides have approved it.
#[derive(Clone, Debug, PartialEq)]
pub struct Trade {
    pub id: String,
    pub from_user_id: String,
    pub to_user_id: String,
    pub from_user_items: Vec<TradeItemInfo>,
    pub to_user_items: Vec<TradeItemInfo>,
    pub approved_from_user: bool,
    pub approved_to_user: bool,
    pub status: String,
    pub created_at: String,
    pub updated_at: String,
}

/// What a global search found, in the service's order.
#[derive(Debug)]
pub struct SearchResult {
    pub users: Vec<User>,
    pub items: Vec<Item>,
    pub games: Vec<Game>,
}

/// An OAuth2 application: its credentials, name and the addresses it may
/// redirect to.
#[derive(Clone, Debug, PartialEq)]
pub struct OAuth2App {
    pub client_id: String,
    pub client_secret: String,
    pub name: String,
    pub redirect_urls: Vec<String>,
}

} // verus!
