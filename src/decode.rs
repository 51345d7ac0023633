//! Decoding: from the JSON that the service sends to the typed records.
//!
//! For each record `X` there are two predicates: `x_ok(j)` says that `j` has
//! the record's shape (every required member present with the right kind,
//! every optional member missing, `null` or of the right kind; other members
//! are ignored), and `x_of(j, x)` says that `j` has that shape and that `x`
//! holds its members. `decode_x` returns `Some` exactly on the values that have
//! the shape.
use vstd::prelude::*;
use vstd::string::StringExecFns;
use crate::json::{
    absent, arr_at, bool_at, find, has_bool, has_i32, has_num, has_str, i32_at, num_at, opt_bool,
    opt_bool_at, opt_bool_ok, opt_num, opt_num_at, opt_num_ok, opt_obj, opt_obj_at, opt_obj_ok,
    opt_str, opt_str_at, opt_str_ok, req_arr, req_bool, req_i32, req_num, req_str, str_at, Field,
    Json,
};
use crate::model::{
    Game, InventoryItem, Item, Lobby, LobbyUser, OAuth2App, SearchResult, Studio, StudioUser, Trade,
    TradeItem, TradeItemInfo, User,
};

verus! {

pub open spec fn game_ok(j: Json) -> bool {
    &&& j matches Json::Obj(fs)
    &&& has_str(fs@, "gameId"@)
    &&& has_str(fs@, "name"@)
    &&& has_str(fs@, "description"@)
    &&& has_str(fs@, "owner_id"@)
    &&& opt_str_ok(fs@, "download_link"@)
    &&& has_num(fs@, "price"@)
    &&& has_bool(fs@, "showInStore"@)
    &&& opt_str_ok(fs@, "iconHash"@)
    &&& opt_str_ok(fs@, "splashHash"@)
    &&& opt_str_ok(fs@, "bannerHash"@)
    &&& opt_str_ok(fs@, "genre"@)
    &&& opt_str_ok(fs@, "release_date"@)
    &&& opt_str_ok(fs@, "developer"@)
    &&& opt_str_ok(fs@, "publisher"@)
    &&& opt_str_ok(fs@, "platforms"@)
    &&& has_num(fs@, "rating"@)
    &&& opt_str_ok(fs@, "website"@)
    &&& opt_str_ok(fs@, "trailer_link"@)
    &&& has_bool(fs@, "multiplayer"@)
}

pub open spec fn game_of(j: Json, x: Game) -> bool {
    &&& j matches Json::Obj(fs)
    &&& str_at(fs@, "gameId"@, x.game_id)
    &&& str_at(fs@, "name"@, x.name)
    &&& str_at(fs@, "description"@, x.description)
    &&& str_at(fs@, "owner_id"@, x.owner_id)
    &&& opt_str_at(fs@, "download_link"@, x.download_link)
    &&& num_at(fs@, "price"@, x.price)
    &&& bool_at(fs@, "showInStore"@, x.show_in_store)
    &&& opt_str_at(fs@, "iconHash"@, x.icon_hash)
    &&& opt_str_at(fs@, "splashHash"@, x.splash_hash)
    &&& opt_str_at(fs@, "bannerHash"@, x.banner_hash)
    &&& opt_str_at(fs@, "genre"@, x.genre)
    &&& opt_str_at(fs@, "release_date"@, x.release_date)
    &&& opt_str_at(fs@, "developer"@, x.developer)
    &&& opt_str_at(fs@, "publisher"@, x.publisher)
    &&& opt_str_at(fs@, "platforms"@, x.platforms)
    &&& num_at(fs@, "rating"@, x.rating)
    &&& opt_str_at(fs@, "website"@, x.website)
    &&& opt_str_at(fs@, "trailer_link"@, x.trailer_link)
    &&& bool_at(fs@, "multiplayer"@, x.multiplayer)
}

pub fn decode_game(j: &Json) -> (r: Option<Game>)
    ensures
        match r {
            Some(x) => game_of(*j, x),
            None => !game_ok(*j),
        },
{
    match j {
        Json::Obj(fs) => {
            let game_id = req_str(fs, "gameId")?;
            let name = req_str(fs, "name")?;
            let description = req_str(fs, "description")?;
            let owner_id = req_str(fs, "owner_id")?;
            let download_link = opt_str(fs, "download_link")?;
            let price = req_num(fs, "price")?;
            let show_in_store = req_bool(fs, "showInStore")?;
            let icon_hash = opt_str(fs, "iconHash")?;
            let splash_hash = opt_str(fs, "splashHash")?;
            let banner_hash = opt_str(fs, "bannerHash")?;
            let genre = opt_str(fs, "genre")?;
            let release_date = opt_str(fs, "release_date")?;
            let developer = opt_str(fs, "developer")?;
            let publisher = opt_str(fs, "publisher")?;
            let platforms = opt_str(fs, "platforms")?;
            let rating = req_num(fs, "rating")?;
            let website = opt_str(fs, "website")?;
            let trailer_link = opt_str(fs, "trailer_link")?;
            let multiplayer = req_bool(fs, "multiplayer")?;
            Some(
                Game {
                    game_id,
                    name,
                    description,
                    owner_id,
                    download_link,
                    price,
                    show_in_store,
                    icon_hash,
                    splash_hash,
                    banner_hash,
                    genre,
                    release_date,
                    developer,
                    publisher,
                    platforms,
                    rating,
                    website,
                    trailer_link,
                    multiplayer,
                },
            )
        },
        _ => None,
    }
}

pub open spec fn user_ok(j: Json) -> bool {
    &&& j matches Json::Obj(fs)
    &&& has_str(fs@, "userId"@)
    &&& has_str(fs@, "username"@)
    &&& opt_str_ok(fs@, "email"@)
    &&& opt_num_ok(fs@, "balance"@)
    &&& has_bool(fs@, "verified"@)
    &&& opt_str_ok(fs@, "steam_id"@)
    &&& opt_str_ok(fs@, "steam_username"@)
    &&& opt_str_ok(fs@, "steam_avatar_url"@)
    &&& has_bool(fs@, "isStudio"@)
    &&& has_bool(fs@, "admin"@)
    &&& opt_bool_ok(fs@, "disabled"@)
    &&& opt_str_ok(fs@, "google_id"@)
    &&& opt_str_ok(fs@, "discord_id"@)
    &&& opt_studios_ok(fs@, "studios"@)
    &&& opt_strings_ok(fs@, "roles"@)
    &&& opt_inventory_items_ok(fs@, "inventory"@)
    &&& opt_items_ok(fs@, "ownedItems"@)
    &&& opt_games_ok(fs@, "createdGames"@)
    &&& opt_bool_ok(fs@, "haveAuthenticator"@)
    &&& opt_str_ok(fs@, "verificationKey"@)
}

pub open spec fn user_of(j: Json, x: User) -> bool {
    &&& j matches Json::Obj(fs)
    &&& str_at(fs@, "userId"@, x.user_id)
    &&& str_at(fs@, "username"@, x.username)
    &&& opt_str_at(fs@, "email"@, x.email)
    &&& opt_num_at(fs@, "balance"@, x.balance)
    &&& bool_at(fs@, "verified"@, x.verified)
    &&& opt_str_at(fs@, "steam_id"@, x.steam_id)
    &&& opt_str_at(fs@, "steam_username"@, x.steam_username)
    &&& opt_str_at(fs@, "steam_avatar_url"@, x.steam_avatar_url)
    &&& bool_at(fs@, "isStudio"@, x.is_studio)
    &&& bool_at(fs@, "admin"@, x.admin)
    &&& opt_bool_at(fs@, "disabled"@, x.disabled)
    &&& opt_str_at(fs@, "google_id"@, x.google_id)
    &&& opt_str_at(fs@, "discord_id"@, x.discord_id)
    &&& opt_studios_at(fs@, "studios"@, x.studios)
    &&& opt_strings_at(fs@, "roles"@, x.roles)
    &&& opt_inventory_items_at(fs@, "inventory"@, x.inventory)
    &&& opt_items_at(fs@, "ownedItems"@, x.owned_items)
    &&& opt_games_at(fs@, "createdGames"@, x.created_games)
    &&& opt_bool_at(fs@, "haveAuthenticator"@, x.have_authenticator)
    &&& opt_str_at(fs@, "verificationKey"@, x.verification_key)
}

pub fn decode_user(j: &Json) -> (r: Option<User>)
    ensures
        match r {
            Some(x) => user_of(*j, x),
            None => !user_ok(*j),
        },
{
    match j {
        Json::Obj(fs) => {
            let user_id = req_str(fs, "userId")?;
            let username = req_str(fs, "username")?;
            let email = opt_str(fs, "email")?;
            let balance = opt_num(fs, "balance")?;
            let verified = req_bool(fs, "verified")?;
            let steam_id = opt_str(fs, "steam_id")?;
            let steam_username = opt_str(fs, "steam_username")?;
            let steam_avatar_url = opt_str(fs, "steam_avatar_url")?;
            let is_studio = req_bool(fs, "isStudio")?;
            let admin = req_bool(fs, "admin")?;
            let disabled = opt_bool(fs, "disabled")?;
            let google_id = opt_str(fs, "google_id")?;
            let discord_id = opt_str(fs, "discord_id")?;
            let studios = opt_studios(fs, "studios")?;
            let roles = opt_strings(fs, "roles")?;
            let inventory = opt_inventory_items(fs, "inventory")?;
            let owned_items = opt_items(fs, "ownedItems")?;
            let created_games = opt_games(fs, "createdGames")?;
            let have_authenticator = opt_bool(fs, "haveAuthenticator")?;
            let verification_key = opt_str(fs, "verificationKey")?;
            Some(
                User {
                    user_id,
                    username,
                    email,
                    balance,
                    verified,
                    steam_id,
                    steam_username,
                    steam_avatar_url,
                    is_studio,
                    admin,
                    disabled,
                    google_id,
                    discord_id,
                    studios,
                    roles,
                    inventory,
                    owned_items,
                    created_games,
                    have_authenticator,
                    verification_key,
                },
            )
        },
        _ => None,
    }
}

pub open spec fn item_ok(j: Json) -> bool {
    &&& j matches Json::Obj(fs)
    &&& has_str(fs@, "itemId"@)
    &&& has_str(fs@, "name"@)
    &&& has_str(fs@, "description"@)
    &&& has_num(fs@, "price"@)
    &&& has_str(fs@, "owner"@)
    &&& has_bool(fs@, "showInStore"@)
    &&& has_str(fs@, "iconHash"@)
    &&& has_bool(fs@, "deleted"@)
}

pub open spec fn item_of(j: Json, x: Item) -> bool {
    &&& j matches Json::Obj(fs)
    &&& str_at(fs@, "itemId"@, x.item_id)
    &&& str_at(fs@, "name"@, x.name)
    &&& str_at(fs@, "description"@, x.description)
    &&& num_at(fs@, "price"@, x.price)
    &&& str_at(fs@, "owner"@, x.owner)
    &&& bool_at(fs@, "showInStore"@, x.show_in_store)
    &&& str_at(fs@, "iconHash"@, x.icon_hash)
    &&& bool_at(fs@, "deleted"@, x.deleted)
}

pub fn decode_item(j: &Json) -> (r: Option<Item>)
    ensures
        match r {
            Some(x) => item_of(*j, x),
            None => !item_ok(*j),
        },
{
    match j {
        Json::Obj(fs) => {
            let item_id = req_str(fs, "itemId")?;
            let name = req_str(fs, "name")?;
            let description = req_str(fs, "description")?;
            let price = req_num(fs, "price")?;
            let owner = req_str(fs, "owner")?;
            let show_in_store = req_bool(fs, "showInStore")?;
            let icon_hash = req_str(fs, "iconHash")?;
            let deleted = req_bool(fs, "deleted")?;
            Some(
                Item {
                    item_id,
                    name,
                    description,
                    price,
                    owner,
                    show_in_store,
                    icon_hash,
                    deleted,
                },
            )
        },
        _ => None,
    }
}

pub open spec fn inventory_item_ok(j: Json) -> bool {
    &&& j matches Json::Obj(fs)
    &&& has_str(fs@, "itemId"@)
    &&& has_str(fs@, "name"@)
    &&& has_str(fs@, "description"@)
    &&& has_i32(fs@, "amount"@)
    &&& opt_str_ok(fs@, "iconHash"@)
    &&& opt_obj_ok(fs@, "metadata"@)
}

pub open spec fn inventory_item_of(j: Json, x: InventoryItem) -> bool {
    &&& j matches Json::Obj(fs)
    &&& str_at(fs@, "itemId"@, x.item_id)
    &&& str_at(fs@, "name"@, x.name)
    &&& str_at(fs@, "description"@, x.description)
    &&& i32_at(fs@, "amount"@, x.amount)
    &&& opt_str_at(fs@, "iconHash"@, x.icon_hash)
    &&& opt_obj_at(fs@, "metadata"@, x.metadata)
}

pub fn decode_inventory_item(j: &Json) -> (r: Option<InventoryItem>)
    ensures
        match r {
            Some(x) => inventory_item_of(*j, x),
            None => !inventory_item_ok(*j),
        },
{
    match j {
        Json::Obj(fs) => {
            let item_id = req_str(fs, "itemId")?;
            let name = req_str(fs, "name")?;
            let description = req_str(fs, "description")?;
            let amount = req_i32(fs, "amount")?;
            let icon_hash = opt_str(fs, "iconHash")?;
            let metadata = opt_obj(fs, "metadata")?;
            Some(InventoryItem { item_id, name, description, amount, icon_hash, metadata })
        },
        _ => None,
    }
}

pub open spec fn lobby_user_ok(j: Json) -> bool {
    &&& j matches Json::Obj(fs)
    &&& has_str(fs@, "username"@)
    &&& has_str(fs@, "user_id"@)
    &&& has_bool(fs@, "verified"@)
    &&& opt_str_ok(fs@, "steam_username"@)
    &&& opt_str_ok(fs@, "steam_avatar_url"@)
    &&& opt_str_ok(fs@, "steam_id"@)
}

pub open spec fn lobby_user_of(j: Json, x: LobbyUser) -> bool {
    &&& j matches Json::Obj(fs)
    &&& str_at(fs@, "username"@, x.username)
    &&& str_at(fs@, "user_id"@, x.user_id)
    &&& bool_at(fs@, "verified"@, x.verified)
    &&& opt_str_at(fs@, "steam_username"@, x.steam_username)
    &&& opt_str_at(fs@, "steam_avatar_url"@, x.steam_avatar_url)
    &&& opt_str_at(fs@, "steam_id"@, x.steam_id)
}

pub fn decode_lobby_user(j: &Json) -> (r: Option<LobbyUser>)
    ensures
        match r {
            Some(x) => lobby_user_of(*j, x),
            None => !lobby_user_ok(*j),
        },
{
    match j {
        Json::Obj(fs) => {
            let username = req_str(fs, "username")?;
            let user_id = req_str(fs, "user_id")?;
            let verified = req_bool(fs, "verified")?;
            let steam_username = opt_str(fs, "steam_username")?;
            let steam_avatar_url = opt_str(fs, "steam_avatar_url")?;
            let steam_id = opt_str(fs, "steam_id")?;
            Some(
                LobbyUser {
                    username,
                    user_id,
                    verified,
                    steam_username,
                    steam_avatar_url,
                    steam_id,
                },
            )
        },
        _ => None,
    }
}

pub open spec fn lobby_ok(j: Json) -> bool {
    &&& j matches Json::Obj(fs)
    &&& has_str(fs@, "lobbyId"@)
    &&& arr_at(fs@, "users"@) matches Some(a) && lobby_users_ok(a)
}

pub open spec fn lobby_of(j: Json, x: Lobby) -> bool {
    &&& j matches Json::Obj(fs)
    &&& str_at(fs@, "lobbyId"@, x.lobby_id)
    &&& arr_at(fs@, "users"@) matches Some(a) && lobby_users_of(a, x.users@)
}

pub fn decode_lobby(j: &Json) -> (r: Option<Lobby>)
    ensures
        match r {
            Some(x) => lobby_of(*j, x),
            None => !lobby_ok(*j),
        },
{
    match j {
        Json::Obj(fs) => {
            let lobby_id = req_str(fs, "lobbyId")?;
            let users = decode_lobby_users(req_arr(fs, "users")?)?;
            Some(Lobby { lobby_id, users })
        },
        _ => None,
    }
}

pub open spec fn studio_user_ok(j: Json) -> bool {
    &&& j matches Json::Obj(fs)
    &&& has_str(fs@, "user_id"@)
    &&& has_str(fs@, "username"@)
    &&& has_bool(fs@, "verified"@)
    &&& has_bool(fs@, "admin"@)
}

pub open spec fn studio_user_of(j: Json, x: StudioUser) -> bool {
    &&& j matches Json::Obj(fs)
    &&& str_at(fs@, "user_id"@, x.user_id)
    &&& str_at(fs@, "username"@, x.username)
    &&& bool_at(fs@, "verified"@, x.verified)
    &&& bool_at(fs@, "admin"@, x.admin)
}

pub fn decode_studio_user(j: &Json) -> (r: Option<StudioUser>)
    ensures
        match r {
            Some(x) => studio_user_of(*j, x),
            None => !studio_user_ok(*j),
        },
{
    match j {
        Json::Obj(fs) => {
            let user_id = req_str(fs, "user_id")?;
            let username = req_str(fs, "username")?;
            let verified = req_bool(fs, "verified")?;
            let admin = req_bool(fs, "admin")?;
            Some(StudioUser { user_id, username, verified, admin })
        },
        _ => None,
    }
}

pub open spec fn studio_ok(j: Json) -> bool {
    &&& j matches Json::Obj(fs)
    &&& has_str(fs@, "user_id"@)
    &&& has_str(fs@, "username"@)
    &&& has_bool(fs@, "verified"@)
    &&& has_str(fs@, "admin_id"@)
    &&& opt_bool_ok(fs@, "isAdmin"@)
    &&& opt_str_ok(fs@, "apiKey"@)
    &&& opt_studio_users_ok(fs@, "users"@)
}

pub open spec fn studio_of(j: Json, x: Studio) -> bool {
    &&& j matches Json::Obj(fs)
    &&& str_at(fs@, "user_id"@, x.user_id)
    &&& str_at(fs@, "username"@, x.username)
    &&& bool_at(fs@, "verified"@, x.verified)
    &&& str_at(fs@, "admin_id"@, x.admin_id)
    &&& opt_bool_at(fs@, "isAdmin"@, x.is_admin)
    &&& opt_str_at(fs@, "apiKey"@, x.api_key)
    &&& opt_studio_users_at(fs@, "users"@, x.users)
}

pub fn decode_studio(j: &Json) -> (r: Option<Studio>)
    ensures
        match r {
            Some(x) => studio_of(*j, x),
            None => !studio_ok(*j),
        },
{
    match j {
        Json::Obj(fs) => {
            let user_id = req_str(fs, "user_id")?;
            let username = req_str(fs, "username")?;
            let verified = req_bool(fs, "verified")?;
            let admin_id = req_str(fs, "admin_id")?;
            let is_admin = opt_bool(fs, "isAdmin")?;
            let api_key = opt_str(fs, "apiKey")?;
            let users = opt_studio_users(fs, "users")?;
            Some(Studio { user_id, username, verified, admin_id, is_admin, api_key, users })
        },
        _ => None,
    }
}

pub open spec fn trade_item_ok(j: Json) -> bool {
    &&& j matches Json::Obj(fs)
    &&& has_str(fs@, "itemId"@)
    &&& has_i32(fs@, "amount"@)
    &&& opt_obj_ok(fs@, "metadata"@)
}

pub open spec fn trade_item_of(j: Json, x: TradeItem) -> bool {
    &&& j matches Json::Obj(fs)
    &&& str_at(fs@, "itemId"@, x.item_id)
    &&& i32_at(fs@, "amount"@, x.amount)
    &&& opt_obj_at(fs@, "metadata"@, x.metadata)
}

pub fn decode_trade_item(j: &Json) -> (r: Option<TradeItem>)
    ensures
        match r {
            Some(x) => trade_item_of(*j, x),
            None => !trade_item_ok(*j),
        },
{
    match j {
        Json::Obj(fs) => {
            let item_id = req_str(fs, "itemId")?;
            let amount = req_i32(fs, "amount")?;
            let metadata = opt_obj(fs, "metadata")?;
            Some(TradeItem { item_id, amount, metadata })
        },
        _ => None,
    }
}

pub open spec fn trade_item_info_ok(j: Json) -> bool {
    &&& j matches Json::Obj(fs)
    &&& has_str(fs@, "itemId"@)
    &&& has_str(fs@, "name"@)
    &&& has_str(fs@, "description"@)
    &&& has_str(fs@, "iconHash"@)
    &&& has_i32(fs@, "amount"@)
}

pub open spec fn trade_item_info_of(j: Json, x: TradeItemInfo) -> bool {
    &&& j matches Json::Obj(fs)
    &&& str_at(fs@, "itemId"@, x.item_id)
    &&& str_at(fs@, "name"@, x.name)
    &&& str_at(fs@, "description"@, x.description)
    &&& str_at(fs@, "iconHash"@, x.icon_hash)
    &&& i32_at(fs@, "amount"@, x.amount)
}

pub fn decode_trade_item_info(j: &Json) -> (r: Option<TradeItemInfo>)
    ensures
        match r {
            Some(x) => trade_item_info_of(*j, x),
            None => !trade_item_info_ok(*j),
        },
{
    match j {
        Json::Obj(fs) => {
            let item_id = req_str(fs, "itemId")?;
            let name = req_str(fs, "name")?;
            let description = req_str(fs, "description")?;
            let icon_hash = req_str(fs, "iconHash")?;
            let amount = req_i32(fs, "amount")?;
            Some(TradeItemInfo { item_id, name, description, icon_hash, amount })
        },
        _ => None,
    }
}

pub open spec fn trade_ok(j: Json) -> bool {
    &&& j matches Json::Obj(fs)
    &&& has_str(fs@, "id"@)
    &&& has_str(fs@, "fromUserId"@)
    &&& has_str(fs@, "toUserId"@)
    &&& arr_at(fs@, "fromUserItems"@) matches Some(a) && trade_item_infos_ok(a)
    &&& arr_at(fs@, "toUserItems"@) matches Some(a) && trade_item_infos_ok(a)
    &&& has_bool(fs@, "approvedFromUser"@)
    &&& has_bool(fs@, "approvedToUser"@)
    &&& has_str(fs@, "status"@)
    &&& has_str(fs@, "createdAt"@)
    &&& has_str(fs@, "updatedAt"@)
}

pub open spec fn trade_of(j: Json, x: Trade) -> bool {
    &&& j matches Json::Obj(fs)
    &&& str_at(fs@, "id"@, x.id)
    &&& str_at(fs@, "fromUserId"@, x.from_user_id)
    &&& str_at(fs@, "toUserId"@, x.to_user_id)
    &&& arr_at(fs@, "fromUserItems"@) matches Some(a) && trade_item_infos_of(a, x.from_user_items@)
    &&& arr_at(fs@, "toUserItems"@) matches Some(a) && trade_item_infos_of(a, x.to_user_items@)
    &&& bool_at(fs@, "approvedFromUser"@, x.approved_from_user)
    &&& bool_at(fs@, "approvedToUser"@, x.approved_to_user)
    &&& str_at(fs@, "status"@, x.status)
    &&& str_at(fs@, "createdAt"@, x.created_at)
    &&& str_at(fs@, "updatedAt"@, x.updated_at)
}

pub fn decode_trade(j: &Json) -> (r: Option<Trade>)
    ensures
        match r {
            Some(x) => trade_of(*j, x),
            None => !trade_ok(*j),
        },
{
    match j {
        Json::Obj(fs) => {
            let id = req_str(fs, "id")?;
            let from_user_id = req_str(fs, "fromUserId")?;
            let to_user_id = req_str(fs, "toUserId")?;
            let from_user_items = decode_trade_item_infos(req_arr(fs, "fromUserItems")?)?;
            let to_user_items = decode_trade_item_infos(req_arr(fs, "toUserItems")?)?;
            let approved_from_user = req_bool(fs, "approvedFromUser")?;
            let approved_to_user = req_bool(fs, "approvedToUser")?;
            let status = req_str(fs, "status")?;
            let created_at = req_str(fs, "createdAt")?;
            let updated_at = req_str(fs, "updatedAt")?;
            Some(
                Trade {
                    id,
                    from_user_id,
                    to_user_id,
                    from_user_items,
                    to_user_items,
                    approved_from_user,
                    approved_to_user,
                    status,
                    created_at,
                    updated_at,
                },
            )
        },
        _ => None,
    }
}

pub open spec fn search_result_ok(j: Json) -> bool {
    &&& j matches Json::Obj(fs)
    &&& arr_at(fs@, "users"@) matches Some(a) && users_ok(a)
    &&& arr_at(fs@, "items"@) matches Some(a) && items_ok(a)
    &&& arr_at(fs@, "games"@) matches Some(a) && games_ok(a)
}

pub open spec fn search_result_of(j: Json, x: SearchResult) -> bool {
    &&& j matches Json::Obj(fs)
    &&& arr_at(fs@, "users"@) matches Some(a) && users_of(a, x.users@)
    &&& arr_at(fs@, "items"@) matches Some(a) && items_of(a, x.items@)
    &&& arr_at(fs@, "games"@) matches Some(a) && games_of(a, x.games@)
}

pub fn decode_search_result(j: &Json) -> (r: Option<SearchResult>)
    ensures
        match r {
            Some(x) => search_result_of(*j, x),
            None => !search_result_ok(*j),
        },
{
    match j {
        Json::Obj(fs) => {
            let users = decode_users(req_arr(fs, "users")?)?;
            let items = decode_items(req_arr(fs, "items")?)?;
            let games = decode_games(req_arr(fs, "games")?)?;
            Some(SearchResult { users, items, games })
        },
        _ => None,
    }
}

pub open spec fn oauth2_app_ok(j: Json) -> bool {
    &&& j matches Json::Obj(fs)
    &&& has_str(fs@, "client_id"@)
    &&& has_str(fs@, "client_secret"@)
    &&& has_str(fs@, "name"@)
    &&& arr_at(fs@, "redirect_urls"@) matches Some(a) && strings_ok(a)
}

pub open spec fn oauth2_app_of(j: Json, x: OAuth2App) -> bool {
    &&& j matches Json::Obj(fs)
    &&& str_at(fs@, "client_id"@, x.client_id)
    &&& str_at(fs@, "client_secret"@, x.client_secret)
    &&& str_at(fs@, "name"@, x.name)
    &&& arr_at(fs@, "redirect_urls"@) matches Some(a) && strings_of(a, x.redirect_urls@)
}

pub fn decode_oauth2_app(j: &Json) -> (r: Option<OAuth2App>)
    ensures
        match r {
            Some(x) => oauth2_app_of(*j, x),
            None => !oauth2_app_ok(*j),
        },
{
    match j {
        Json::Obj(fs) => {
            let client_id = req_str(fs, "client_id")?;
            let client_secret = req_str(fs, "client_secret")?;
            let name = req_str(fs, "name")?;
            let redirect_urls = decode_strings(req_arr(fs, "redirect_urls")?)?;
            Some(OAuth2App { client_id, client_secret, name, redirect_urls })
        },
        _ => None,
    }
}

pub open spec fn studios_ok(a: Seq<Json>) -> bool {
    forall|i: int| 0 <= i < a.len() ==> studio_ok(#[trigger] a[i])
}

pub open spec fn studios_of(a: Seq<Json>, v: Seq<Studio>) -> bool {
    &&& a.len() == v.len()
    &&& forall|i: int| 0 <= i < a.len() ==> studio_of(#[trigger] a[i], v[i])
}

pub fn decode_studios(a: &Vec<Json>) -> (r: Option<Vec<Studio>>)
    ensures
        match r {
            Some(v) => studios_of(a@, v@),
            None => !studios_ok(a@),
        },
{
    let mut out: Vec<Studio> = Vec::new();
    let mut i: usize = 0;
    while i < a.len()
        invariant
            i <= a@.len(),
            out@.len() == i,
            forall|k: int| 0 <= k < i ==> studio_of(#[trigger] a@[k], out@[k]),
        decreases a@.len() - i,
    {
        let x = decode_studio(&a[i])?;
        out.push(x);
        i = i + 1;
    }
    Some(out)
}

pub open spec fn inventory_items_ok(a: Seq<Json>) -> bool {
    forall|i: int| 0 <= i < a.len() ==> inventory_item_ok(#[trigger] a[i])
}

pub open spec fn inventory_items_of(a: Seq<Json>, v: Seq<InventoryItem>) -> bool {
    &&& a.len() == v.len()
    &&& forall|i: int| 0 <= i < a.len() ==> inventory_item_of(#[trigger] a[i], v[i])
}

pub fn decode_inventory_items(a: &Vec<Json>) -> (r: Option<Vec<InventoryItem>>)
    ensures
        match r {
            Some(v) => inventory_items_of(a@, v@),
            None => !inventory_items_ok(a@),
        },
{
    let mut out: Vec<InventoryItem> = Vec::new();
    let mut i: usize = 0;
    while i < a.len()
        invariant
            i <= a@.len(),
            out@.len() == i,
            forall|k: int| 0 <= k < i ==> inventory_item_of(#[trigger] a@[k], out@[k]),
        decreases a@.len() - i,
    {
        let x = decode_inventory_item(&a[i])?;
        out.push(x);
        i = i + 1;
    }
    Some(out)
}

pub open spec fn items_ok(a: Seq<Json>) -> bool {
    forall|i: int| 0 <= i < a.len() ==> item_ok(#[trigger] a[i])
}

pub open spec fn items_of(a: Seq<Json>, v: Seq<Item>) -> bool {
    &&& a.len() == v.len()
    &&& forall|i: int| 0 <= i < a.len() ==> item_of(#[trigger] a[i], v[i])
}

pub fn decode_items(a: &Vec<Json>) -> (r: Option<Vec<Item>>)
    ensures
        match r {
            Some(v) => items_of(a@, v@),
            None => !items_ok(a@),
        },
{
    let mut out: Vec<Item> = Vec::new();
    let mut i: usize = 0;
    while i < a.len()
        invariant
            i <= a@.len(),
            out@.len() == i,
            forall|k: int| 0 <= k < i ==> item_of(#[trigger] a@[k], out@[k]),
        decreases a@.len() - i,
    {
        let x = decode_item(&a[i])?;
        out.push(x);
        i = i + 1;
    }
    Some(out)
}

pub open spec fn games_ok(a: Seq<Json>) -> bool {
    forall|i: int| 0 <= i < a.len() ==> game_ok(#[trigger] a[i])
}

pub open spec fn games_of(a: Seq<Json>, v: Seq<Game>) -> bool {
    &&& a.len() == v.len()
    &&& forall|i: int| 0 <= i < a.len() ==> game_of(#[trigger] a[i], v[i])
}

pub fn decode_games(a: &Vec<Json>) -> (r: Option<Vec<Game>>)
    ensures
        match r {
            Some(v) => games_of(a@, v@),
            None => !games_ok(a@),
        },
{
    let mut out: Vec<Game> = Vec::new();
    let mut i: usize = 0;
    while i < a.len()
        invariant
            i <= a@.len(),
            out@.len() == i,
            forall|k: int| 0 <= k < i ==> game_of(#[trigger] a@[k], out@[k]),
        decreases a@.len() - i,
    {
        let x = decode_game(&a[i])?;
        out.push(x);
        i = i + 1;
    }
    Some(out)
}

pub open spec fn lobby_users_ok(a: Seq<Json>) -> bool {
    forall|i: int| 0 <= i < a.len() ==> lobby_user_ok(#[trigger] a[i])
}

pub open spec fn lobby_users_of(a: Seq<Json>, v: Seq<LobbyUser>) -> bool {
    &&& a.len() == v.len()
    &&& forall|i: int| 0 <= i < a.len() ==> lobby_user_of(#[trigger] a[i], v[i])
}

pub fn decode_lobby_users(a: &Vec<Json>) -> (r: Option<Vec<LobbyUser>>)
    ensures
        match r {
            Some(v) => lobby_users_of(a@, v@),
            None => !lobby_users_ok(a@),
        },
{
    let mut out: Vec<LobbyUser> = Vec::new();
    let mut i: usize = 0;
    while i < a.len()
        invariant
            i <= a@.len(),
            out@.len() == i,
            forall|k: int| 0 <= k < i ==> lobby_user_of(#[trigger] a@[k], out@[k]),
        decreases a@.len() - i,
    {
        let x = decode_lobby_user(&a[i])?;
        out.push(x);
        i = i + 1;
    }
    Some(out)
}

pub open spec fn studio_users_ok(a: Seq<Json>) -> bool {
    forall|i: int| 0 <= i < a.len() ==> studio_user_ok(#[trigger] a[i])
}

pub open spec fn studio_users_of(a: Seq<Json>, v: Seq<StudioUser>) -> bool {
    &&& a.len() == v.len()
    &&& forall|i: int| 0 <= i < a.len() ==> studio_user_of(#[trigger] a[i], v[i])
}

pub fn decode_studio_users(a: &Vec<Json>) -> (r: Option<Vec<StudioUser>>)
    ensures
        match r {
            Some(v) => studio_users_of(a@, v@),
            None => !studio_users_ok(a@),
        },
{
    let mut out: Vec<StudioUser> = Vec::new();
    let mut i: usize = 0;
    while i < a.len()
        invariant
            i <= a@.len(),
            out@.len() == i,
            forall|k: int| 0 <= k < i ==> studio_user_of(#[trigger] a@[k], out@[k]),
        decreases a@.len() - i,
    {
        let x = decode_studio_user(&a[i])?;
        out.push(x);
        i = i + 1;
    }
    Some(out)
}

pub open spec fn trade_item_infos_ok(a: Seq<Json>) -> bool {
    forall|i: int| 0 <= i < a.len() ==> trade_item_info_ok(#[trigger] a[i])
}

pub open spec fn trade_item_infos_of(a: Seq<Json>, v: Seq<TradeItemInfo>) -> bool {
    &&& a.len() == v.len()
    &&& forall|i: int| 0 <= i < a.len() ==> trade_item_info_of(#[trigger] a[i], v[i])
}

pub fn decode_trade_item_infos(a: &Vec<Json>) -> (r: Option<Vec<TradeItemInfo>>)
    ensures
        match r {
            Some(v) => trade_item_infos_of(a@, v@),
            None => !trade_item_infos_ok(a@),
        },
{
    let mut out: Vec<TradeItemInfo> = Vec::new();
    let mut i: usize = 0;
    while i < a.len()
        invariant
            i <= a@.len(),
            out@.len() == i,
            forall|k: int| 0 <= k < i ==> trade_item_info_of(#[trigger] a@[k], out@[k]),
        decreases a@.len() - i,
    {
        let x = decode_trade_item_info(&a[i])?;
        out.push(x);
        i = i + 1;
    }
    Some(out)
}

pub open spec fn users_ok(a: Seq<Json>) -> bool {
    forall|i: int| 0 <= i < a.len() ==> user_ok(#[trigger] a[i])
}

pub open spec fn users_of(a: Seq<Json>, v: Seq<User>) -> bool {
    &&& a.len() == v.len()
    &&& forall|i: int| 0 <= i < a.len() ==> user_of(#[trigger] a[i], v[i])
}

pub fn decode_users(a: &Vec<Json>) -> (r: Option<Vec<User>>)
    ensures
        match r {
            Some(v) => users_of(a@, v@),
            None => !users_ok(a@),
        },
{
    let mut out: Vec<User> = Vec::new();
    let mut i: usize = 0;
    while i < a.len()
        invariant
            i <= a@.len(),
            out@.len() == i,
            forall|k: int| 0 <= k < i ==> user_of(#[trigger] a@[k], out@[k]),
        decreases a@.len() - i,
    {
        let x = decode_user(&a[i])?;
        out.push(x);
        i = i + 1;
    }
    Some(out)
}

pub open spec fn trades_ok(a: Seq<Json>) -> bool {
    forall|i: int| 0 <= i < a.len() ==> trade_ok(#[trigger] a[i])
}

pub open spec fn trades_of(a: Seq<Json>, v: Seq<Trade>) -> bool {
    &&& a.len() == v.len()
    &&& forall|i: int| 0 <= i < a.len() ==> trade_of(#[trigger] a[i], v[i])
}

pub fn decode_trades(a: &Vec<Json>) -> (r: Option<Vec<Trade>>)
    ensures
        match r {
            Some(v) => trades_of(a@, v@),
            None => !trades_ok(a@),
        },
{
    let mut out: Vec<Trade> = Vec::new();
    let mut i: usize = 0;
    while i < a.len()
        invariant
            i <= a@.len(),
            out@.len() == i,
            forall|k: int| 0 <= k < i ==> trade_of(#[trigger] a@[k], out@[k]),
        decreases a@.len() - i,
    {
        let x = decode_trade(&a[i])?;
        out.push(x);
        i = i + 1;
    }
    Some(out)
}

pub open spec fn oauth2_apps_ok(a: Seq<Json>) -> bool {
    forall|i: int| 0 <= i < a.len() ==> oauth2_app_ok(#[trigger] a[i])
}

pub open spec fn oauth2_apps_of(a: Seq<Json>, v: Seq<OAuth2App>) -> bool {
    &&& a.len() == v.len()
    &&& forall|i: int| 0 <= i < a.len() ==> oauth2_app_of(#[trigger] a[i], v[i])
}

pub fn decode_oauth2_apps(a: &Vec<Json>) -> (r: Option<Vec<OAuth2App>>)
    ensures
        match r {
            Some(v) => oauth2_apps_of(a@, v@),
            None => !oauth2_apps_ok(a@),
        },
{
    let mut out: Vec<OAuth2App> = Vec::new();
    let mut i: usize = 0;
    while i < a.len()
        invariant
            i <= a@.len(),
            out@.len() == i,
            forall|k: int| 0 <= k < i ==> oauth2_app_of(#[trigger] a@[k], out@[k]),
        decreases a@.len() - i,
    {
        let x = decode_oauth2_app(&a[i])?;
        out.push(x);
        i = i + 1;
    }
    Some(out)
}

pub open spec fn strings_ok(a: Seq<Json>) -> bool {
    forall|i: int| 0 <= i < a.len() ==> a[i] is Str
}

pub open spec fn strings_of(a: Seq<Json>, v: Seq<String>) -> bool {
    &&& a.len() == v.len()
    &&& forall|i: int| 0 <= i < a.len() ==> a[i] == Json::Str(v[i])
}

pub fn decode_strings(a: &Vec<Json>) -> (r: Option<Vec<String>>)
    ensures
        match r {
            Some(v) => strings_of(a@, v@),
            None => !strings_ok(a@),
        },
{
    let mut out: Vec<String> = Vec::new();
    let mut i: usize = 0;
    while i < a.len()
        invariant
            i <= a@.len(),
            out@.len() == i,
            forall|k: int| 0 <= k < i ==> a@[k] == Json::Str(out@[k]),
        decreases a@.len() - i,
    {
        match &a[i] {
            Json::Str(s) => out.push(s.clone()),
            _ => return None,
        }
        i = i + 1;
    }
    Some(out)
}

pub open spec fn opt_studios_ok(fs: Seq<Field>, k: Seq<char>) -> bool {
    absent(fs, k) || (arr_at(fs, k) matches Some(a) && studios_ok(a))
}

pub open spec fn opt_studios_at(fs: Seq<Field>, k: Seq<char>, v: Option<Vec<Studio>>) -> bool {
    match v {
        None => absent(fs, k),
        Some(v) => arr_at(fs, k) matches Some(a) && studios_of(a, v@),
    }
}

fn opt_studios(fs: &Vec<Field>, k: &str) -> (r: Option<Option<Vec<Studio>>>)
    ensures
        match r {
            Some(v) => opt_studios_at(fs@, k@, v),
            None => !opt_studios_ok(fs@, k@),
        },
{
    let key = String::from_str(k);
    match find(fs, &key) {
        None => Some(None),
        Some(Json::Null) => Some(None),
        Some(Json::Arr(a)) => match decode_studios(a) {
            Some(v) => Some(Some(v)),
            None => None,
        },
        _ => None,
    }
}

pub open spec fn opt_strings_ok(fs: Seq<Field>, k: Seq<char>) -> bool {
    absent(fs, k) || (arr_at(fs, k) matches Some(a) && strings_ok(a))
}

pub open spec fn opt_strings_at(fs: Seq<Field>, k: Seq<char>, v: Option<Vec<String>>) -> bool {
    match v {
        None => absent(fs, k),
        Some(v) => arr_at(fs, k) matches Some(a) && strings_of(a, v@),
    }
}

fn opt_strings(fs: &Vec<Field>, k: &str) -> (r: Option<Option<Vec<String>>>)
    ensures
        match r {
            Some(v) => opt_strings_at(fs@, k@, v),
            None => !opt_strings_ok(fs@, k@),
        },
{
    let key = String::from_str(k);
    match find(fs, &key) {
        None => Some(None),
        Some(Json::Null) => Some(None),
        Some(Json::Arr(a)) => match decode_strings(a) {
            Some(v) => Some(Some(v)),
            None => None,
        },
        _ => None,
    }
}

pub open spec fn opt_inventory_items_ok(fs: Seq<Field>, k: Seq<char>) -> bool {
    absent(fs, k) || (arr_at(fs, k) matches Some(a) && inventory_items_ok(a))
}

pub open spec fn opt_inventory_items_at(fs: Seq<Field>, k: Seq<char>, v: Option<Vec<InventoryItem>>) -> bool {
    match v {
        None => absent(fs, k),
        Some(v) => arr_at(fs, k) matches Some(a) && inventory_items_of(a, v@),
    }
}

fn opt_inventory_items(fs: &Vec<Field>, k: &str) -> (r: Option<Option<Vec<InventoryItem>>>)
    ensures
        match r {
            Some(v) => opt_inventory_items_at(fs@, k@, v),
            None => !opt_inventory_items_ok(fs@, k@),
        },
{
    let key = String::from_str(k);
    match find(fs, &key) {
        None => Some(None),
        Some(Json::Null) => Some(None),
        Some(Json::Arr(a)) => match decode_inventory_items(a) {
            Some(v) => Some(Some(v)),
            None => None,
        },
        _ => None,
    }
}

pub open spec fn opt_items_ok(fs: Seq<Field>, k: Seq<char>) -> bool {
    absent(fs, k) || (arr_at(fs, k) matches Some(a) && items_ok(a))
}

pub open spec fn opt_items_at(fs: Seq<Field>, k: Seq<char>, v: Option<Vec<Item>>) -> bool {
    match v {
        None => absent(fs, k),
        Some(v) => arr_at(fs, k) matches Some(a) && items_of(a, v@),
    }
}

fn opt_items(fs: &Vec<Field>, k: &str) -> (r: Option<Option<Vec<Item>>>)
    ensures
        match r {
            Some(v) => opt_items_at(fs@, k@, v),
            None => !opt_items_ok(fs@, k@),
        },
{
    let key = String::from_str(k);
    match find(fs, &key) {
        None => Some(None),
        Some(Json::Null) => Some(None),
        Some(Json::Arr(a)) => match decode_items(a) {
            Some(v) => Some(Some(v)),
            None => None,
        },
        _ => None,
    }
}

pub open spec fn opt_games_ok(fs: Seq<Field>, k: Seq<char>) -> bool {
    absent(fs, k) || (arr_at(fs, k) matches Some(a) && games_ok(a))
}

pub open spec fn opt_games_at(fs: Seq<Field>, k: Seq<char>, v: Option<Vec<Game>>) -> bool {
    match v {
        None => absent(fs, k),
        Some(v) => arr_at(fs, k) matches Some(a) && games_of(a, v@),
    }
}

fn opt_games(fs: &Vec<Field>, k: &str) -> (r: Option<Option<Vec<Game>>>)
    ensures
        match r {
            Some(v) => opt_games_at(fs@, k@, v),
            None => !opt_games_ok(fs@, k@),
        },
{
    let key = String::from_str(k);
    match find(fs, &key) {
        None => Some(None),
        Some(Json::Null) => Some(None),
        Some(Json::Arr(a)) => match decode_games(a) {
            Some(v) => Some(Some(v)),
            None => None,
        },
        _ => None,
    }
}

pub open spec fn opt_studio_users_ok(fs: Seq<Field>, k: Seq<char>) -> bool {
    absent(fs, k) || (arr_at(fs, k) matches Some(a) && studio_users_ok(a))
}

pub open spec fn opt_studio_users_at(fs: Seq<Field>, k: Seq<char>, v: Option<Vec<StudioUser>>) -> bool {
    match v {
        None => absent(fs, k),
        Some(v) => arr_at(fs, k) matches Some(a) && studio_users_of(a, v@),
    }
}

fn opt_studio_users(fs: &Vec<Field>, k: &str) -> (r: Option<Option<Vec<StudioUser>>>)
    ensures
        match r {
            Some(v) => opt_studio_users_at(fs@, k@, v),
            None => !opt_studio_users_ok(fs@, k@),
        },
{
    let key = String::from_str(k);
    match find(fs, &key) {
        None => Some(None),
        Some(Json::Null) => Some(None),
        Some(Json::Arr(a)) => match decode_studio_users(a) {
            Some(v) => Some(Some(v)),
            None => None,
        },
        _ => None,
    }
}

} // verus!
