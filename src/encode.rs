//! Encoding: from the typed records to the JSON that the service reads.
//!
//! `x_json(j, x)` says that `j` is exactly the encoding of `x`: an object
//! with the record's members in a fixed order, `null` for an absent optional
//! member. Re-encoding a decoded record gives JSON that decodes to the same
//! record (`round_trip_x`).
use vstd::prelude::*;
use vstd::string::StringExecFns;
use crate::decode::{
    game_of, games_of, inventory_item_of, inventory_items_of, item_of, items_of, lobby_of,
    lobby_user_of, lobby_users_of, oauth2_app_of, search_result_of, strings_of, studio_of,
    studio_user_of, studio_users_of, studios_of, trade_item_info_of, trade_item_infos_of,
    trade_item_of, trade_of, user_of, users_of,
};
use crate::json::{copy_fields, lemma_lookup_distinct, lookup, same_json, Field, Json, Number};
use crate::model::{
    Game, InventoryItem, Item, Lobby, LobbyUser, OAuth2App, SearchResult, Studio, StudioUser, Trade,
    TradeItem, TradeItemInfo, User,
};

verus! {

pub open spec fn opt_str_json(v: Json, o: Option<String>) -> bool {
    match o {
        None => v == Json::Null,
        Some(s) => v == Json::Str(s),
    }
}

pub open spec fn opt_bool_json(v: Json, o: Option<bool>) -> bool {
    match o {
        None => v == Json::Null,
        Some(b) => v == Json::Bool(b),
    }
}

pub open spec fn opt_num_json(v: Json, o: Option<Number>) -> bool {
    match o {
        None => v == Json::Null,
        Some(n) => v == Json::Num(n),
    }
}

pub open spec fn opt_obj_json(v: Json, o: Option<Vec<Field>>) -> bool {
    match o {
        None => v == Json::Null,
        Some(m) => same_json(v, Json::Obj(m)),
    }
}

fn opt_obj_value(o: &Option<Vec<Field>>) -> (r: Json)
    ensures
        opt_obj_json(r, *o),
{
    match o {
        None => Json::Null,
        Some(m) => Json::Obj(copy_fields(m)),
    }
}

fn opt_str_value(o: &Option<String>) -> (r: Json)
    ensures
        opt_str_json(r, *o),
{
    match o {
        None => Json::Null,
        Some(s) => Json::Str(s.clone()),
    }
}

fn opt_bool_value(o: &Option<bool>) -> (r: Json)
    ensures
        opt_bool_json(r, *o),
{
    match o {
        None => Json::Null,
        Some(b) => Json::Bool(*b),
    }
}

fn opt_num_value(o: &Option<Number>) -> (r: Json)
    ensures
        opt_num_json(r, *o),
{
    match o {
        None => Json::Null,
        Some(n) => Json::Num(n.copy()),
    }
}

pub(crate) fn member(k: &str, value: Json) -> (r: Field)
    ensures
        r.key@ == k@,
        r.value == value,
{
    Field { key: String::from_str(k), value }
}

pub open spec fn game_json(j: Json, x: Game) -> bool {
    &&& j matches Json::Obj(fs)
    &&& fs@.len() == 19
    &&& fs@[0].key@ == "gameId"@ && fs@[0].value == Json::Str(x.game_id)
    &&& fs@[1].key@ == "name"@ && fs@[1].value == Json::Str(x.name)
    &&& fs@[2].key@ == "description"@ && fs@[2].value == Json::Str(x.description)
    &&& fs@[3].key@ == "owner_id"@ && fs@[3].value == Json::Str(x.owner_id)
    &&& fs@[4].key@ == "download_link"@ && opt_str_json(fs@[4].value, x.download_link)
    &&& fs@[5].key@ == "price"@ && fs@[5].value == Json::Num(x.price)
    &&& fs@[6].key@ == "showInStore"@ && fs@[6].value == Json::Bool(x.show_in_store)
    &&& fs@[7].key@ == "iconHash"@ && opt_str_json(fs@[7].value, x.icon_hash)
    &&& fs@[8].key@ == "splashHash"@ && opt_str_json(fs@[8].value, x.splash_hash)
    &&& fs@[9].key@ == "bannerHash"@ && opt_str_json(fs@[9].value, x.banner_hash)
    &&& fs@[10].key@ == "genre"@ && opt_str_json(fs@[10].value, x.genre)
    &&& fs@[11].key@ == "release_date"@ && opt_str_json(fs@[11].value, x.release_date)
    &&& fs@[12].key@ == "developer"@ && opt_str_json(fs@[12].value, x.developer)
    &&& fs@[13].key@ == "publisher"@ && opt_str_json(fs@[13].value, x.publisher)
    &&& fs@[14].key@ == "platforms"@ && opt_str_json(fs@[14].value, x.platforms)
    &&& fs@[15].key@ == "rating"@ && fs@[15].value == Json::Num(x.rating)
    &&& fs@[16].key@ == "website"@ && opt_str_json(fs@[16].value, x.website)
    &&& fs@[17].key@ == "trailer_link"@ && opt_str_json(fs@[17].value, x.trailer_link)
    &&& fs@[18].key@ == "multiplayer"@ && fs@[18].value == Json::Bool(x.multiplayer)
}

pub fn encode_game(x: &Game) -> (r: Json)
    ensures
        game_json(r, *x),
{
    let mut fs: Vec<Field> = Vec::new();
    fs.push(member("gameId", Json::Str(x.game_id.clone())));
    fs.push(member("name", Json::Str(x.name.clone())));
    fs.push(member("description", Json::Str(x.description.clone())));
    fs.push(member("owner_id", Json::Str(x.owner_id.clone())));
    fs.push(member("download_link", opt_str_value(&x.download_link)));
    fs.push(member("price", Json::Num(x.price.copy())));
    fs.push(member("showInStore", Json::Bool(x.show_in_store)));
    fs.push(member("iconHash", opt_str_value(&x.icon_hash)));
    fs.push(member("splashHash", opt_str_value(&x.splash_hash)));
    fs.push(member("bannerHash", opt_str_value(&x.banner_hash)));
    fs.push(member("genre", opt_str_value(&x.genre)));
    fs.push(member("release_date", opt_str_value(&x.release_date)));
    fs.push(member("developer", opt_str_value(&x.developer)));
    fs.push(member("publisher", opt_str_value(&x.publisher)));
    fs.push(member("platforms", opt_str_value(&x.platforms)));
    fs.push(member("rating", Json::Num(x.rating.copy())));
    fs.push(member("website", opt_str_value(&x.website)));
    fs.push(member("trailer_link", opt_str_value(&x.trailer_link)));
    fs.push(member("multiplayer", Json::Bool(x.multiplayer)));
    Json::Obj(fs)
}

/// Re-encoding a decoded `Game` gives JSON that decodes to the same record:
/// every required member keeps its value, and the optional ones that were
/// missing come back as `null`, which decodes as missing.
pub proof fn round_trip_game(j: Json, x: Game, k: Json)
    requires
        game_of(j, x),
        game_json(k, x),
    ensures
        game_of(k, x),
        lookup(k->Obj_0@, "gameId"@) == lookup(j->Obj_0@, "gameId"@),
        lookup(k->Obj_0@, "name"@) == lookup(j->Obj_0@, "name"@),
        lookup(k->Obj_0@, "description"@) == lookup(j->Obj_0@, "description"@),
        lookup(k->Obj_0@, "owner_id"@) == lookup(j->Obj_0@, "owner_id"@),
        lookup(k->Obj_0@, "price"@) == lookup(j->Obj_0@, "price"@),
        lookup(k->Obj_0@, "showInStore"@) == lookup(j->Obj_0@, "showInStore"@),
        lookup(k->Obj_0@, "rating"@) == lookup(j->Obj_0@, "rating"@),
        lookup(k->Obj_0@, "multiplayer"@) == lookup(j->Obj_0@, "multiplayer"@),
{
    lemma_game_json_decodes(k, x);
}

proof fn lemma_game_json_decodes(k: Json, x: Game)
    requires
        game_json(k, x),
    ensures
        game_of(k, x),
{
    reveal_strlit("gameId");
    reveal_strlit("name");
    reveal_strlit("description");
    reveal_strlit("owner_id");
    reveal_strlit("download_link");
    reveal_strlit("price");
    reveal_strlit("showInStore");
    reveal_strlit("iconHash");
    reveal_strlit("splashHash");
    reveal_strlit("bannerHash");
    reveal_strlit("genre");
    reveal_strlit("release_date");
    reveal_strlit("developer");
    reveal_strlit("publisher");
    reveal_strlit("platforms");
    reveal_strlit("rating");
    reveal_strlit("website");
    reveal_strlit("trailer_link");
    reveal_strlit("multiplayer");
    assert("gameId"@.len() == 6);
    assert("name"@.len() == 4);
    assert("description"@.len() == 11);
    assert("owner_id"@.len() == 8);
    assert("download_link"@.len() == 13);
    assert("price"@.len() == 5);
    assert("showInStore"@.len() == 11);
    assert("iconHash"@.len() == 8);
    assert("splashHash"@.len() == 10);
    assert("bannerHash"@.len() == 10);
    assert("genre"@.len() == 5);
    assert("release_date"@.len() == 12);
    assert("developer"@.len() == 9);
    assert("publisher"@.len() == 9);
    assert("platforms"@.len() == 9);
    assert("rating"@.len() == 6);
    assert("website"@.len() == 7);
    assert("trailer_link"@.len() == 12);
    assert("multiplayer"@.len() == 11);
    assert("bannerHash"@[0] == 'b');
    assert("description"@[0] == 'd');
    assert("developer"@[0] == 'd');
    assert("gameId"@[0] == 'g');
    assert("genre"@[0] == 'g');
    assert("iconHash"@[0] == 'i');
    assert("multiplayer"@[0] == 'm');
    assert("owner_id"@[0] == 'o');
    assert("platforms"@[0] == 'p');
    assert("platforms"@[1] == 'l');
    assert("price"@[0] == 'p');
    assert("publisher"@[0] == 'p');
    assert("publisher"@[1] == 'u');
    assert("rating"@[0] == 'r');
    assert("release_date"@[0] == 'r');
    assert("showInStore"@[0] == 's');
    assert("splashHash"@[0] == 's');
    assert("trailer_link"@[0] == 't');
    let fs = k->Obj_0@;
    lemma_lookup_distinct(fs, 0);
    lemma_lookup_distinct(fs, 1);
    lemma_lookup_distinct(fs, 2);
    lemma_lookup_distinct(fs, 3);
    lemma_lookup_distinct(fs, 4);
    lemma_lookup_distinct(fs, 5);
    lemma_lookup_distinct(fs, 6);
    lemma_lookup_distinct(fs, 7);
    lemma_lookup_distinct(fs, 8);
    lemma_lookup_distinct(fs, 9);
    lemma_lookup_distinct(fs, 10);
    lemma_lookup_distinct(fs, 11);
    lemma_lookup_distinct(fs, 12);
    lemma_lookup_distinct(fs, 13);
    lemma_lookup_distinct(fs, 14);
    lemma_lookup_distinct(fs, 15);
    lemma_lookup_distinct(fs, 16);
    lemma_lookup_distinct(fs, 17);
    lemma_lookup_distinct(fs, 18);
}

pub open spec fn user_json(j: Json, x: User) -> bool {
    &&& j matches Json::Obj(fs)
    &&& fs@.len() == 20
    &&& fs@[0].key@ == "userId"@ && fs@[0].value == Json::Str(x.user_id)
    &&& fs@[1].key@ == "username"@ && fs@[1].value == Json::Str(x.username)
    &&& fs@[2].key@ == "email"@ && opt_str_json(fs@[2].value, x.email)
    &&& fs@[3].key@ == "balance"@ && opt_num_json(fs@[3].value, x.balance)
    &&& fs@[4].key@ == "verified"@ && fs@[4].value == Json::Bool(x.verified)
    &&& fs@[5].key@ == "steam_id"@ && opt_str_json(fs@[5].value, x.steam_id)
    &&& fs@[6].key@ == "steam_username"@ && opt_str_json(fs@[6].value, x.steam_username)
    &&& fs@[7].key@ == "steam_avatar_url"@ && opt_str_json(fs@[7].value, x.steam_avatar_url)
    &&& fs@[8].key@ == "isStudio"@ && fs@[8].value == Json::Bool(x.is_studio)
    &&& fs@[9].key@ == "admin"@ && fs@[9].value == Json::Bool(x.admin)
    &&& fs@[10].key@ == "disabled"@ && opt_bool_json(fs@[10].value, x.disabled)
    &&& fs@[11].key@ == "google_id"@ && opt_str_json(fs@[11].value, x.google_id)
    &&& fs@[12].key@ == "discord_id"@ && opt_str_json(fs@[12].value, x.discord_id)
    &&& fs@[13].key@ == "studios"@ && opt_studios_json(fs@[13].value, x.studios)
    &&& fs@[14].key@ == "roles"@ && opt_strings_json(fs@[14].value, x.roles)
    &&& fs@[15].key@ == "inventory"@ && opt_inventory_items_json(fs@[15].value, x.inventory)
    &&& fs@[16].key@ == "ownedItems"@ && opt_items_json(fs@[16].value, x.owned_items)
    &&& fs@[17].key@ == "createdGames"@ && opt_games_json(fs@[17].value, x.created_games)
    &&& fs@[18].key@ == "haveAuthenticator"@ && opt_bool_json(fs@[18].value, x.have_authenticator)
    &&& fs@[19].key@ == "verificationKey"@ && opt_str_json(fs@[19].value, x.verification_key)
}

pub fn encode_user(x: &User) -> (r: Json)
    ensures
        user_json(r, *x),
{
    let mut fs: Vec<Field> = Vec::new();
    fs.push(member("userId", Json::Str(x.user_id.clone())));
    fs.push(member("username", Json::Str(x.username.clone())));
    fs.push(member("email", opt_str_value(&x.email)));
    fs.push(member("balance", opt_num_value(&x.balance)));
    fs.push(member("verified", Json::Bool(x.verified)));
    fs.push(member("steam_id", opt_str_value(&x.steam_id)));
    fs.push(member("steam_username", opt_str_value(&x.steam_username)));
    fs.push(member("steam_avatar_url", opt_str_value(&x.steam_avatar_url)));
    fs.push(member("isStudio", Json::Bool(x.is_studio)));
    fs.push(member("admin", Json::Bool(x.admin)));
    fs.push(member("disabled", opt_bool_value(&x.disabled)));
    fs.push(member("google_id", opt_str_value(&x.google_id)));
    fs.push(member("discord_id", opt_str_value(&x.discord_id)));
    fs.push(member("studios", opt_studios_value(&x.studios)));
    fs.push(member("roles", opt_strings_value(&x.roles)));
    fs.push(member("inventory", opt_inventory_items_value(&x.inventory)));
    fs.push(member("ownedItems", opt_items_value(&x.owned_items)));
    fs.push(member("createdGames", opt_games_value(&x.created_games)));
    fs.push(member("haveAuthenticator", opt_bool_value(&x.have_authenticator)));
    fs.push(member("verificationKey", opt_str_value(&x.verification_key)));
    Json::Obj(fs)
}

/// Re-encoding a decoded `User` gives JSON that decodes to the same record:
/// every required member keeps its value, and the optional ones that were
/// missing come back as `null`, which decodes as missing.
pub proof fn round_trip_user(j: Json, x: User, k: Json)
    requires
        user_of(j, x),
        user_json(k, x),
    ensures
        user_of(k, x),
        lookup(k->Obj_0@, "userId"@) == lookup(j->Obj_0@, "userId"@),
        lookup(k->Obj_0@, "username"@) == lookup(j->Obj_0@, "username"@),
        lookup(k->Obj_0@, "verified"@) == lookup(j->Obj_0@, "verified"@),
        lookup(k->Obj_0@, "isStudio"@) == lookup(j->Obj_0@, "isStudio"@),
        lookup(k->Obj_0@, "admin"@) == lookup(j->Obj_0@, "admin"@),
{
    lemma_user_json_decodes(k, x);
}

proof fn lemma_user_json_decodes(k: Json, x: User)
    requires
        user_json(k, x),
    ensures
        user_of(k, x),
{
    reveal_strlit("userId");
    reveal_strlit("username");
    reveal_strlit("email");
    reveal_strlit("balance");
    reveal_strlit("verified");
    reveal_strlit("steam_id");
    reveal_strlit("steam_username");
    reveal_strlit("steam_avatar_url");
    reveal_strlit("isStudio");
    reveal_strlit("admin");
    reveal_strlit("disabled");
    reveal_strlit("google_id");
    reveal_strlit("discord_id");
    reveal_strlit("studios");
    reveal_strlit("roles");
    reveal_strlit("inventory");
    reveal_strlit("ownedItems");
    reveal_strlit("createdGames");
    reveal_strlit("haveAuthenticator");
    reveal_strlit("verificationKey");
    assert("userId"@.len() == 6);
    assert("username"@.len() == 8);
    assert("email"@.len() == 5);
    assert("balance"@.len() == 7);
    assert("verified"@.len() == 8);
    assert("steam_id"@.len() == 8);
    assert("steam_username"@.len() == 14);
    assert("steam_avatar_url"@.len() == 16);
    assert("isStudio"@.len() == 8);
    assert("admin"@.len() == 5);
    assert("disabled"@.len() == 8);
    assert("google_id"@.len() == 9);
    assert("discord_id"@.len() == 10);
    assert("studios"@.len() == 7);
    assert("roles"@.len() == 5);
    assert("inventory"@.len() == 9);
    assert("ownedItems"@.len() == 10);
    assert("createdGames"@.len() == 12);
    assert("haveAuthenticator"@.len() == 17);
    assert("verificationKey"@.len() == 15);
    assert("admin"@[0] == 'a');
    assert("balance"@[0] == 'b');
    assert("disabled"@[0] == 'd');
    assert("discord_id"@[0] == 'd');
    assert("email"@[0] == 'e');
    assert("google_id"@[0] == 'g');
    assert("inventory"@[0] == 'i');
    assert("isStudio"@[0] == 'i');
    assert("ownedItems"@[0] == 'o');
    assert("roles"@[0] == 'r');
    assert("steam_id"@[0] == 's');
    assert("studios"@[0] == 's');
    assert("username"@[0] == 'u');
    assert("verified"@[0] == 'v');
    let fs = k->Obj_0@;
    lemma_lookup_distinct(fs, 0);
    lemma_lookup_distinct(fs, 1);
    lemma_lookup_distinct(fs, 2);
    lemma_lookup_distinct(fs, 3);
    lemma_lookup_distinct(fs, 4);
    lemma_lookup_distinct(fs, 5);
    lemma_lookup_distinct(fs, 6);
    lemma_lookup_distinct(fs, 7);
    lemma_lookup_distinct(fs, 8);
    lemma_lookup_distinct(fs, 9);
    lemma_lookup_distinct(fs, 10);
    lemma_lookup_distinct(fs, 11);
    lemma_lookup_distinct(fs, 12);
    lemma_lookup_distinct(fs, 13);
    if x.studios is Some {
        lemma_studios_json_decode(fs[13].value->Arr_0@, x.studios->Some_0@);
    }
    lemma_lookup_distinct(fs, 14);
    if x.roles is Some {
        lemma_strings_json_decode(fs[14].value->Arr_0@, x.roles->Some_0@);
    }
    lemma_lookup_distinct(fs, 15);
    if x.inventory is Some {
        lemma_inventory_items_json_decode(fs[15].value->Arr_0@, x.inventory->Some_0@);
    }
    lemma_lookup_distinct(fs, 16);
    if x.owned_items is Some {
        lemma_items_json_decode(fs[16].value->Arr_0@, x.owned_items->Some_0@);
    }
    lemma_lookup_distinct(fs, 17);
    if x.created_games is Some {
        lemma_games_json_decode(fs[17].value->Arr_0@, x.created_games->Some_0@);
    }
    lemma_lookup_distinct(fs, 18);
    lemma_lookup_distinct(fs, 19);
}

pub open spec fn item_json(j: Json, x: Item) -> bool {
    &&& j matches Json::Obj(fs)
    &&& fs@.len() == 8
    &&& fs@[0].key@ == "itemId"@ && fs@[0].value == Json::Str(x.item_id)
    &&& fs@[1].key@ == "name"@ && fs@[1].value == Json::Str(x.name)
    &&& fs@[2].key@ == "description"@ && fs@[2].value == Json::Str(x.description)
    &&& fs@[3].key@ == "price"@ && fs@[3].value == Json::Num(x.price)
    &&& fs@[4].key@ == "owner"@ && fs@[4].value == Json::Str(x.owner)
    &&& fs@[5].key@ == "showInStore"@ && fs@[5].value == Json::Bool(x.show_in_store)
    &&& fs@[6].key@ == "iconHash"@ && fs@[6].value == Json::Str(x.icon_hash)
    &&& fs@[7].key@ == "deleted"@ && fs@[7].value == Json::Bool(x.deleted)
}

pub fn encode_item(x: &Item) -> (r: Json)
    ensures
        item_json(r, *x),
{
    let mut fs: Vec<Field> = Vec::new();
    fs.push(member("itemId", Json::Str(x.item_id.clone())));
    fs.push(member("name", Json::Str(x.name.clone())));
    fs.push(member("description", Json::Str(x.description.clone())));
    fs.push(member("price", Json::Num(x.price.copy())));
    fs.push(member("owner", Json::Str(x.owner.clone())));
    fs.push(member("showInStore", Json::Bool(x.show_in_store)));
    fs.push(member("iconHash", Json::Str(x.icon_hash.clone())));
    fs.push(member("deleted", Json::Bool(x.deleted)));
    Json::Obj(fs)
}

/// Re-encoding a decoded `Item` gives JSON that decodes to the same record:
/// every required member keeps its value, and the optional ones that were
/// missing come back as `null`, which decodes as missing.
pub proof fn round_trip_item(j: Json, x: Item, k: Json)
    requires
        item_of(j, x),
        item_json(k, x),
    ensures
        item_of(k, x),
        lookup(k->Obj_0@, "itemId"@) == lookup(j->Obj_0@, "itemId"@),
        lookup(k->Obj_0@, "name"@) == lookup(j->Obj_0@, "name"@),
        lookup(k->Obj_0@, "description"@) == lookup(j->Obj_0@, "description"@),
        lookup(k->Obj_0@, "price"@) == lookup(j->Obj_0@, "price"@),
        lookup(k->Obj_0@, "owner"@) == lookup(j->Obj_0@, "owner"@),
        lookup(k->Obj_0@, "showInStore"@) == lookup(j->Obj_0@, "showInStore"@),
        lookup(k->Obj_0@, "iconHash"@) == lookup(j->Obj_0@, "iconHash"@),
        lookup(k->Obj_0@, "deleted"@) == lookup(j->Obj_0@, "deleted"@),
{
    lemma_item_json_decodes(k, x);
}

proof fn lemma_item_json_decodes(k: Json, x: Item)
    requires
        item_json(k, x),
    ensures
        item_of(k, x),
{
    reveal_strlit("itemId");
    reveal_strlit("name");
    reveal_strlit("description");
    reveal_strlit("price");
    reveal_strlit("owner");
    reveal_strlit("showInStore");
    reveal_strlit("iconHash");
    reveal_strlit("deleted");
    assert("itemId"@.len() == 6);
    assert("name"@.len() == 4);
    assert("description"@.len() == 11);
    assert("price"@.len() == 5);
    assert("owner"@.len() == 5);
    assert("showInStore"@.len() == 11);
    assert("iconHash"@.len() == 8);
    assert("deleted"@.len() == 7);
    assert("description"@[0] == 'd');
    assert("owner"@[0] == 'o');
    assert("price"@[0] == 'p');
    assert("showInStore"@[0] == 's');
    let fs = k->Obj_0@;
    lemma_lookup_distinct(fs, 0);
    lemma_lookup_distinct(fs, 1);
    lemma_lookup_distinct(fs, 2);
    lemma_lookup_distinct(fs, 3);
    lemma_lookup_distinct(fs, 4);
    lemma_lookup_distinct(fs, 5);
    lemma_lookup_distinct(fs, 6);
    lemma_lookup_distinct(fs, 7);
}

pub open spec fn inventory_item_json(j: Json, x: InventoryItem) -> bool {
    &&& j matches Json::Obj(fs)
    &&& fs@.len() == 6
    &&& fs@[0].key@ == "itemId"@ && fs@[0].value == Json::Str(x.item_id)
    &&& fs@[1].key@ == "name"@ && fs@[1].value == Json::Str(x.name)
    &&& fs@[2].key@ == "description"@ && fs@[2].value == Json::Str(x.description)
    &&& fs@[3].key@ == "amount"@ && fs@[3].value == Json::Num(Number::Int(x.amount as i64))
    &&& fs@[4].key@ == "iconHash"@ && opt_str_json(fs@[4].value, x.icon_hash)
    &&& fs@[5].key@ == "metadata"@ && opt_obj_json(fs@[5].value, x.metadata)
}

pub fn encode_inventory_item(x: &InventoryItem) -> (r: Json)
    ensures
        inventory_item_json(r, *x),
{
    let mut fs: Vec<Field> = Vec::new();
    fs.push(member("itemId", Json::Str(x.item_id.clone())));
    fs.push(member("name", Json::Str(x.name.clone())));
    fs.push(member("description", Json::Str(x.description.clone())));
    fs.push(member("amount", Json::Num(Number::Int(x.amount as i64))));
    fs.push(member("iconHash", opt_str_value(&x.icon_hash)));
    fs.push(member("metadata", opt_obj_value(&x.metadata)));
    Json::Obj(fs)
}

/// Re-encoding a decoded `InventoryItem` gives JSON that decodes to the same record:
/// every required member keeps its value, and the optional ones that were
/// missing come back as `null`, which decodes as missing.
pub proof fn round_trip_inventory_item(j: Json, x: InventoryItem, k: Json)
    requires
        inventory_item_of(j, x),
        inventory_item_json(k, x),
    ensures
        inventory_item_of(k, x),
        lookup(k->Obj_0@, "itemId"@) == lookup(j->Obj_0@, "itemId"@),
        lookup(k->Obj_0@, "name"@) == lookup(j->Obj_0@, "name"@),
        lookup(k->Obj_0@, "description"@) == lookup(j->Obj_0@, "description"@),
        lookup(k->Obj_0@, "amount"@) == lookup(j->Obj_0@, "amount"@),
{
    lemma_inventory_item_json_decodes(k, x);
}

proof fn lemma_inventory_item_json_decodes(k: Json, x: InventoryItem)
    requires
        inventory_item_json(k, x),
    ensures
        inventory_item_of(k, x),
{
    reveal_strlit("itemId");
    reveal_strlit("name");
    reveal_strlit("description");
    reveal_strlit("amount");
    reveal_strlit("iconHash");
    reveal_strlit("metadata");
    assert("itemId"@.len() == 6);
    assert("name"@.len() == 4);
    assert("description"@.len() == 11);
    assert("amount"@.len() == 6);
    assert("iconHash"@.len() == 8);
    assert("metadata"@.len() == 8);
    assert("amount"@[0] == 'a');
    assert("iconHash"@[0] == 'i');
    assert("itemId"@[0] == 'i');
    assert("metadata"@[0] == 'm');
    let fs = k->Obj_0@;
    lemma_lookup_distinct(fs, 0);
    lemma_lookup_distinct(fs, 1);
    lemma_lookup_distinct(fs, 2);
    lemma_lookup_distinct(fs, 3);
    lemma_lookup_distinct(fs, 4);
    lemma_lookup_distinct(fs, 5);
}

pub open spec fn lobby_user_json(j: Json, x: LobbyUser) -> bool {
    &&& j matches Json::Obj(fs)
    &&& fs@.len() == 6
    &&& fs@[0].key@ == "username"@ && fs@[0].value == Json::Str(x.username)
    &&& fs@[1].key@ == "user_id"@ && fs@[1].value == Json::Str(x.user_id)
    &&& fs@[2].key@ == "verified"@ && fs@[2].value == Json::Bool(x.verified)
    &&& fs@[3].key@ == "steam_username"@ && opt_str_json(fs@[3].value, x.steam_username)
    &&& fs@[4].key@ == "steam_avatar_url"@ && opt_str_json(fs@[4].value, x.steam_avatar_url)
    &&& fs@[5].key@ == "steam_id"@ && opt_str_json(fs@[5].value, x.steam_id)
}

pub fn encode_lobby_user(x: &LobbyUser) -> (r: Json)
    ensures
        lobby_user_json(r, *x),
{
    let mut fs: Vec<Field> = Vec::new();
    fs.push(member("username", Json::Str(x.username.clone())));
    fs.push(member("user_id", Json::Str(x.user_id.clone())));
    fs.push(member("verified", Json::Bool(x.verified)));
    fs.push(member("steam_username", opt_str_value(&x.steam_username)));
    fs.push(member("steam_avatar_url", opt_str_value(&x.steam_avatar_url)));
    fs.push(member("steam_id", opt_str_value(&x.steam_id)));
    Json::Obj(fs)
}

/// Re-encoding a decoded `LobbyUser` gives JSON that decodes to the same record:
/// every required member keeps its value, and the optional ones that were
/// missing come back as `null`, which decodes as missing.
pub proof fn round_trip_lobby_user(j: Json, x: LobbyUser, k: Json)
    requires
        lobby_user_of(j, x),
        lobby_user_json(k, x),
    ensures
        lobby_user_of(k, x),
        lookup(k->Obj_0@, "username"@) == lookup(j->Obj_0@, "username"@),
        lookup(k->Obj_0@, "user_id"@) == lookup(j->Obj_0@, "user_id"@),
        lookup(k->Obj_0@, "verified"@) == lookup(j->Obj_0@, "verified"@),
{
    lemma_lobby_user_json_decodes(k, x);
}

proof fn lemma_lobby_user_json_decodes(k: Json, x: LobbyUser)
    requires
        lobby_user_json(k, x),
    ensures
        lobby_user_of(k, x),
{
    reveal_strlit("username");
    reveal_strlit("user_id");
    reveal_strlit("verified");
    reveal_strlit("steam_username");
    reveal_strlit("steam_avatar_url");
    reveal_strlit("steam_id");
    assert("username"@.len() == 8);
    assert("user_id"@.len() == 7);
    assert("verified"@.len() == 8);
    assert("steam_username"@.len() == 14);
    assert("steam_avatar_url"@.len() == 16);
    assert("steam_id"@.len() == 8);
    assert("steam_id"@[0] == 's');
    assert("username"@[0] == 'u');
    assert("verified"@[0] == 'v');
    let fs = k->Obj_0@;
    lemma_lookup_distinct(fs, 0);
    lemma_lookup_distinct(fs, 1);
    lemma_lookup_distinct(fs, 2);
    lemma_lookup_distinct(fs, 3);
    lemma_lookup_distinct(fs, 4);
    lemma_lookup_distinct(fs, 5);
}

pub open spec fn lobby_json(j: Json, x: Lobby) -> bool {
    &&& j matches Json::Obj(fs)
    &&& fs@.len() == 2
    &&& fs@[0].key@ == "lobbyId"@ && fs@[0].value == Json::Str(x.lobby_id)
    &&& fs@[1].key@ == "users"@
    &&& (fs@[1].value matches Json::Arr(a) && lobby_users_json(a@, x.users@))
}

pub fn encode_lobby(x: &Lobby) -> (r: Json)
    ensures
        lobby_json(r, *x),
{
    let mut fs: Vec<Field> = Vec::new();
    fs.push(member("lobbyId", Json::Str(x.lobby_id.clone())));
    fs.push(member("users", Json::Arr(encode_lobby_users(&x.users))));
    Json::Obj(fs)
}

/// Re-encoding a decoded `Lobby` gives JSON that decodes to the same record:
/// every required member keeps its value, and the optional ones that were
/// missing come back as `null`, which decodes as missing.
pub proof fn round_trip_lobby(j: Json, x: Lobby, k: Json)
    requires
        lobby_of(j, x),
        lobby_json(k, x),
    ensures
        lobby_of(k, x),
        lookup(k->Obj_0@, "lobbyId"@) == lookup(j->Obj_0@, "lobbyId"@),
{
    lemma_lobby_json_decodes(k, x);
}

proof fn lemma_lobby_json_decodes(k: Json, x: Lobby)
    requires
        lobby_json(k, x),
    ensures
        lobby_of(k, x),
{
    reveal_strlit("lobbyId");
    reveal_strlit("users");
    assert("lobbyId"@.len() == 7);
    assert("users"@.len() == 5);
    let fs = k->Obj_0@;
    lemma_lookup_distinct(fs, 0);
    lemma_lookup_distinct(fs, 1);
    lemma_lobby_users_json_decode(fs[1].value->Arr_0@, x.users@);
}

pub open spec fn studio_user_json(j: Json, x: StudioUser) -> bool {
    &&& j matches Json::Obj(fs)
    &&& fs@.len() == 4
    &&& fs@[0].key@ == "user_id"@ && fs@[0].value == Json::Str(x.user_id)
    &&& fs@[1].key@ == "username"@ && fs@[1].value == Json::Str(x.username)
    &&& fs@[2].key@ == "verified"@ && fs@[2].value == Json::Bool(x.verified)
    &&& fs@[3].key@ == "admin"@ && fs@[3].value == Json::Bool(x.admin)
}

pub fn encode_studio_user(x: &StudioUser) -> (r: Json)
    ensures
        studio_user_json(r, *x),
{
    let mut fs: Vec<Field> = Vec::new();
    fs.push(member("user_id", Json::Str(x.user_id.clone())));
    fs.push(member("username", Json::Str(x.username.clone())));
    fs.push(member("verified", Json::Bool(x.verified)));
    fs.push(member("admin", Json::Bool(x.admin)));
    Json::Obj(fs)
}

/// Re-encoding a decoded `StudioUser` gives JSON that decodes to the same record:
/// every required member keeps its value, and the optional ones that were
/// missing come back as `null`, which decodes as missing.
pub proof fn round_trip_studio_user(j: Json, x: StudioUser, k: Json)
    requires
        studio_user_of(j, x),
        studio_user_json(k, x),
    ensures
        studio_user_of(k, x),
        lookup(k->Obj_0@, "user_id"@) == lookup(j->Obj_0@, "user_id"@),
        lookup(k->Obj_0@, "username"@) == lookup(j->Obj_0@, "username"@),
        lookup(k->Obj_0@, "verified"@) == lookup(j->Obj_0@, "verified"@),
        lookup(k->Obj_0@, "admin"@) == lookup(j->Obj_0@, "admin"@),
{
    lemma_studio_user_json_decodes(k, x);
}

proof fn lemma_studio_user_json_decodes(k: Json, x: StudioUser)
    requires
        studio_user_json(k, x),
    ensures
        studio_user_of(k, x),
{
    reveal_strlit("user_id");
    reveal_strlit("username");
    reveal_strlit("verified");
    reveal_strlit("admin");
    assert("user_id"@.len() == 7);
    assert("username"@.len() == 8);
    assert("verified"@.len() == 8);
    assert("admin"@.len() == 5);
    assert("username"@[0] == 'u');
    assert("verified"@[0] == 'v');
    let fs = k->Obj_0@;
    lemma_lookup_distinct(fs, 0);
    lemma_lookup_distinct(fs, 1);
    lemma_lookup_distinct(fs, 2);
    lemma_lookup_distinct(fs, 3);
}

pub open spec fn studio_json(j: Json, x: Studio) -> bool {
    &&& j matches Json::Obj(fs)
    &&& fs@.len() == 7
    &&& fs@[0].key@ == "user_id"@ && fs@[0].value == Json::Str(x.user_id)
    &&& fs@[1].key@ == "username"@ && fs@[1].value == Json::Str(x.username)
    &&& fs@[2].key@ == "verified"@ && fs@[2].value == Json::Bool(x.verified)
    &&& fs@[3].key@ == "admin_id"@ && fs@[3].value == Json::Str(x.admin_id)
    &&& fs@[4].key@ == "isAdmin"@ && opt_bool_json(fs@[4].value, x.is_admin)
    &&& fs@[5].key@ == "apiKey"@ && opt_str_json(fs@[5].value, x.api_key)
    &&& fs@[6].key@ == "users"@ && opt_studio_users_json(fs@[6].value, x.users)
}

pub fn encode_studio(x: &Studio) -> (r: Json)
    ensures
        studio_json(r, *x),
{
    let mut fs: Vec<Field> = Vec::new();
    fs.push(member("user_id", Json::Str(x.user_id.clone())));
    fs.push(member("username", Json::Str(x.username.clone())));
    fs.push(member("verified", Json::Bool(x.verified)));
    fs.push(member("admin_id", Json::Str(x.admin_id.clone())));
    fs.push(member("isAdmin", opt_bool_value(&x.is_admin)));
    fs.push(member("apiKey", opt_str_value(&x.api_key)));
    fs.push(member("users", opt_studio_users_value(&x.users)));
    Json::Obj(fs)
}

/// Re-encoding a decoded `Studio` gives JSON that decodes to the same record:
/// every required member keeps its value, and the optional ones that were
/// missing come back as `null`, which decodes as missing.
pub proof fn round_trip_studio(j: Json, x: Studio, k: Json)
    requires
        studio_of(j, x),
        studio_json(k, x),
    ensures
        studio_of(k, x),
        lookup(k->Obj_0@, "user_id"@) == lookup(j->Obj_0@, "user_id"@),
        lookup(k->Obj_0@, "username"@) == lookup(j->Obj_0@, "username"@),
        lookup(k->Obj_0@, "verified"@) == lookup(j->Obj_0@, "verified"@),
        lookup(k->Obj_0@, "admin_id"@) == lookup(j->Obj_0@, "admin_id"@),
{
    lemma_studio_json_decodes(k, x);
}

proof fn lemma_studio_json_decodes(k: Json, x: Studio)
    requires
        studio_json(k, x),
    ensures
        studio_of(k, x),
{
    reveal_strlit("user_id");
    reveal_strlit("username");
    reveal_strlit("verified");
    reveal_strlit("admin_id");
    reveal_strlit("isAdmin");
    reveal_strlit("apiKey");
    reveal_strlit("users");
    assert("user_id"@.len() == 7);
    assert("username"@.len() == 8);
    assert("verified"@.len() == 8);
    assert("admin_id"@.len() == 8);
    assert("isAdmin"@.len() == 7);
    assert("apiKey"@.len() == 6);
    assert("users"@.len() == 5);
    assert("admin_id"@[0] == 'a');
    assert("isAdmin"@[0] == 'i');
    assert("user_id"@[0] == 'u');
    assert("username"@[0] == 'u');
    assert("verified"@[0] == 'v');
    let fs = k->Obj_0@;
    lemma_lookup_distinct(fs, 0);
    lemma_lookup_distinct(fs, 1);
    lemma_lookup_distinct(fs, 2);
    lemma_lookup_distinct(fs, 3);
    lemma_lookup_distinct(fs, 4);
    lemma_lookup_distinct(fs, 5);
    lemma_lookup_distinct(fs, 6);
    if x.users is Some {
        lemma_studio_users_json_decode(fs[6].value->Arr_0@, x.users->Some_0@);
    }
}

pub open spec fn trade_item_json(j: Json, x: TradeItem) -> bool {
    &&& j matches Json::Obj(fs)
    &&& fs@.len() == 3
    &&& fs@[0].key@ == "itemId"@ && fs@[0].value == Json::Str(x.item_id)
    &&& fs@[1].key@ == "amount"@ && fs@[1].value == Json::Num(Number::Int(x.amount as i64))
    &&& fs@[2].key@ == "metadata"@ && opt_obj_json(fs@[2].value, x.metadata)
}

pub fn encode_trade_item(x: &TradeItem) -> (r: Json)
    ensures
        trade_item_json(r, *x),
{
    let mut fs: Vec<Field> = Vec::new();
    fs.push(member("itemId", Json::Str(x.item_id.clone())));
    fs.push(member("amount", Json::Num(Number::Int(x.amount as i64))));
    fs.push(member("metadata", opt_obj_value(&x.metadata)));
    Json::Obj(fs)
}

/// Re-encoding a decoded `TradeItem` gives JSON that decodes to the same record:
/// every required member keeps its value, and the optional ones that were
/// missing come back as `null`, which decodes as missing.
pub proof fn round_trip_trade_item(j: Json, x: TradeItem, k: Json)
    requires
        trade_item_of(j, x),
        trade_item_json(k, x),
    ensures
        trade_item_of(k, x),
        lookup(k->Obj_0@, "itemId"@) == lookup(j->Obj_0@, "itemId"@),
        lookup(k->Obj_0@, "amount"@) == lookup(j->Obj_0@, "amount"@),
{
    lemma_trade_item_json_decodes(k, x);
}

proof fn lemma_trade_item_json_decodes(k: Json, x: TradeItem)
    requires
        trade_item_json(k, x),
    ensures
        trade_item_of(k, x),
{
    reveal_strlit("itemId");
    reveal_strlit("amount");
    reveal_strlit("metadata");
    assert("itemId"@.len() == 6);
    assert("amount"@.len() == 6);
    assert("metadata"@.len() == 8);
    assert("amount"@[0] == 'a');
    assert("itemId"@[0] == 'i');
    let fs = k->Obj_0@;
    lemma_lookup_distinct(fs, 0);
    lemma_lookup_distinct(fs, 1);
    lemma_lookup_distinct(fs, 2);
}

pub open spec fn trade_item_info_json(j: Json, x: TradeItemInfo) -> bool {
    &&& j matches Json::Obj(fs)
    &&& fs@.len() == 5
    &&& fs@[0].key@ == "itemId"@ && fs@[0].value == Json::Str(x.item_id)
    &&& fs@[1].key@ == "name"@ && fs@[1].value == Json::Str(x.name)
    &&& fs@[2].key@ == "description"@ && fs@[2].value == Json::Str(x.description)
    &&& fs@[3].key@ == "iconHash"@ && fs@[3].value == Json::Str(x.icon_hash)
    &&& fs@[4].key@ == "amount"@ && fs@[4].value == Json::Num(Number::Int(x.amount as i64))
}

pub fn encode_trade_item_info(x: &TradeItemInfo) -> (r: Json)
    ensures
        trade_item_info_json(r, *x),
{
    let mut fs: Vec<Field> = Vec::new();
    fs.push(member("itemId", Json::Str(x.item_id.clone())));
    fs.push(member("name", Json::Str(x.name.clone())));
    fs.push(member("description", Json::Str(x.description.clone())));
    fs.push(member("iconHash", Json::Str(x.icon_hash.clone())));
    fs.push(member("amount", Json::Num(Number::Int(x.amount as i64))));
    Json::Obj(fs)
}

/// Re-encoding a decoded `TradeItemInfo` gives JSON that decodes to the same record:
/// every required member keeps its value, and the optional ones that were
/// missing come back as `null`, which decodes as missing.
pub proof fn round_trip_trade_item_info(j: Json, x: TradeItemInfo, k: Json)
    requires
        trade_item_info_of(j, x),
        trade_item_info_json(k, x),
    ensures
        trade_item_info_of(k, x),
        lookup(k->Obj_0@, "itemId"@) == lookup(j->Obj_0@, "itemId"@),
        lookup(k->Obj_0@, "name"@) == lookup(j->Obj_0@, "name"@),
        lookup(k->Obj_0@, "description"@) == lookup(j->Obj_0@, "description"@),
        lookup(k->Obj_0@, "iconHash"@) == lookup(j->Obj_0@, "iconHash"@),
        lookup(k->Obj_0@, "amount"@) == lookup(j->Obj_0@, "amount"@),
{
    lemma_trade_item_info_json_decodes(k, x);
}

proof fn lemma_trade_item_info_json_decodes(k: Json, x: TradeItemInfo)
    requires
        trade_item_info_json(k, x),
    ensures
        trade_item_info_of(k, x),
{
    reveal_strlit("itemId");
    reveal_strlit("name");
    reveal_strlit("description");
    reveal_strlit("iconHash");
    reveal_strlit("amount");
    assert("itemId"@.len() == 6);
    assert("name"@.len() == 4);
    assert("description"@.len() == 11);
    assert("iconHash"@.len() == 8);
    assert("amount"@.len() == 6);
    assert("amount"@[0] == 'a');
    assert("itemId"@[0] == 'i');
    let fs = k->Obj_0@;
    lemma_lookup_distinct(fs, 0);
    lemma_lookup_distinct(fs, 1);
    lemma_lookup_distinct(fs, 2);
    lemma_lookup_distinct(fs, 3);
    lemma_lookup_distinct(fs, 4);
}

pub open spec fn trade_json(j: Json, x: Trade) -> bool {
    &&& j matches Json::Obj(fs)
    &&& fs@.len() == 10
    &&& fs@[0].key@ == "id"@ && fs@[0].value == Json::Str(x.id)
    &&& fs@[1].key@ == "fromUserId"@ && fs@[1].value == Json::Str(x.from_user_id)
    &&& fs@[2].key@ == "toUserId"@ && fs@[2].value == Json::Str(x.to_user_id)
    &&& fs@[3].key@ == "fromUserItems"@
    &&& (fs@[3].value matches Json::Arr(a) && trade_item_infos_json(a@, x.from_user_items@))
    &&& fs@[4].key@ == "toUserItems"@
    &&& (fs@[4].value matches Json::Arr(a) && trade_item_infos_json(a@, x.to_user_items@))
    &&& fs@[5].key@ == "approvedFromUser"@ && fs@[5].value == Json::Bool(x.approved_from_user)
    &&& fs@[6].key@ == "approvedToUser"@ && fs@[6].value == Json::Bool(x.approved_to_user)
    &&& fs@[7].key@ == "status"@ && fs@[7].value == Json::Str(x.status)
    &&& fs@[8].key@ == "createdAt"@ && fs@[8].value == Json::Str(x.created_at)
    &&& fs@[9].key@ == "updatedAt"@ && fs@[9].value == Json::Str(x.updated_at)
}

pub fn encode_trade(x: &Trade) -> (r: Json)
    ensures
        trade_json(r, *x),
{
    let mut fs: Vec<Field> = Vec::new();
    fs.push(member("id", Json::Str(x.id.clone())));
    fs.push(member("fromUserId", Json::Str(x.from_user_id.clone())));
    fs.push(member("toUserId", Json::Str(x.to_user_id.clone())));
    fs.push(member("fromUserItems", Json::Arr(encode_trade_item_infos(&x.from_user_items))));
    fs.push(member("toUserItems", Json::Arr(encode_trade_item_infos(&x.to_user_items))));
    fs.push(member("approvedFromUser", Json::Bool(x.approved_from_user)));
    fs.push(member("approvedToUser", Json::Bool(x.approved_to_user)));
    fs.push(member("status", Json::Str(x.status.clone())));
    fs.push(member("createdAt", Json::Str(x.created_at.clone())));
    fs.push(member("updatedAt", Json::Str(x.updated_at.clone())));
    Json::Obj(fs)
}

/// Re-encoding a decoded `Trade` gives JSON that decodes to the same record:
/// every required member keeps its value, and the optional ones that were
/// missing come back as `null`, which decodes as missing.
pub proof fn round_trip_trade(j: Json, x: Trade, k: Json)
    requires
        trade_of(j, x),
        trade_json(k, x),
    ensures
        trade_of(k, x),
        lookup(k->Obj_0@, "id"@) == lookup(j->Obj_0@, "id"@),
        lookup(k->Obj_0@, "fromUserId"@) == lookup(j->Obj_0@, "fromUserId"@),
        lookup(k->Obj_0@, "toUserId"@) == lookup(j->Obj_0@, "toUserId"@),
        lookup(k->Obj_0@, "approvedFromUser"@) == lookup(j->Obj_0@, "approvedFromUser"@),
        lookup(k->Obj_0@, "approvedToUser"@) == lookup(j->Obj_0@, "approvedToUser"@),
        lookup(k->Obj_0@, "status"@) == lookup(j->Obj_0@, "status"@),
        lookup(k->Obj_0@, "createdAt"@) == lookup(j->Obj_0@, "createdAt"@),
        lookup(k->Obj_0@, "updatedAt"@) == lookup(j->Obj_0@, "updatedAt"@),
{
    lemma_trade_json_decodes(k, x);
}

proof fn lemma_trade_json_decodes(k: Json, x: Trade)
    requires
        trade_json(k, x),
    ensures
        trade_of(k, x),
{
    reveal_strlit("id");
    reveal_strlit("fromUserId");
    reveal_strlit("toUserId");
    reveal_strlit("fromUserItems");
    reveal_strlit("toUserItems");
    reveal_strlit("approvedFromUser");
    reveal_strlit("approvedToUser");
    reveal_strlit("status");
    reveal_strlit("createdAt");
    reveal_strlit("updatedAt");
    assert("id"@.len() == 2);
    assert("fromUserId"@.len() == 10);
    assert("toUserId"@.len() == 8);
    assert("fromUserItems"@.len() == 13);
    assert("toUserItems"@.len() == 11);
    assert("approvedFromUser"@.len() == 16);
    assert("approvedToUser"@.len() == 14);
    assert("status"@.len() == 6);
    assert("createdAt"@.len() == 9);
    assert("updatedAt"@.len() == 9);
    assert("createdAt"@[0] == 'c');
    assert("updatedAt"@[0] == 'u');
    let fs = k->Obj_0@;
    lemma_lookup_distinct(fs, 0);
    lemma_lookup_distinct(fs, 1);
    lemma_lookup_distinct(fs, 2);
    lemma_lookup_distinct(fs, 3);
    lemma_trade_item_infos_json_decode(fs[3].value->Arr_0@, x.from_user_items@);
    lemma_lookup_distinct(fs, 4);
    lemma_trade_item_infos_json_decode(fs[4].value->Arr_0@, x.to_user_items@);
    lemma_lookup_distinct(fs, 5);
    lemma_lookup_distinct(fs, 6);
    lemma_lookup_distinct(fs, 7);
    lemma_lookup_distinct(fs, 8);
    lemma_lookup_distinct(fs, 9);
}

pub open spec fn search_result_json(j: Json, x: SearchResult) -> bool {
    &&& j matches Json::Obj(fs)
    &&& fs@.len() == 3
    &&& fs@[0].key@ == "users"@ && (fs@[0].value matches Json::Arr(a) && users_json(a@, x.users@))
    &&& fs@[1].key@ == "items"@ && (fs@[1].value matches Json::Arr(a) && items_json(a@, x.items@))
    &&& fs@[2].key@ == "games"@ && (fs@[2].value matches Json::Arr(a) && games_json(a@, x.games@))
}

pub fn encode_search_result(x: &SearchResult) -> (r: Json)
    ensures
        search_result_json(r, *x),
{
    let mut fs: Vec<Field> = Vec::new();
    fs.push(member("users", Json::Arr(encode_users(&x.users))));
    fs.push(member("items", Json::Arr(encode_items(&x.items))));
    fs.push(member("games", Json::Arr(encode_games(&x.games))));
    Json::Obj(fs)
}

/// Re-encoding a decoded `SearchResult` gives JSON that decodes to the same record:
/// every required member keeps its value, and the optional ones that were
/// missing come back as `null`, which decodes as missing.
pub proof fn round_trip_search_result(j: Json, x: SearchResult, k: Json)
    requires
        search_result_of(j, x),
        search_result_json(k, x),
    ensures
        search_result_of(k, x),
{
    lemma_search_result_json_decodes(k, x);
}

proof fn lemma_search_result_json_decodes(k: Json, x: SearchResult)
    requires
        search_result_json(k, x),
    ensures
        search_result_of(k, x),
{
    reveal_strlit("users");
    reveal_strlit("items");
    reveal_strlit("games");
    assert("users"@.len() == 5);
    assert("items"@.len() == 5);
    assert("games"@.len() == 5);
    assert("games"@[0] == 'g');
    assert("items"@[0] == 'i');
    assert("users"@[0] == 'u');
    let fs = k->Obj_0@;
    lemma_lookup_distinct(fs, 0);
    lemma_users_json_decode(fs[0].value->Arr_0@, x.users@);
    lemma_lookup_distinct(fs, 1);
    lemma_items_json_decode(fs[1].value->Arr_0@, x.items@);
    lemma_lookup_distinct(fs, 2);
    lemma_games_json_decode(fs[2].value->Arr_0@, x.games@);
}

pub open spec fn oauth2_app_json(j: Json, x: OAuth2App) -> bool {
    &&& j matches Json::Obj(fs)
    &&& fs@.len() == 4
    &&& fs@[0].key@ == "client_id"@ && fs@[0].value == Json::Str(x.client_id)
    &&& fs@[1].key@ == "client_secret"@ && fs@[1].value == Json::Str(x.client_secret)
    &&& fs@[2].key@ == "name"@ && fs@[2].value == Json::Str(x.name)
    &&& fs@[3].key@ == "redirect_urls"@
    &&& (fs@[3].value matches Json::Arr(a) && strings_json(a@, x.redirect_urls@))
}

pub fn encode_oauth2_app(x: &OAuth2App) -> (r: Json)
    ensures
        oauth2_app_json(r, *x),
{
    let mut fs: Vec<Field> = Vec::new();
    fs.push(member("client_id", Json::Str(x.client_id.clone())));
    fs.push(member("client_secret", Json::Str(x.client_secret.clone())));
    fs.push(member("name", Json::Str(x.name.clone())));
    fs.push(member("redirect_urls", Json::Arr(encode_strings(&x.redirect_urls))));
    Json::Obj(fs)
}

/// Re-encoding a decoded `OAuth2App` gives JSON that decodes to the same record:
/// every required member keeps its value, and the optional ones that were
/// missing come back as `null`, which decodes as missing.
pub proof fn round_trip_oauth2_app(j: Json, x: OAuth2App, k: Json)
    requires
        oauth2_app_of(j, x),
        oauth2_app_json(k, x),
    ensures
        oauth2_app_of(k, x),
        lookup(k->Obj_0@, "client_id"@) == lookup(j->Obj_0@, "client_id"@),
        lookup(k->Obj_0@, "client_secret"@) == lookup(j->Obj_0@, "client_secret"@),
        lookup(k->Obj_0@, "name"@) == lookup(j->Obj_0@, "name"@),
{
    lemma_oauth2_app_json_decodes(k, x);
}

proof fn lemma_oauth2_app_json_decodes(k: Json, x: OAuth2App)
    requires
        oauth2_app_json(k, x),
    ensures
        oauth2_app_of(k, x),
{
    reveal_strlit("client_id");
    reveal_strlit("client_secret");
    reveal_strlit("name");
    reveal_strlit("redirect_urls");
    assert("client_id"@.len() == 9);
    assert("client_secret"@.len() == 13);
    assert("name"@.len() == 4);
    assert("redirect_urls"@.len() == 13);
    assert("client_secret"@[0] == 'c');
    assert("redirect_urls"@[0] == 'r');
    let fs = k->Obj_0@;
    lemma_lookup_distinct(fs, 0);
    lemma_lookup_distinct(fs, 1);
    lemma_lookup_distinct(fs, 2);
    lemma_lookup_distinct(fs, 3);
    lemma_strings_json_decode(fs[3].value->Arr_0@, x.redirect_urls@);
}

pub open spec fn studios_json(a: Seq<Json>, v: Seq<Studio>) -> bool {
    &&& a.len() == v.len()
    &&& forall|i: int| 0 <= i < a.len() ==> studio_json(#[trigger] a[i], v[i])
}

pub fn encode_studios(v: &Vec<Studio>) -> (r: Vec<Json>)
    ensures
        studios_json(r@, v@),
{
    let mut out: Vec<Json> = Vec::new();
    let mut i: usize = 0;
    while i < v.len()
        invariant
            i <= v@.len(),
            out@.len() == i,
            forall|k: int| 0 <= k < i ==> studio_json(#[trigger] out@[k], v@[k]),
        decreases v@.len() - i,
    {
        out.push(encode_studio(&v[i]));
        i = i + 1;
    }
    out
}

proof fn lemma_studios_json_decode(a: Seq<Json>, v: Seq<Studio>)
    requires
        studios_json(a, v),
    ensures
        studios_of(a, v),
{
    assert forall|i: int| 0 <= i < a.len() implies studio_of(#[trigger] a[i], v[i]) by {
        lemma_studio_json_decodes(a[i], v[i]);
    }
}

pub open spec fn inventory_items_json(a: Seq<Json>, v: Seq<InventoryItem>) -> bool {
    &&& a.len() == v.len()
    &&& forall|i: int| 0 <= i < a.len() ==> inventory_item_json(#[trigger] a[i], v[i])
}

pub fn encode_inventory_items(v: &Vec<InventoryItem>) -> (r: Vec<Json>)
    ensures
        inventory_items_json(r@, v@),
{
    let mut out: Vec<Json> = Vec::new();
    let mut i: usize = 0;
    while i < v.len()
        invariant
            i <= v@.len(),
            out@.len() == i,
            forall|k: int| 0 <= k < i ==> inventory_item_json(#[trigger] out@[k], v@[k]),
        decreases v@.len() - i,
    {
        out.push(encode_inventory_item(&v[i]));
        i = i + 1;
    }
    out
}

proof fn lemma_inventory_items_json_decode(a: Seq<Json>, v: Seq<InventoryItem>)
    requires
        inventory_items_json(a, v),
    ensures
        inventory_items_of(a, v),
{
    assert forall|i: int| 0 <= i < a.len() implies inventory_item_of(#[trigger] a[i], v[i]) by {
        lemma_inventory_item_json_decodes(a[i], v[i]);
    }
}

pub open spec fn items_json(a: Seq<Json>, v: Seq<Item>) -> bool {
    &&& a.len() == v.len()
    &&& forall|i: int| 0 <= i < a.len() ==> item_json(#[trigger] a[i], v[i])
}

pub fn encode_items(v: &Vec<Item>) -> (r: Vec<Json>)
    ensures
        items_json(r@, v@),
{
    let mut out: Vec<Json> = Vec::new();
    let mut i: usize = 0;
    while i < v.len()
        invariant
            i <= v@.len(),
            out@.len() == i,
            forall|k: int| 0 <= k < i ==> item_json(#[trigger] out@[k], v@[k]),
        decreases v@.len() - i,
    {
        out.push(encode_item(&v[i]));
        i = i + 1;
    }
    out
}

proof fn lemma_items_json_decode(a: Seq<Json>, v: Seq<Item>)
    requires
        items_json(a, v),
    ensures
        items_of(a, v),
{
    assert forall|i: int| 0 <= i < a.len() implies item_of(#[trigger] a[i], v[i]) by {
        lemma_item_json_decodes(a[i], v[i]);
    }
}

pub open spec fn games_json(a: Seq<Json>, v: Seq<Game>) -> bool {
    &&& a.len() == v.len()
    &&& forall|i: int| 0 <= i < a.len() ==> game_json(#[trigger] a[i], v[i])
}

pub fn encode_games(v: &Vec<Game>) -> (r: Vec<Json>)
    ensures
        games_json(r@, v@),
{
    let mut out: Vec<Json> = Vec::new();
    let mut i: usize = 0;
    while i < v.len()
        invariant
            i <= v@.len(),
            out@.len() == i,
            forall|k: int| 0 <= k < i ==> game_json(#[trigger] out@[k], v@[k]),
        decreases v@.len() - i,
    {
        out.push(encode_game(&v[i]));
        i = i + 1;
    }
    out
}

proof fn lemma_games_json_decode(a: Seq<Json>, v: Seq<Game>)
    requires
        games_json(a, v),
    ensures
        games_of(a, v),
{
    assert forall|i: int| 0 <= i < a.len() implies game_of(#[trigger] a[i], v[i]) by {
        lemma_game_json_decodes(a[i], v[i]);
    }
}

pub open spec fn lobby_users_json(a: Seq<Json>, v: Seq<LobbyUser>) -> bool {
    &&& a.len() == v.len()
    &&& forall|i: int| 0 <= i < a.len() ==> lobby_user_json(#[trigger] a[i], v[i])
}

pub fn encode_lobby_users(v: &Vec<LobbyUser>) -> (r: Vec<Json>)
    ensures
        lobby_users_json(r@, v@),
{
    let mut out: Vec<Json> = Vec::new();
    let mut i: usize = 0;
    while i < v.len()
        invariant
            i <= v@.len(),
            out@.len() == i,
            forall|k: int| 0 <= k < i ==> lobby_user_json(#[trigger] out@[k], v@[k]),
        decreases v@.len() - i,
    {
        out.push(encode_lobby_user(&v[i]));
        i = i + 1;
    }
    out
}

proof fn lemma_lobby_users_json_decode(a: Seq<Json>, v: Seq<LobbyUser>)
    requires
        lobby_users_json(a, v),
    ensures
        lobby_users_of(a, v),
{
    assert forall|i: int| 0 <= i < a.len() implies lobby_user_of(#[trigger] a[i], v[i]) by {
        lemma_lobby_user_json_decodes(a[i], v[i]);
    }
}

pub open spec fn studio_users_json(a: Seq<Json>, v: Seq<StudioUser>) -> bool {
    &&& a.len() == v.len()
    &&& forall|i: int| 0 <= i < a.len() ==> studio_user_json(#[trigger] a[i], v[i])
}

pub fn encode_studio_users(v: &Vec<StudioUser>) -> (r: Vec<Json>)
    ensures
        studio_users_json(r@, v@),
{
    let mut out: Vec<Json> = Vec::new();
    let mut i: usize = 0;
    while i < v.len()
        invariant
            i <= v@.len(),
            out@.len() == i,
            forall|k: int| 0 <= k < i ==> studio_user_json(#[trigger] out@[k], v@[k]),
        decreases v@.len() - i,
    {
        out.push(encode_studio_user(&v[i]));
        i = i + 1;
    }
    out
}

proof fn lemma_studio_users_json_decode(a: Seq<Json>, v: Seq<StudioUser>)
    requires
        studio_users_json(a, v),
    ensures
        studio_users_of(a, v),
{
    assert forall|i: int| 0 <= i < a.len() implies studio_user_of(#[trigger] a[i], v[i]) by {
        lemma_studio_user_json_decodes(a[i], v[i]);
    }
}

pub open spec fn trade_item_infos_json(a: Seq<Json>, v: Seq<TradeItemInfo>) -> bool {
    &&& a.len() == v.len()
    &&& forall|i: int| 0 <= i < a.len() ==> trade_item_info_json(#[trigger] a[i], v[i])
}

pub fn encode_trade_item_infos(v: &Vec<TradeItemInfo>) -> (r: Vec<Json>)
    ensures
        trade_item_infos_json(r@, v@),
{
    let mut out: Vec<Json> = Vec::new();
    let mut i: usize = 0;
    while i < v.len()
        invariant
            i <= v@.len(),
            out@.len() == i,
            forall|k: int| 0 <= k < i ==> trade_item_info_json(#[trigger] out@[k], v@[k]),
        decreases v@.len() - i,
    {
        out.push(encode_trade_item_info(&v[i]));
        i = i + 1;
    }
    out
}

proof fn lemma_trade_item_infos_json_decode(a: Seq<Json>, v: Seq<TradeItemInfo>)
    requires
        trade_item_infos_json(a, v),
    ensures
        trade_item_infos_of(a, v),
{
    assert forall|i: int| 0 <= i < a.len() implies trade_item_info_of(#[trigger] a[i], v[i]) by {
        lemma_trade_item_info_json_decodes(a[i], v[i]);
    }
}

pub open spec fn users_json(a: Seq<Json>, v: Seq<User>) -> bool {
    &&& a.len() == v.len()
    &&& forall|i: int| 0 <= i < a.len() ==> user_json(#[trigger] a[i], v[i])
}

pub fn encode_users(v: &Vec<User>) -> (r: Vec<Json>)
    ensures
        users_json(r@, v@),
{
    let mut out: Vec<Json> = Vec::new();
    let mut i: usize = 0;
    while i < v.len()
        invariant
            i <= v@.len(),
            out@.len() == i,
            forall|k: int| 0 <= k < i ==> user_json(#[trigger] out@[k], v@[k]),
        decreases v@.len() - i,
    {
        out.push(encode_user(&v[i]));
        i = i + 1;
    }
    out
}

proof fn lemma_users_json_decode(a: Seq<Json>, v: Seq<User>)
    requires
        users_json(a, v),
    ensures
        users_of(a, v),
{
    assert forall|i: int| 0 <= i < a.len() implies user_of(#[trigger] a[i], v[i]) by {
        lemma_user_json_decodes(a[i], v[i]);
    }
}

pub open spec fn strings_json(a: Seq<Json>, v: Seq<String>) -> bool {
    strings_of(a, v)
}

pub fn encode_strings(v: &Vec<String>) -> (r: Vec<Json>)
    ensures
        strings_json(r@, v@),
{
    let mut out: Vec<Json> = Vec::new();
    let mut i: usize = 0;
    while i < v.len()
        invariant
            i <= v@.len(),
            out@.len() == i,
            forall|k: int| 0 <= k < i ==> out@[k] == Json::Str(v@[k]),
        decreases v@.len() - i,
    {
        out.push(Json::Str(v[i].clone()));
        i = i + 1;
    }
    out
}

proof fn lemma_strings_json_decode(a: Seq<Json>, v: Seq<String>)
    requires
        strings_json(a, v),
    ensures
        strings_of(a, v),
{
}

pub open spec fn opt_studios_json(j: Json, o: Option<Vec<Studio>>) -> bool {
    match o {
        None => j == Json::Null,
        Some(v) => j matches Json::Arr(a) && studios_json(a@, v@),
    }
}

fn opt_studios_value(o: &Option<Vec<Studio>>) -> (r: Json)
    ensures
        opt_studios_json(r, *o),
{
    match o {
        None => Json::Null,
        Some(v) => Json::Arr(encode_studios(v)),
    }
}

pub open spec fn opt_strings_json(j: Json, o: Option<Vec<String>>) -> bool {
    match o {
        None => j == Json::Null,
        Some(v) => j matches Json::Arr(a) && strings_json(a@, v@),
    }
}

fn opt_strings_value(o: &Option<Vec<String>>) -> (r: Json)
    ensures
        opt_strings_json(r, *o),
{
    match o {
        None => Json::Null,
        Some(v) => Json::Arr(encode_strings(v)),
    }
}

pub open spec fn opt_inventory_items_json(j: Json, o: Option<Vec<InventoryItem>>) -> bool {
    match o {
        None => j == Json::Null,
        Some(v) => j matches Json::Arr(a) && inventory_items_json(a@, v@),
    }
}

fn opt_inventory_items_value(o: &Option<Vec<InventoryItem>>) -> (r: Json)
    ensures
        opt_inventory_items_json(r, *o),
{
    match o {
        None => Json::Null,
        Some(v) => Json::Arr(encode_inventory_items(v)),
    }
}

pub open spec fn opt_items_json(j: Json, o: Option<Vec<Item>>) -> bool {
    match o {
        None => j == Json::Null,
        Some(v) => j matches Json::Arr(a) && items_json(a@, v@),
    }
}

fn opt_items_value(o: &Option<Vec<Item>>) -> (r: Json)
    ensures
        opt_items_json(r, *o),
{
    match o {
        None => Json::Null,
        Some(v) => Json::Arr(encode_items(v)),
    }
}

pub open spec fn opt_games_json(j: Json, o: Option<Vec<Game>>) -> bool {
    match o {
        None => j == Json::Null,
        Some(v) => j matches Json::Arr(a) && games_json(a@, v@),
    }
}

fn opt_games_value(o: &Option<Vec<Game>>) -> (r: Json)
    ensures
        opt_games_json(r, *o),
{
    match o {
        None => Json::Null,
        Some(v) => Json::Arr(encode_games(v)),
    }
}

pub open spec fn opt_studio_users_json(j: Json, o: Option<Vec<StudioUser>>) -> bool {
    match o {
        None => j == Json::Null,
        Some(v) => j matches Json::Arr(a) && studio_users_json(a@, v@),
    }
}

fn opt_studio_users_value(o: &Option<Vec<StudioUser>>) -> (r: Json)
    ensures
        opt_studio_users_json(r, *o),
{
    match o {
        None => Json::Null,
        Some(v) => Json::Arr(encode_studio_users(v)),
    }
}

} // verus!
