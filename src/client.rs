//! The client: one method per endpoint, each planning the request to send.
//!
//! A call that needs the caller's identity carries the bearer token; on a
//! client without one it fails with `Unauthenticated` and plans nothing. An
//! amount-carrying call with a negative amount fails with `InvalidAmount`.
//! Sending the request and decoding the answer (see `response`) are the
//! caller's.
use vstd::prelude::*;
use vstd::string::StringExecFns;
use vstd::utf8::encode_utf8;
use crate::encode::{encode_strings, encode_trade_item, member, strings_json, trade_item_json};
use crate::json::{Field, Json, Number};
use crate::model::TradeItem;
use crate::request::{build_request, percent_encoded, planned, query_path, Method, Request};
use crate::response::ApiError;

verus! {

/// `r` is the public request for `method` on `path`.
pub open spec fn public_call(
    r: Result<Request, ApiError>,
    method: Method,
    path: Seq<char>,
) -> bool {
    r matches Ok(req) && planned(req, method, path, None)
}

/// `r` is the request for `method` on `path` authenticated by `token`, or,
/// without a token, the `Unauthenticated` failure.
pub open spec fn private_call(
    token: Option<Seq<char>>,
    r: Result<Request, ApiError>,
    method: Method,
    path: Seq<char>,
) -> bool {
    match token {
        None => r matches Err(ApiError::Unauthenticated),
        Some(t) => r matches Ok(req) && planned(req, method, path, Some(t)),
    }
}

pub open spec fn no_body(r: Result<Request, ApiError>) -> bool {
    r matches Ok(req) ==> req.body is None
}

/// A planned request's body is an object of string members, named and valued as `kv` says.
pub open spec fn strs_body(r: Result<Request, ApiError>, kv: Seq<(Seq<char>, Seq<char>)>) -> bool {
    r matches Ok(req) ==> {
        &&& req.body matches Some(Json::Obj(fs))
        &&& fs@.len() == kv.len()
        &&& forall|i: int|
            0 <= i < kv.len() ==> (#[trigger] fs@[i]).key@ == kv[i].0 && (fs@[i].value matches Json::Str(s)
                && s@ == kv[i].1)
    }
}

/// A planned request's body is `{"amount": amount}`.
pub open spec fn amount_body(r: Result<Request, ApiError>, amount: i32) -> bool {
    r matches Ok(req) ==> {
        &&& req.body matches Some(Json::Obj(fs))
        &&& fs@.len() == 1
        &&& fs@[0].key@ == "amount"@
        &&& fs@[0].value == Json::Num(Number::Int(amount as i64))
    }
}

/// A negative number. A decimal's text starts with its sign.
pub open spec fn is_negative(n: Number) -> bool {
    match n {
        Number::Int(i) => i < 0,
        Number::Real(t) => encode_utf8(t@).len() > 0 && encode_utf8(t@)[0] == 45u8,
    }
}

pub fn number_is_negative(n: &Number) -> (r: bool)
    ensures
        r == is_negative(*n),
{
    match n {
        Number::Int(i) => *i < 0,
        Number::Real(t) => {
            let b = t.as_str().as_bytes();
            b.len() > 0 && b[0] == 45u8
        },
    }
}

/// A client of the service, holding the caller's bearer token if there is one.
pub struct CroissantApi {
    token: Option<String>,
}

impl CroissantApi {
    /// The bearer token that authenticated calls carry.
    pub closed spec fn bearer(&self) -> Option<Seq<char>> {
        match self.token {
            Some(t) => Some(t@),
            None => None,
        }
    }

    /// A client holding `token`. An empty token counts as none.
    pub fn new(token: Option<String>) -> (r: CroissantApi)
        ensures
            r.bearer() == match token {
                Some(t) => if t@.len() > 0 { Some(t@) } else { None },
                None => None,
            },
    {
        match token {
            Some(t) => {
                assert(t@.len() == 0 ==> t@ =~= Seq::<char>::empty());
                if t == String::new() {
                    CroissantApi { token: None }
                } else {
                    CroissantApi { token: Some(t) }
                }
            },
            None => CroissantApi { token: None },
        }
    }

    /// Whether the client holds a token.
    pub fn has_token(&self) -> (r: bool)
        ensures
            r == self.bearer() is Some,
    {
        self.token.is_some()
    }

    fn public(
        &self,
        method: Method,
        path: &str,
        body: Option<Json>,
    ) -> (r: Result<Request, ApiError>)
        ensures
            public_call(r, method, path@),
            r matches Ok(req) && req.body == body,
    {
        Ok(build_request(method, path, None, body))
    }

    fn private(
        &self,
        method: Method,
        path: &str,
        body: Option<Json>,
    ) -> (r: Result<Request, ApiError>)
        ensures
            private_call(self.bearer(), r, method, path@),
            r matches Ok(req) ==> req.body == body,
    {
        match &self.token {
            Some(t) => Ok(build_request(method, path, Some(t), body)),
            None => Err(ApiError::Unauthenticated),
        }
    }

    // users

    /// The caller's own profile, with its studios, roles, inventory, owned items and created games.
    pub fn get_me(&self) -> (r: Result<Request, ApiError>)
        ensures
            private_call(self.bearer(), r, Method::Get, "/users/@me"@),
            no_body(r),
    {
        self.private(Method::Get, "/users/@me", None)
    }

    /// A user by id: a Croissant id, or a Discord, Google or Steam id.
    pub fn get_user(&self, user_id: &str) -> (r: Result<Request, ApiError>)
        ensures
            public_call(r, Method::Get, "/users/"@ + user_id@),
            no_body(r),
    {
        let mut path = String::from_str("/users/");
        path.append(user_id);
        self.public(Method::Get, path.as_str(), None)
    }

    /// Users whose name matches `query`.
    pub fn search_users(&self, query: &str) -> (r: Result<Request, ApiError>)
        ensures
            public_call(r, Method::Get, "/users/search?q="@ + percent_encoded(encode_utf8(query@))),
            no_body(r),
    {
        let path = query_path("/users/search?q=", query);
        self.public(Method::Get, path.as_str(), None)
    }

    /// Checks a user's verification key.
    pub fn verify_user(
        &self,
        user_id: &str,
        verification_key: &str,
    ) -> (r: Result<Request, ApiError>)
        ensures
            public_call(r, Method::Post, "/users/auth-verification"@),
            strs_body(r, seq![("userId"@, user_id@), ("verificationKey"@, verification_key@)]),
    {
        let body = Some(Json::Obj(vec![
            member("userId", Json::Str(String::from_str(user_id))),
            member("verificationKey", Json::Str(String::from_str(verification_key))),
        ]));
        self.public(Method::Post, "/users/auth-verification", body)
    }

    /// Sends `amount` credits to another user. A negative amount is refused
    /// before anything is sent.
    pub fn transfer_credits(
        &self,
        target_user_id: &str,
        amount: &Number,
    ) -> (r: Result<Request, ApiError>)
        ensures
            is_negative(*amount) ==> r matches Err(ApiError::InvalidAmount),
            !(is_negative(*amount)) ==> private_call(
                self.bearer(),
                r,
                Method::Post,
                "/users/transfer-credits"@,
            ),
            r matches Ok(req) ==> {
                &&& req.body matches Some(Json::Obj(fs))
                &&& fs@.len() == 2
                &&& fs@[0].key@ == "targetUserId"@
                &&& fs@[0].value matches Json::Str(s) && s@ == target_user_id@
                &&& fs@[1].key@ == "amount"@ && fs@[1].value == Json::Num(*amount)
            },
    {
        if number_is_negative(amount) {
            return Err(ApiError::InvalidAmount);
        }
        let body = Some(Json::Obj(vec![
            member("targetUserId", Json::Str(String::from_str(target_user_id))),
            member("amount", Json::Num(amount.copy())),
        ]));
        self.private(Method::Post, "/users/transfer-credits", body)
    }

    /// Renames the caller.
    pub fn change_username(&self, username: &str) -> (r: Result<Request, ApiError>)
        ensures
            private_call(self.bearer(), r, Method::Post, "/users/change-username"@),
            strs_body(r, seq![("username"@, username@)]),
    {
        let body = Some(Json::Obj(vec![
            member("username", Json::Str(String::from_str(username))),
        ]));
        self.private(Method::Post, "/users/change-username", body)
    }

    /// Changes the caller's password.
    pub fn change_password(
        &self,
        old_password: &str,
        new_password: &str,
        confirm_password: &str,
    ) -> (r: Result<Request, ApiError>)
        ensures
            private_call(self.bearer(), r, Method::Post, "/users/change-password"@),
            strs_body(
                r,
                seq![
                    ("oldPassword"@, old_password@),
                    ("newPassword"@, new_password@),
                    ("confirmPassword"@, confirm_password@),
                ],
            ),
    {
        let body = Some(Json::Obj(vec![
            member("oldPassword", Json::Str(String::from_str(old_password))),
            member("newPassword", Json::Str(String::from_str(new_password))),
            member("confirmPassword", Json::Str(String::from_str(confirm_password))),
        ]));
        self.private(Method::Post, "/users/change-password", body)
    }

    // games

    /// The games shown in the store.
    pub fn list_games(&self) -> (r: Result<Request, ApiError>)
        ensures
            public_call(r, Method::Get, "/games"@),
            no_body(r),
    {
        self.public(Method::Get, "/games", None)
    }

    /// Games whose name, genre or description matches `query`.
    pub fn search_games(&self, query: &str) -> (r: Result<Request, ApiError>)
        ensures
            public_call(r, Method::Get, "/games/search?q="@ + percent_encoded(encode_utf8(query@))),
            no_body(r),
    {
        let path = query_path("/games/search?q=", query);
        self.public(Method::Get, path.as_str(), None)
    }

    /// A game by id.
    pub fn get_game(&self, game_id: &str) -> (r: Result<Request, ApiError>)
        ensures
            public_call(r, Method::Get, "/games/"@ + game_id@),
            no_body(r),
    {
        let mut path = String::from_str("/games/");
        path.append(game_id);
        self.public(Method::Get, path.as_str(), None)
    }

    /// The games the caller created.
    pub fn get_my_created_games(&self) -> (r: Result<Request, ApiError>)
        ensures
            private_call(self.bearer(), r, Method::Get, "/games/@mine"@),
            no_body(r),
    {
        self.private(Method::Get, "/games/@mine", None)
    }

    /// The games the caller owns.
    pub fn get_my_owned_games(&self) -> (r: Result<Request, ApiError>)
        ensures
            private_call(self.bearer(), r, Method::Get, "/games/list/@me"@),
            no_body(r),
    {
        self.private(Method::Get, "/games/list/@me", None)
    }

    /// Creates a game from the given members.
    pub fn create_game(&self, game_data: Vec<Field>) -> (r: Result<Request, ApiError>)
        ensures
            private_call(self.bearer(), r, Method::Post, "/games"@),
            r matches Ok(req) ==> req.body == Some(Json::Obj(game_data)),
    {
        self.private(Method::Post, "/games", Some(Json::Obj(game_data)))
    }

    /// Updates a game with the given members.
    pub fn update_game(
        &self,
        game_id: &str,
        game_data: Vec<Field>,
    ) -> (r: Result<Request, ApiError>)
        ensures
            private_call(self.bearer(), r, Method::Put, "/games/"@ + game_id@),
            r matches Ok(req) ==> req.body == Some(Json::Obj(game_data)),
    {
        let mut path = String::from_str("/games/");
        path.append(game_id);
        self.private(Method::Put, path.as_str(), Some(Json::Obj(game_data)))
    }

    /// Buys a game.
    pub fn buy_game(&self, game_id: &str) -> (r: Result<Request, ApiError>)
        ensures
            private_call(self.bearer(), r, Method::Post, "/games/"@ + game_id@ + "/buy"@),
            no_body(r),
    {
        let mut path = String::from_str("/games/");
        path.append(game_id);
        path.append("/buy");
        self.private(Method::Post, path.as_str(), None)
    }

    // items

    /// The items shown in the store, deleted ones left out.
    pub fn list_items(&self) -> (r: Result<Request, ApiError>)
        ensures
            public_call(r, Method::Get, "/items"@),
            no_body(r),
    {
        self.public(Method::Get, "/items", None)
    }

    /// The items the caller owns.
    pub fn get_my_items(&self) -> (r: Result<Request, ApiError>)
        ensures
            private_call(self.bearer(), r, Method::Get, "/items/@mine"@),
            no_body(r),
    {
        self.private(Method::Get, "/items/@mine", None)
    }

    /// Items of the store whose name matches `query`.
    pub fn search_items(&self, query: &str) -> (r: Result<Request, ApiError>)
        ensures
            public_call(r, Method::Get, "/items/search?q="@ + percent_encoded(encode_utf8(query@))),
            no_body(r),
    {
        let path = query_path("/items/search?q=", query);
        self.public(Method::Get, path.as_str(), None)
    }

    /// An item by id, deleted or not.
    pub fn get_item(&self, item_id: &str) -> (r: Result<Request, ApiError>)
        ensures
            public_call(r, Method::Get, "/items/"@ + item_id@),
            no_body(r),
    {
        let mut path = String::from_str("/items/");
        path.append(item_id);
        self.public(Method::Get, path.as_str(), None)
    }

    /// Creates an item from the given members.
    pub fn create_item(&self, item_data: Vec<Field>) -> (r: Result<Request, ApiError>)
        ensures
            private_call(self.bearer(), r, Method::Post, "/items/create"@),
            r matches Ok(req) ==> req.body == Some(Json::Obj(item_data)),
    {
        self.private(Method::Post, "/items/create", Some(Json::Obj(item_data)))
    }

    /// Updates an item with the given members.
    pub fn update_item(
        &self,
        item_id: &str,
        item_data: Vec<Field>,
    ) -> (r: Result<Request, ApiError>)
        ensures
            private_call(self.bearer(), r, Method::Put, "/items/update/"@ + item_id@),
            r matches Ok(req) ==> req.body == Some(Json::Obj(item_data)),
    {
        let mut path = String::from_str("/items/update/");
        path.append(item_id);
        self.private(Method::Put, path.as_str(), Some(Json::Obj(item_data)))
    }

    /// Deletes an item.
    pub fn delete_item(&self, item_id: &str) -> (r: Result<Request, ApiError>)
        ensures
            private_call(self.bearer(), r, Method::Delete, "/items/delete/"@ + item_id@),
            no_body(r),
    {
        let mut path = String::from_str("/items/delete/");
        path.append(item_id);
        self.private(Method::Delete, path.as_str(), None)
    }

    /// Buys `amount` of an item. A negative amount is refused
    /// before anything is sent.
    pub fn buy_item(&self, item_id: &str, amount: i32) -> (r: Result<Request, ApiError>)
        ensures
            amount < 0 ==> r matches Err(ApiError::InvalidAmount),
            !(amount < 0) ==> private_call(
                self.bearer(),
                r,
                Method::Post,
                "/items/buy/"@ + item_id@,
            ),
            amount_body(r, amount),
    {
        if amount < 0 {
            return Err(ApiError::InvalidAmount);
        }
        let mut path = String::from_str("/items/buy/");
        path.append(item_id);
        let body = Some(Json::Obj(vec![member("amount", Json::Num(Number::Int(amount as i64)))]));
        self.private(Method::Post, path.as_str(), body)
    }

    /// Sells `amount` of an item. A negative amount is refused
    /// before anything is sent.
    pub fn sell_item(&self, item_id: &str, amount: i32) -> (r: Result<Request, ApiError>)
        ensures
            amount < 0 ==> r matches Err(ApiError::InvalidAmount),
            !(amount < 0) ==> private_call(
                self.bearer(),
                r,
                Method::Post,
                "/items/sell/"@ + item_id@,
            ),
            amount_body(r, amount),
    {
        if amount < 0 {
            return Err(ApiError::InvalidAmount);
        }
        let mut path = String::from_str("/items/sell/");
        path.append(item_id);
        let body = Some(Json::Obj(vec![member("amount", Json::Num(Number::Int(amount as i64)))]));
        self.private(Method::Post, path.as_str(), body)
    }

    /// Gives `amount` of an item (its owner only). A negative amount is refused
    /// before anything is sent.
    pub fn give_item(&self, item_id: &str, amount: i32) -> (r: Result<Request, ApiError>)
        ensures
            amount < 0 ==> r matches Err(ApiError::InvalidAmount),
            !(amount < 0) ==> private_call(
                self.bearer(),
                r,
                Method::Post,
                "/items/give/"@ + item_id@,
            ),
            amount_body(r, amount),
    {
        if amount < 0 {
            return Err(ApiError::InvalidAmount);
        }
        let mut path = String::from_str("/items/give/");
        path.append(item_id);
        let body = Some(Json::Obj(vec![member("amount", Json::Num(Number::Int(amount as i64)))]));
        self.private(Method::Post, path.as_str(), body)
    }

    /// Consumes `amount` of an item (its owner only). A negative amount is refused
    /// before anything is sent.
    pub fn consume_item(&self, item_id: &str, amount: i32) -> (r: Result<Request, ApiError>)
        ensures
            amount < 0 ==> r matches Err(ApiError::InvalidAmount),
            !(amount < 0) ==> private_call(
                self.bearer(),
                r,
                Method::Post,
                "/items/consume/"@ + item_id@,
            ),
            amount_body(r, amount),
    {
        if amount < 0 {
            return Err(ApiError::InvalidAmount);
        }
        let mut path = String::from_str("/items/consume/");
        path.append(item_id);
        let body = Some(Json::Obj(vec![member("amount", Json::Num(Number::Int(amount as i64)))]));
        self.private(Method::Post, path.as_str(), body)
    }

    /// Replaces the metadata of one stack of an item.
    pub fn update_item_metadata(
        &self,
        item_id: &str,
        unique_id: &str,
        metadata: Vec<Field>,
    ) -> (r: Result<Request, ApiError>)
        ensures
            private_call(self.bearer(), r, Method::Put, "/items/update-metadata/"@ + item_id@),
            r matches Ok(req) ==> {
                &&& req.body matches Some(Json::Obj(fs))
                &&& fs@.len() == 2
                &&& fs@[0].key@ == "uniqueId"@
                &&& fs@[0].value matches Json::Str(s) && s@ == unique_id@
                &&& fs@[1].key@ == "metadata"@ && fs@[1].value == Json::Obj(metadata)
            },
    {
        let mut path = String::from_str("/items/update-metadata/");
        path.append(item_id);
        let body = Some(Json::Obj(vec![
            member("uniqueId", Json::Str(String::from_str(unique_id))),
            member("metadata", Json::Obj(metadata)),
        ]));
        self.private(Method::Put, path.as_str(), body)
    }

    /// Drops `amount` of an item from the caller's inventory. A negative amount is
    /// refused before anything is sent.
    pub fn drop_item(&self, item_id: &str, amount: i32) -> (r: Result<Request, ApiError>)
        ensures
            amount < 0 ==> r matches Err(ApiError::InvalidAmount),
            !(amount < 0) ==> private_call(
                self.bearer(),
                r,
                Method::Post,
                "/items/drop/"@ + item_id@,
            ),
            amount_body(r, amount),
    {
        if amount < 0 {
            return Err(ApiError::InvalidAmount);
        }
        let mut path = String::from_str("/items/drop/");
        path.append(item_id);
        let body = Some(Json::Obj(vec![member("amount", Json::Num(Number::Int(amount as i64)))]));
        self.private(Method::Post, path.as_str(), body)
    }

    // inventory

    /// The caller's inventory.
    pub fn get_my_inventory(&self) -> (r: Result<Request, ApiError>)
        ensures
            private_call(self.bearer(), r, Method::Get, "/inventory/@me"@),
            no_body(r),
    {
        self.private(Method::Get, "/inventory/@me", None)
    }

    /// A user's inventory.
    pub fn get_inventory(&self, user_id: &str) -> (r: Result<Request, ApiError>)
        ensures
            public_call(r, Method::Get, "/inventory/"@ + user_id@),
            no_body(r),
    {
        let mut path = String::from_str("/inventory/");
        path.append(user_id);
        self.public(Method::Get, path.as_str(), None)
    }

    // lobbies

    /// Creates a lobby.
    pub fn create_lobby(&self) -> (r: Result<Request, ApiError>)
        ensures
            private_call(self.bearer(), r, Method::Post, "/lobbies"@),
            no_body(r),
    {
        self.private(Method::Post, "/lobbies", None)
    }

    /// A lobby by id.
    pub fn get_lobby(&self, lobby_id: &str) -> (r: Result<Request, ApiError>)
        ensures
            public_call(r, Method::Get, "/lobbies/"@ + lobby_id@),
            no_body(r),
    {
        let mut path = String::from_str("/lobbies/");
        path.append(lobby_id);
        self.public(Method::Get, path.as_str(), None)
    }

    /// The lobby the caller is in.
    pub fn get_my_lobby(&self) -> (r: Result<Request, ApiError>)
        ensures
            private_call(self.bearer(), r, Method::Get, "/lobbies/user/@me"@),
            no_body(r),
    {
        self.private(Method::Get, "/lobbies/user/@me", None)
    }

    /// The lobby a user is in.
    pub fn get_user_lobby(&self, user_id: &str) -> (r: Result<Request, ApiError>)
        ensures
            public_call(r, Method::Get, "/lobbies/user/"@ + user_id@),
            no_body(r),
    {
        let mut path = String::from_str("/lobbies/user/");
        path.append(user_id);
        self.public(Method::Get, path.as_str(), None)
    }

    /// Joins a lobby. The service refuses a caller who is already in one.
    pub fn join_lobby(&self, lobby_id: &str) -> (r: Result<Request, ApiError>)
        ensures
            private_call(self.bearer(), r, Method::Post, "/lobbies/"@ + lobby_id@ + "/join"@),
            no_body(r),
    {
        let mut path = String::from_str("/lobbies/");
        path.append(lobby_id);
        path.append("/join");
        self.private(Method::Post, path.as_str(), None)
    }

    /// Leaves a lobby.
    pub fn leave_lobby(&self, lobby_id: &str) -> (r: Result<Request, ApiError>)
        ensures
            private_call(self.bearer(), r, Method::Post, "/lobbies/"@ + lobby_id@ + "/leave"@),
            no_body(r),
    {
        let mut path = String::from_str("/lobbies/");
        path.append(lobby_id);
        path.append("/leave");
        self.private(Method::Post, path.as_str(), None)
    }

    // studios

    /// Creates a studio.
    pub fn create_studio(&self, studio_name: &str) -> (r: Result<Request, ApiError>)
        ensures
            private_call(self.bearer(), r, Method::Post, "/studios"@),
            strs_body(r, seq![("studioName"@, studio_name@)]),
    {
        let body = Some(Json::Obj(vec![
            member("studioName", Json::Str(String::from_str(studio_name))),
        ]));
        self.private(Method::Post, "/studios", body)
    }

    /// A studio by id.
    pub fn get_studio(&self, studio_id: &str) -> (r: Result<Request, ApiError>)
        ensures
            public_call(r, Method::Get, "/studios/"@ + studio_id@),
            no_body(r),
    {
        let mut path = String::from_str("/studios/");
        path.append(studio_id);
        self.public(Method::Get, path.as_str(), None)
    }

    /// The studios the caller belongs to.
    pub fn get_my_studios(&self) -> (r: Result<Request, ApiError>)
        ensures
            private_call(self.bearer(), r, Method::Get, "/studios/user/@me"@),
            no_body(r),
    {
        self.private(Method::Get, "/studios/user/@me", None)
    }

    /// Adds a user to a studio.
    pub fn add_user_to_studio(
        &self,
        studio_id: &str,
        user_id: &str,
    ) -> (r: Result<Request, ApiError>)
        ensures
            private_call(self.bearer(), r, Method::Post, "/studios/"@ + studio_id@ + "/add-user"@),
            strs_body(r, seq![("userId"@, user_id@)]),
    {
        let mut path = String::from_str("/studios/");
        path.append(studio_id);
        path.append("/add-user");
        let body = Some(Json::Obj(vec![
            member("userId", Json::Str(String::from_str(user_id))),
        ]));
        self.private(Method::Post, path.as_str(), body)
    }

    /// Removes a user from a studio.
    pub fn remove_user_from_studio(
        &self,
        studio_id: &str,
        user_id: &str,
    ) -> (r: Result<Request, ApiError>)
        ensures
            private_call(self.bearer(), r, Method::Post, "/studios/"@ + studio_id@ + "/remove-user"@),
            strs_body(r, seq![("userId"@, user_id@)]),
    {
        let mut path = String::from_str("/studios/");
        path.append(studio_id);
        path.append("/remove-user");
        let body = Some(Json::Obj(vec![
            member("userId", Json::Str(String::from_str(user_id))),
        ]));
        self.private(Method::Post, path.as_str(), body)
    }

    // trades

    /// Starts a trade with a user, or gets the pending one if there is one.
    pub fn start_or_get_pending_trade(&self, user_id: &str) -> (r: Result<Request, ApiError>)
        ensures
            private_call(self.bearer(), r, Method::Post, "/trades/start-or-latest/"@ + user_id@),
            no_body(r),
    {
        let mut path = String::from_str("/trades/start-or-latest/");
        path.append(user_id);
        self.private(Method::Post, path.as_str(), None)
    }

    /// A trade by id, with its items' details.
    pub fn get_trade(&self, trade_id: &str) -> (r: Result<Request, ApiError>)
        ensures
            private_call(self.bearer(), r, Method::Get, "/trades/"@ + trade_id@),
            no_body(r),
    {
        let mut path = String::from_str("/trades/");
        path.append(trade_id);
        self.private(Method::Get, path.as_str(), None)
    }

    /// The caller's trades, with their items' details.
    pub fn get_my_trades(&self) -> (r: Result<Request, ApiError>)
        ensures
            private_call(self.bearer(), r, Method::Get, "/trades/user/@me"@),
            no_body(r),
    {
        self.private(Method::Get, "/trades/user/@me", None)
    }

    /// Puts an amount of an item into a trade. A negative amount is refused
    /// before anything is sent.
    pub fn add_item_to_trade(
        &self,
        trade_id: &str,
        trade_item: &TradeItem,
    ) -> (r: Result<Request, ApiError>)
        ensures
            trade_item.amount < 0 ==> r matches Err(ApiError::InvalidAmount),
            !(trade_item.amount < 0) ==> private_call(
                self.bearer(),
                r,
                Method::Post,
                "/trades/"@ + trade_id@ + "/add-item"@,
            ),
            r matches Ok(req) ==> {
                &&& req.body matches Some(Json::Obj(fs))
                &&& fs@.len() == 1
                &&& fs@[0].key@ == "tradeItem"@ && trade_item_json(fs@[0].value, *trade_item)
            },
    {
        if trade_item.amount < 0 {
            return Err(ApiError::InvalidAmount);
        }
        let mut path = String::from_str("/trades/");
        path.append(trade_id);
        path.append("/add-item");
        let body = Some(Json::Obj(vec![member("tradeItem", encode_trade_item(trade_item))]));
        self.private(Method::Post, path.as_str(), body)
    }

    /// Takes an amount of an item out of a trade. A negative amount is refused
    /// before anything is sent.
    pub fn remove_item_from_trade(
        &self,
        trade_id: &str,
        trade_item: &TradeItem,
    ) -> (r: Result<Request, ApiError>)
        ensures
            trade_item.amount < 0 ==> r matches Err(ApiError::InvalidAmount),
            !(trade_item.amount < 0) ==> private_call(
                self.bearer(),
                r,
                Method::Post,
                "/trades/"@ + trade_id@ + "/remove-item"@,
            ),
            r matches Ok(req) ==> {
                &&& req.body matches Some(Json::Obj(fs))
                &&& fs@.len() == 1
                &&& fs@[0].key@ == "tradeItem"@ && trade_item_json(fs@[0].value, *trade_item)
            },
    {
        if trade_item.amount < 0 {
            return Err(ApiError::InvalidAmount);
        }
        let mut path = String::from_str("/trades/");
        path.append(trade_id);
        path.append("/remove-item");
        let body = Some(Json::Obj(vec![member("tradeItem", encode_trade_item(trade_item))]));
        self.private(Method::Post, path.as_str(), body)
    }

    /// Approves a trade.
    pub fn approve_trade(&self, trade_id: &str) -> (r: Result<Request, ApiError>)
        ensures
            private_call(self.bearer(), r, Method::Put, "/trades/"@ + trade_id@ + "/approve"@),
            no_body(r),
    {
        let mut path = String::from_str("/trades/");
        path.append(trade_id);
        path.append("/approve");
        self.private(Method::Put, path.as_str(), None)
    }

    /// Cancels a trade.
    pub fn cancel_trade(&self, trade_id: &str) -> (r: Result<Request, ApiError>)
        ensures
            private_call(self.bearer(), r, Method::Put, "/trades/"@ + trade_id@ + "/cancel"@),
            no_body(r),
    {
        let mut path = String::from_str("/trades/");
        path.append(trade_id);
        path.append("/cancel");
        self.private(Method::Put, path.as_str(), None)
    }

    // oauth2

    /// An OAuth2 application by client id.
    pub fn get_oauth2_app(&self, client_id: &str) -> (r: Result<Request, ApiError>)
        ensures
            private_call(self.bearer(), r, Method::Get, "/oauth2/app/"@ + client_id@),
            no_body(r),
    {
        let mut path = String::from_str("/oauth2/app/");
        path.append(client_id);
        self.private(Method::Get, path.as_str(), None)
    }

    /// Creates an OAuth2 application.
    pub fn create_oauth2_app(
        &self,
        name: &str,
        redirect_urls: &Vec<String>,
    ) -> (r: Result<Request, ApiError>)
        ensures
            private_call(self.bearer(), r, Method::Post, "/oauth2/app"@),
            r matches Ok(req) ==> {
                &&& req.body matches Some(Json::Obj(fs))
                &&& fs@.len() == 2
                &&& fs@[0].key@ == "name"@
                &&& fs@[0].value matches Json::Str(s) && s@ == name@
                &&& fs@[1].key@ == "redirect_urls"@
                &&& fs@[1].value matches Json::Arr(a) && strings_json(a@, redirect_urls@)
            },
    {
        let body = Some(Json::Obj(vec![
            member("name", Json::Str(String::from_str(name))),
            member("redirect_urls", Json::Arr(encode_strings(redirect_urls))),
        ]));
        self.private(Method::Post, "/oauth2/app", body)
    }

    /// The caller's OAuth2 applications.
    pub fn get_my_oauth2_apps(&self) -> (r: Result<Request, ApiError>)
        ensures
            private_call(self.bearer(), r, Method::Get, "/oauth2/apps"@),
            no_body(r),
    {
        self.private(Method::Get, "/oauth2/apps", None)
    }

    /// Renames an OAuth2 application and replaces its redirect addresses.
    pub fn update_oauth2_app(
        &self,
        client_id: &str,
        name: &str,
        redirect_urls: &Vec<String>,
    ) -> (r: Result<Request, ApiError>)
        ensures
            private_call(self.bearer(), r, Method::Patch, "/oauth2/app/"@ + client_id@),
            r matches Ok(req) ==> {
                &&& req.body matches Some(Json::Obj(fs))
                &&& fs@.len() == 2
                &&& fs@[0].key@ == "name"@
                &&& fs@[0].value matches Json::Str(s) && s@ == name@
                &&& fs@[1].key@ == "redirect_urls"@
                &&& fs@[1].value matches Json::Arr(a) && strings_json(a@, redirect_urls@)
            },
    {
        let mut path = String::from_str("/oauth2/app/");
        path.append(client_id);
        let body = Some(Json::Obj(vec![
            member("name", Json::Str(String::from_str(name))),
            member("redirect_urls", Json::Arr(encode_strings(redirect_urls))),
        ]));
        self.private(Method::Patch, path.as_str(), body)
    }

    /// Deletes an OAuth2 application.
    pub fn delete_oauth2_app(&self, client_id: &str) -> (r: Result<Request, ApiError>)
        ensures
            private_call(self.bearer(), r, Method::Delete, "/oauth2/app/"@ + client_id@),
            no_body(r),
    {
        let mut path = String::from_str("/oauth2/app/");
        path.append(client_id);
        self.private(Method::Delete, path.as_str(), None)
    }

    /// Authorizes an OAuth2 application to act for the caller.
    pub fn authorize(&self, client_id: &str, redirect_uri: &str) -> (r: Result<Request, ApiError>)
        ensures
            private_call(self.bearer(), r, Method::Get, "/oauth2/authorize?client_id="@ + percent_encoded(encode_utf8(client_id@)) + "&redirect_uri="@
                + percent_encoded(encode_utf8(redirect_uri@))),
            no_body(r),
    {
        let mut path = query_path("/oauth2/authorize?client_id=", client_id);
        let rest = query_path("&redirect_uri=", redirect_uri);
        path.append(rest.as_str());
        proof {
            assert(path@ =~= "/oauth2/authorize?client_id="@ + percent_encoded(encode_utf8(client_id@)) + "&redirect_uri="@
                + percent_encoded(encode_utf8(redirect_uri@)));
        }
        self.private(Method::Get, path.as_str(), None)
    }

    /// The user that an OAuth2 authorization code stands for. This call needs no
    /// token: its caller does not hold one yet.
    pub fn get_user_by_code(&self, code: &str, client_id: &str) -> (r: Result<Request, ApiError>)
        ensures
            public_call(r, Method::Get, "/oauth2/user?code="@ + percent_encoded(encode_utf8(code@)) + "&client_id="@
                + percent_encoded(encode_utf8(client_id@))),
            no_body(r),
    {
        let mut path = query_path("/oauth2/user?code=", code);
        let rest = query_path("&client_id=", client_id);
        path.append(rest.as_str());
        proof {
            assert(path@ =~= "/oauth2/user?code="@ + percent_encoded(encode_utf8(code@)) + "&client_id="@
                + percent_encoded(encode_utf8(client_id@)));
        }
        self.public(Method::Get, path.as_str(), None)
    }

    // search

    /// Users, items and games that match `query`.
    pub fn global_search(&self, query: &str) -> (r: Result<Request, ApiError>)
        ensures
            public_call(r, Method::Get, "/search?q="@ + percent_encoded(encode_utf8(query@))),
            no_body(r),
    {
        let path = query_path("/search?q=", query);
        self.public(Method::Get, path.as_str(), None)
    }
}

} // verus!
