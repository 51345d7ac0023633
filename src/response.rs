//! Responses: from the status and JSON body that came back to a typed result.
//!
//! A status outside 200..=299 is a rejection that carries the status and the
//! body, whatever the body holds. A success whose body is missing or has
//! another shape than the endpoint's is a decoding failure.
use vstd::prelude::*;
use crate::decode::{
    decode_game, decode_games, decode_inventory_items, decode_item, decode_items, decode_lobby,
    decode_oauth2_app, decode_oauth2_apps, decode_search_result, decode_studio, decode_studios,
    decode_trade, decode_trades, decode_user, decode_users, game_of, game_ok, games_of, games_ok,
    inventory_items_of, inventory_items_ok, item_of, item_ok, items_of, items_ok, lobby_of,
    lobby_ok, oauth2_app_of, oauth2_app_ok, oauth2_apps_of, oauth2_apps_ok, search_result_of,
    search_result_ok, studio_of, studio_ok, studios_of, studios_ok, trade_of, trade_ok, trades_of,
    trades_ok, user_of, user_ok, users_of, users_ok,
};
use crate::json::{Field, Json};
use crate::model::{Game, InventoryItem, Item, Lobby, OAuth2App, SearchResult, Studio, Trade, User};

verus! {

/// What the service answered: the status, and the body when it was JSON.
#[derive(Debug)]
pub struct Response {
    pub status: u16,
    pub body: Option<Json>,
}

/// Why a call gave no value.
#[derive(Debug)]
pub enum ApiError {
    /// The call needs a bearer token and the client holds none; nothing was sent.
    Unauthenticated,
    /// An amount was negative; nothing was sent.
    InvalidAmount,
    /// The request did not reach the service or its answer was lost.
    TransportFailure { message: String },
    /// The service answered with a status outside 200..=299.
    RequestRejected { status: u16, body: Option<Json> },
    /// The service's answer did not have the expected shape.
    DecodeFailure,
}

pub open spec fn is_success(status: u16) -> bool {
    200 <= status <= 299
}

/// The error for a status outside 200..=299.
pub open spec fn rejection(resp: Response) -> ApiError {
    ApiError::RequestRejected { status: resp.status, body: resp.body }
}

/// The body of a successful response, or the rejection of another.
fn accepted_body(resp: Response) -> (r: Result<Option<Json>, ApiError>)
    ensures
        is_success(resp.status) ==> r == Ok::<Option<Json>, ApiError>(resp.body),
        !is_success(resp.status) ==> r == Err::<Option<Json>, ApiError>(rejection(resp)),
{
    if 200 <= resp.status && resp.status <= 299 {
        Ok(resp.body)
    } else {
        Err(ApiError::RequestRejected { status: resp.status, body: resp.body })
    }
}

/// The members of a successful response whose body is a JSON object.
pub fn object_response(resp: Response) -> (r: Result<Vec<Field>, ApiError>)
    ensures
        !is_success(resp.status) ==> r == Err::<Vec<Field>, ApiError>(rejection(resp)),
        is_success(resp.status) ==> match resp.body {
            Some(Json::Obj(fs)) => r == Ok::<Vec<Field>, ApiError>(fs),
            _ => r matches Err(ApiError::DecodeFailure),
        },
{
    match accepted_body(resp) {
        Err(e) => Err(e),
        Ok(Some(Json::Obj(fs))) => Ok(fs),
        Ok(_) => Err(ApiError::DecodeFailure),
    }
}

/// The `User` of a successful response.
pub fn user_response(resp: Response) -> (r: Result<User, ApiError>)
    ensures
        !is_success(resp.status) ==> r == Err::<User, ApiError>(rejection(resp)),
        is_success(resp.status) ==> match r {
            Ok(x) => resp.body matches Some(j) && user_of(j, x),
            Err(e) => e is DecodeFailure && !(resp.body matches Some(j) && user_ok(j)),
        },
{
    match accepted_body(resp) {
        Err(e) => Err(e),
        Ok(Some(j)) => match decode_user(&j) {
            Some(x) => Ok(x),
            None => Err(ApiError::DecodeFailure),
        },
        Ok(None) => Err(ApiError::DecodeFailure),
    }
}

/// The `Game` of a successful response.
pub fn game_response(resp: Response) -> (r: Result<Game, ApiError>)
    ensures
        !is_success(resp.status) ==> r == Err::<Game, ApiError>(rejection(resp)),
        is_success(resp.status) ==> match r {
            Ok(x) => resp.body matches Some(j) && game_of(j, x),
            Err(e) => e is DecodeFailure && !(resp.body matches Some(j) && game_ok(j)),
        },
{
    match accepted_body(resp) {
        Err(e) => Err(e),
        Ok(Some(j)) => match decode_game(&j) {
            Some(x) => Ok(x),
            None => Err(ApiError::DecodeFailure),
        },
        Ok(None) => Err(ApiError::DecodeFailure),
    }
}

/// The `Item` of a successful response.
pub fn item_response(resp: Response) -> (r: Result<Item, ApiError>)
    ensures
        !is_success(resp.status) ==> r == Err::<Item, ApiError>(rejection(resp)),
        is_success(resp.status) ==> match r {
            Ok(x) => resp.body matches Some(j) && item_of(j, x),
            Err(e) => e is DecodeFailure && !(resp.body matches Some(j) && item_ok(j)),
        },
{
    match accepted_body(resp) {
        Err(e) => Err(e),
        Ok(Some(j)) => match decode_item(&j) {
            Some(x) => Ok(x),
            None => Err(ApiError::DecodeFailure),
        },
        Ok(None) => Err(ApiError::DecodeFailure),
    }
}

/// The `Lobby` of a successful response.
pub fn lobby_response(resp: Response) -> (r: Result<Lobby, ApiError>)
    ensures
        !is_success(resp.status) ==> r == Err::<Lobby, ApiError>(rejection(resp)),
        is_success(resp.status) ==> match r {
            Ok(x) => resp.body matches Some(j) && lobby_of(j, x),
            Err(e) => e is DecodeFailure && !(resp.body matches Some(j) && lobby_ok(j)),
        },
{
    match accepted_body(resp) {
        Err(e) => Err(e),
        Ok(Some(j)) => match decode_lobby(&j) {
            Some(x) => Ok(x),
            None => Err(ApiError::DecodeFailure),
        },
        Ok(None) => Err(ApiError::DecodeFailure),
    }
}

/// The `Studio` of a successful response.
pub fn studio_response(resp: Response) -> (r: Result<Studio, ApiError>)
    ensures
        !is_success(resp.status) ==> r == Err::<Studio, ApiError>(rejection(resp)),
        is_success(resp.status) ==> match r {
            Ok(x) => resp.body matches Some(j) && studio_of(j, x),
            Err(e) => e is DecodeFailure && !(resp.body matches Some(j) && studio_ok(j)),
        },
{
    match accepted_body(resp) {
        Err(e) => Err(e),
        Ok(Some(j)) => match decode_studio(&j) {
            Some(x) => Ok(x),
            None => Err(ApiError::DecodeFailure),
        },
        Ok(None) => Err(ApiError::DecodeFailure),
    }
}

/// The `Trade` of a successful response.
pub fn trade_response(resp: Response) -> (r: Result<Trade, ApiError>)
    ensures
        !is_success(resp.status) ==> r == Err::<Trade, ApiError>(rejection(resp)),
        is_success(resp.status) ==> match r {
            Ok(x) => resp.body matches Some(j) && trade_of(j, x),
            Err(e) => e is DecodeFailure && !(resp.body matches Some(j) && trade_ok(j)),
        },
{
    match accepted_body(resp) {
        Err(e) => Err(e),
        Ok(Some(j)) => match decode_trade(&j) {
            Some(x) => Ok(x),
            None => Err(ApiError::DecodeFailure),
        },
        Ok(None) => Err(ApiError::DecodeFailure),
    }
}

/// The `SearchResult` of a successful response.
pub fn search_response(resp: Response) -> (r: Result<SearchResult, ApiError>)
    ensures
        !is_success(resp.status) ==> r == Err::<SearchResult, ApiError>(rejection(resp)),
        is_success(resp.status) ==> match r {
            Ok(x) => resp.body matches Some(j) && search_result_of(j, x),
            Err(e) => e is DecodeFailure && !(resp.body matches Some(j) && search_result_ok(j)),
        },
{
    match accepted_body(resp) {
        Err(e) => Err(e),
        Ok(Some(j)) => match decode_search_result(&j) {
            Some(x) => Ok(x),
            None => Err(ApiError::DecodeFailure),
        },
        Ok(None) => Err(ApiError::DecodeFailure),
    }
}

/// The `OAuth2App` of a successful response.
pub fn oauth2_app_response(resp: Response) -> (r: Result<OAuth2App, ApiError>)
    ensures
        !is_success(resp.status) ==> r == Err::<OAuth2App, ApiError>(rejection(resp)),
        is_success(resp.status) ==> match r {
            Ok(x) => resp.body matches Some(j) && oauth2_app_of(j, x),
            Err(e) => e is DecodeFailure && !(resp.body matches Some(j) && oauth2_app_ok(j)),
        },
{
    match accepted_body(resp) {
        Err(e) => Err(e),
        Ok(Some(j)) => match decode_oauth2_app(&j) {
            Some(x) => Ok(x),
            None => Err(ApiError::DecodeFailure),
        },
        Ok(None) => Err(ApiError::DecodeFailure),
    }
}

/// The list of `User` of a successful response, in the order sent.
pub fn users_response(resp: Response) -> (r: Result<Vec<User>, ApiError>)
    ensures
        !is_success(resp.status) ==> r == Err::<Vec<User>, ApiError>(rejection(resp)),
        is_success(resp.status) ==> match r {
            Ok(v) => resp.body matches Some(Json::Arr(a)) && users_of(a@, v@),
            Err(e) => e is DecodeFailure && !(resp.body matches Some(Json::Arr(a)) && users_ok(a@)),
        },
{
    match accepted_body(resp) {
        Err(e) => Err(e),
        Ok(Some(Json::Arr(a))) => match decode_users(&a) {
            Some(v) => Ok(v),
            None => Err(ApiError::DecodeFailure),
        },
        Ok(_) => Err(ApiError::DecodeFailure),
    }
}

/// The list of `Game` of a successful response, in the order sent.
pub fn games_response(resp: Response) -> (r: Result<Vec<Game>, ApiError>)
    ensures
        !is_success(resp.status) ==> r == Err::<Vec<Game>, ApiError>(rejection(resp)),
        is_success(resp.status) ==> match r {
            Ok(v) => resp.body matches Some(Json::Arr(a)) && games_of(a@, v@),
            Err(e) => e is DecodeFailure && !(resp.body matches Some(Json::Arr(a)) && games_ok(a@)),
        },
{
    match accepted_body(resp) {
        Err(e) => Err(e),
        Ok(Some(Json::Arr(a))) => match decode_games(&a) {
            Some(v) => Ok(v),
            None => Err(ApiError::DecodeFailure),
        },
        Ok(_) => Err(ApiError::DecodeFailure),
    }
}

/// The list of `Item` of a successful response, in the order sent.
pub fn items_response(resp: Response) -> (r: Result<Vec<Item>, ApiError>)
    ensures
        !is_success(resp.status) ==> r == Err::<Vec<Item>, ApiError>(rejection(resp)),
        is_success(resp.status) ==> match r {
            Ok(v) => resp.body matches Some(Json::Arr(a)) && items_of(a@, v@),
            Err(e) => e is DecodeFailure && !(resp.body matches Some(Json::Arr(a)) && items_ok(a@)),
        },
{
    match accepted_body(resp) {
        Err(e) => Err(e),
        Ok(Some(Json::Arr(a))) => match decode_items(&a) {
            Some(v) => Ok(v),
            None => Err(ApiError::DecodeFailure),
        },
        Ok(_) => Err(ApiError::DecodeFailure),
    }
}

/// The list of `Studio` of a successful response, in the order sent.
pub fn studios_response(resp: Response) -> (r: Result<Vec<Studio>, ApiError>)
    ensures
        !is_success(resp.status) ==> r == Err::<Vec<Studio>, ApiError>(rejection(resp)),
        is_success(resp.status) ==> match r {
            Ok(v) => resp.body matches Some(Json::Arr(a)) && studios_of(a@, v@),
            Err(e) => e is DecodeFailure && !(resp.body matches Some(Json::Arr(a)) && studios_ok(a@)),
        },
{
    match accepted_body(resp) {
        Err(e) => Err(e),
        Ok(Some(Json::Arr(a))) => match decode_studios(&a) {
            Some(v) => Ok(v),
            None => Err(ApiError::DecodeFailure),
        },
        Ok(_) => Err(ApiError::DecodeFailure),
    }
}

/// The list of `Trade` of a successful response, in the order sent.
pub fn trades_response(resp: Response) -> (r: Result<Vec<Trade>, ApiError>)
    ensures
        !is_success(resp.status) ==> r == Err::<Vec<Trade>, ApiError>(rejection(resp)),
        is_success(resp.status) ==> match r {
            Ok(v) => resp.body matches Some(Json::Arr(a)) && trades_of(a@, v@),
            Err(e) => e is DecodeFailure && !(resp.body matches Some(Json::Arr(a)) && trades_ok(a@)),
        },
{
    match accepted_body(resp) {
        Err(e) => Err(e),
        Ok(Some(Json::Arr(a))) => match decode_trades(&a) {
            Some(v) => Ok(v),
            None => Err(ApiError::DecodeFailure),
        },
        Ok(_) => Err(ApiError::DecodeFailure),
    }
}

/// The list of `InventoryItem` of a successful response, in the order sent.
pub fn inventory_response(resp: Response) -> (r: Result<Vec<InventoryItem>, ApiError>)
    ensures
        !is_success(resp.status) ==> r == Err::<Vec<InventoryItem>, ApiError>(rejection(resp)),
        is_success(resp.status) ==> match r {
            Ok(v) => resp.body matches Some(Json::Arr(a)) && inventory_items_of(a@, v@),
            Err(e) => e is DecodeFailure && !(resp.body matches Some(Json::Arr(a)) && inventory_items_ok(a@)),
        },
{
    match accepted_body(resp) {
        Err(e) => Err(e),
        Ok(Some(Json::Arr(a))) => match decode_inventory_items(&a) {
            Some(v) => Ok(v),
            None => Err(ApiError::DecodeFailure),
        },
        Ok(_) => Err(ApiError::DecodeFailure),
    }
}

/// The list of `OAuth2App` of a successful response, in the order sent.
pub fn oauth2_apps_response(resp: Response) -> (r: Result<Vec<OAuth2App>, ApiError>)
    ensures
        !is_success(resp.status) ==> r == Err::<Vec<OAuth2App>, ApiError>(rejection(resp)),
        is_success(resp.status) ==> match r {
            Ok(v) => resp.body matches Some(Json::Arr(a)) && oauth2_apps_of(a@, v@),
            Err(e) => e is DecodeFailure && !(resp.body matches Some(Json::Arr(a)) && oauth2_apps_ok(a@)),
        },
{
    match accepted_body(resp) {
        Err(e) => Err(e),
        Ok(Some(Json::Arr(a))) => match decode_oauth2_apps(&a) {
            Some(v) => Ok(v),
            None => Err(ApiError::DecodeFailure),
        },
        Ok(_) => Err(ApiError::DecodeFailure),
    }
}

} // verus!
