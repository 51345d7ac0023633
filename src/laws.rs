//! Properties that span several calls.
use vstd::prelude::*;
use crate::client::{no_body, private_call};
use crate::decode::{
    games_of, games_ok, inventory_items_of, inventory_items_ok, items_of, items_ok, oauth2_apps_of,
    oauth2_apps_ok, studios_of, studios_ok, trade_of, trades_of, trades_ok, users_of, users_ok,
};
use crate::json::Json;
use crate::model::{Game, InventoryItem, Item, OAuth2App, Studio, Trade, User};
use crate::request::{Method, Request};
use crate::response::ApiError;

verus! {

/// An empty JSON array is a valid listing of every kind, and the only list
/// it decodes to is the empty one: a search or listing that found nothing
/// gives an empty list, not an error.
pub proof fn empty_listing(
    users: Seq<User>,
    games: Seq<Game>,
    items: Seq<Item>,
    inventory: Seq<InventoryItem>,
    studios: Seq<Studio>,
    trades: Seq<Trade>,
    apps: Seq<OAuth2App>,
)
    ensures
        users_ok(Seq::<Json>::empty()),
        games_ok(Seq::<Json>::empty()),
        items_ok(Seq::<Json>::empty()),
        inventory_items_ok(Seq::<Json>::empty()),
        studios_ok(Seq::<Json>::empty()),
        trades_ok(Seq::<Json>::empty()),
        oauth2_apps_ok(Seq::<Json>::empty()),
        users_of(Seq::<Json>::empty(), users) ==> users.len() == 0,
        games_of(Seq::<Json>::empty(), games) ==> games.len() == 0,
        items_of(Seq::<Json>::empty(), items) ==> items.len() == 0,
        inventory_items_of(Seq::<Json>::empty(), inventory) ==> inventory.len() == 0,
        studios_of(Seq::<Json>::empty(), studios) ==> studios.len() == 0,
        trades_of(Seq::<Json>::empty(), trades) ==> trades.len() == 0,
        oauth2_apps_of(Seq::<Json>::empty(), apps) ==> apps.len() == 0,
{
}

/// Two calls of `start_or_get_pending_trade` on one client for one
/// counterparty plan the same request; when the service answers both with
/// the same open trade, both calls give that trade's id.
pub proof fn pending_trade_is_stable(
    token: Option<Seq<char>>,
    user_id: Seq<char>,
    first: Result<Request, ApiError>,
    second: Result<Request, ApiError>,
    answer: Json,
    t1: Trade,
    t2: Trade,
)
    requires
        private_call(token, first, Method::Post, "/trades/start-or-latest/"@ + user_id),
        private_call(token, second, Method::Post, "/trades/start-or-latest/"@ + user_id),
        no_body(first),
        no_body(second),
        trade_of(answer, t1),
        trade_of(answer, t2),
    ensures
        first is Ok <==> second is Ok,
        first matches Ok(a) ==> second matches Ok(b) && {
            &&& a.method == b.method
            &&& a.url@ == b.url@
            &&& a.headers@.len() == b.headers@.len()
            &&& forall|i: int|
                0 <= i < a.headers@.len() ==> (#[trigger] a.headers@[i]).name@ == b.headers@[i].name@
                    && a.headers@[i].value@ == b.headers@[i].value@
        },
        t1.id == t2.id,
{
}

} // verus!
