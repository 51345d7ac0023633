use croissant_api::decode::{decode_game, decode_inventory_item, decode_trade_item, decode_user};
use croissant_api::encode::{encode_game, encode_inventory_item, encode_trade, encode_user};
use croissant_api::json::{Field, Json, Number};
use croissant_api::response::{
    games_response, inventory_response, item_response, items_response, lobby_response,
    object_response, search_response, studio_response, studios_response, trade_response,
    trades_response, user_response, users_response, game_response, oauth2_app_response,
    oauth2_apps_response, ApiError, Response,
};

fn s(x: &str) -> Json {
    Json::Str(x.to_string())
}

fn obj(members: Vec<(&str, Json)>) -> Json {
    Json::Obj(members.into_iter().map(|(k, v)| Field { key: k.to_string(), value: v }).collect())
}

fn ok(body: Json) -> Response {
    Response { status: 200, body: Some(body) }
}

fn user_fixture() -> Json {
    obj(vec![
        ("userId", s("u1")),
        ("username", s("alice")),
        ("verified", Json::Bool(true)),
        ("isStudio", Json::Bool(false)),
        ("admin", Json::Bool(false)),
    ])
}

fn game_fixture() -> Json {
    obj(vec![
        ("gameId", s("g1")),
        ("name", s("Quest")),
        ("description", s("A game")),
        ("owner_id", s("u1")),
        ("price", Json::Num(Number::Real("9.99".to_string()))),
        ("showInStore", Json::Bool(true)),
        ("rating", Json::Num(Number::Int(4))),
        ("multiplayer", Json::Bool(false)),
        ("genre", s("RPG")),
        ("website", Json::Null),
        ("extra", s("ignored")),
    ])
}

fn item_fixture(id: &str) -> Json {
    obj(vec![
        ("itemId", s(id)),
        ("name", s("Sword")),
        ("description", s("Sharp")),
        ("price", Json::Num(Number::Int(10))),
        ("owner", s("u1")),
        ("showInStore", Json::Bool(true)),
        ("iconHash", s("h")),
        ("deleted", Json::Bool(false)),
    ])
}

fn trade_fixture() -> Json {
    let info = obj(vec![
        ("itemId", s("i1")),
        ("name", s("Sword")),
        ("description", s("Sharp")),
        ("iconHash", s("h")),
        ("amount", Json::Num(Number::Int(2))),
    ]);
    obj(vec![
        ("id", s("t1")),
        ("fromUserId", s("u1")),
        ("toUserId", s("u2")),
        ("fromUserItems", Json::Arr(vec![info])),
        ("toUserItems", Json::Arr(vec![])),
        ("approvedFromUser", Json::Bool(false)),
        ("approvedToUser", Json::Bool(false)),
        ("status", s("pending")),
        ("createdAt", s("2024-01-01")),
        ("updatedAt", s("2024-01-02")),
    ])
}

#[test]
fn get_me_scenario_decodes_user() {
    let user = user_response(ok(user_fixture())).unwrap();
    assert_eq!(user.user_id, "u1");
    assert_eq!(user.username, "alice");
    assert!(user.verified);
    assert_eq!(user.email, None);
    assert_eq!(user.balance, None);
    assert_eq!(user.studios, None);
}

#[test]
fn not_found_is_rejected() {
    let body = obj(vec![("message", s("Not found"))]);
    match item_response(Response { status: 404, body: Some(body) }) {
        Err(ApiError::RequestRejected { status, body }) => {
            assert_eq!(status, 404);
            assert!(matches!(body, Some(Json::Obj(_))));
        },
        other => panic!("unexpected {:?}", other),
    }
    assert!(matches!(
        game_response(Response { status: 404, body: None }),
        Err(ApiError::RequestRejected { status: 404, body: None })
    ));
    assert!(matches!(
        user_response(Response { status: 404, body: Some(user_fixture()) }),
        Err(ApiError::RequestRejected { status: 404, .. })
    ));
}

#[test]
fn status_bounds() {
    assert!(matches!(
        users_response(Response { status: 199, body: Some(Json::Arr(vec![])) }),
        Err(ApiError::RequestRejected { status: 199, .. })
    ));
    assert!(users_response(Response { status: 299, body: Some(Json::Arr(vec![])) }).is_ok());
    assert!(matches!(
        users_response(Response { status: 300, body: Some(Json::Arr(vec![])) }),
        Err(ApiError::RequestRejected { status: 300, .. })
    ));
}

#[test]
fn empty_listings_decode_to_empty_lists() {
    assert!(users_response(ok(Json::Arr(vec![]))).unwrap().is_empty());
    assert!(games_response(ok(Json::Arr(vec![]))).unwrap().is_empty());
    assert!(items_response(ok(Json::Arr(vec![]))).unwrap().is_empty());
    assert!(inventory_response(ok(Json::Arr(vec![]))).unwrap().is_empty());
    assert!(studios_response(ok(Json::Arr(vec![]))).unwrap().is_empty());
    assert!(trades_response(ok(Json::Arr(vec![]))).unwrap().is_empty());
    let found = search_response(ok(obj(vec![
        ("users", Json::Arr(vec![])),
        ("items", Json::Arr(vec![])),
        ("games", Json::Arr(vec![])),
    ])))
    .unwrap();
    assert!(found.users.is_empty() && found.items.is_empty() && found.games.is_empty());
}

#[test]
fn listing_keeps_order() {
    let items = items_response(ok(Json::Arr(vec![item_fixture("a"), item_fixture("b")]))).unwrap();
    assert_eq!(items.len(), 2);
    assert_eq!(items[0].item_id, "a");
    assert_eq!(items[1].item_id, "b");
    assert_eq!(items[0].price, Number::Int(10));
}

#[test]
fn wrong_shapes_are_decode_failures() {
    assert!(matches!(user_response(ok(s("nope"))), Err(ApiError::DecodeFailure)));
    assert!(matches!(user_response(Response { status: 200, body: None }), Err(ApiError::DecodeFailure)));
    let missing_name = obj(vec![("userId", s("u1"))]);
    assert!(matches!(user_response(ok(missing_name)), Err(ApiError::DecodeFailure)));
    let bad_optional = obj(vec![
        ("userId", s("u1")),
        ("username", s("alice")),
        ("verified", Json::Bool(true)),
        ("isStudio", Json::Bool(false)),
        ("admin", Json::Bool(false)),
        ("email", Json::Bool(true)),
    ]);
    assert!(decode_user(&bad_optional).is_none());
    assert!(matches!(games_response(ok(obj(vec![]))), Err(ApiError::DecodeFailure)));
    assert!(matches!(
        items_response(ok(Json::Arr(vec![item_fixture("a"), s("x")]))),
        Err(ApiError::DecodeFailure)
    ));
    assert!(matches!(object_response(ok(Json::Arr(vec![]))), Err(ApiError::DecodeFailure)));
}

#[test]
fn object_response_keeps_members() {
    let fs = object_response(ok(obj(vec![("message", s("done")), ("n", Json::Num(Number::Int(1)))])))
        .unwrap();
    assert_eq!(fs.len(), 2);
    assert_eq!(fs[0].key, "message");
    assert!(matches!(
        object_response(Response { status: 500, body: None }),
        Err(ApiError::RequestRejected { status: 500, body: None })
    ));
}

#[test]
fn integer_amounts_must_fit() {
    let base = |amount: Json| {
        obj(vec![("itemId", s("i")), ("amount", amount)])
    };
    assert_eq!(decode_trade_item(&base(Json::Num(Number::Int(2147483647)))).unwrap().amount, i32::MAX);
    assert_eq!(decode_trade_item(&base(Json::Num(Number::Int(-2147483648)))).unwrap().amount, i32::MIN);
    assert!(decode_trade_item(&base(Json::Num(Number::Int(2147483648)))).is_none());
    assert!(decode_trade_item(&base(Json::Num(Number::Real("1.5".to_string())))).is_none());
    let inv = obj(vec![
        ("itemId", s("i")),
        ("name", s("n")),
        ("description", s("d")),
        ("amount", Json::Num(Number::Int(3))),
    ]);
    let held = decode_inventory_item(&inv).unwrap();
    assert_eq!(held.amount, 3);
    assert_eq!(held.icon_hash, None);
    assert!(held.metadata.is_none());
}

#[test]
fn inventory_metadata_round_trip() {
    let stack = obj(vec![
        ("itemId", s("i")),
        ("name", s("Potion")),
        ("description", s("Heals")),
        ("amount", Json::Num(Number::Int(1))),
        ("metadata", obj(vec![("level", Json::Num(Number::Int(3))), ("tags", Json::Arr(vec![s("rare")]))])),
    ]);
    let held = inventory_response(ok(Json::Arr(vec![stack]))).unwrap();
    let meta = held[0].metadata.as_ref().unwrap();
    assert_eq!(meta.len(), 2);
    assert_eq!(meta[0].key, "level");
    assert!(matches!(meta[0].value, Json::Num(Number::Int(3))));
    assert!(matches!(&meta[1].value, Json::Arr(a) if matches!(&a[0], Json::Str(t) if t == "rare")));
    let again = decode_inventory_item(&encode_inventory_item(&held[0])).unwrap();
    assert_eq!(again.amount, 1);
    assert_eq!(again.metadata.as_ref().unwrap()[1].key, "tags");
    let not_object = obj(vec![
        ("itemId", s("i")),
        ("name", s("Potion")),
        ("description", s("Heals")),
        ("amount", Json::Num(Number::Int(1))),
        ("metadata", s("x")),
    ]);
    assert!(decode_inventory_item(&not_object).is_none());
}

#[test]
fn game_round_trip() {
    let game = decode_game(&game_fixture()).unwrap();
    assert_eq!(game.genre.as_deref(), Some("RPG"));
    assert_eq!(game.website, None);
    assert_eq!(game.download_link, None);
    let encoded = encode_game(&game);
    match &encoded {
        Json::Obj(fs) => {
            assert_eq!(fs.len(), 19);
            assert_eq!(fs[0].key, "gameId");
            assert!(matches!(&fs[0].value, Json::Str(v) if v == "g1"));
            assert!(fs.iter().all(|f| f.key != "extra"));
            assert!(fs.iter().any(|f| f.key == "download_link" && matches!(f.value, Json::Null)));
        },
        other => panic!("unexpected {:?}", other),
    }
    assert_eq!(decode_game(&encoded).unwrap(), game);
}

#[test]
fn user_round_trip_with_nested_lists() {
    let fixture = obj(vec![
        ("userId", s("u1")),
        ("username", s("alice")),
        ("email", s("a@example.com")),
        ("balance", Json::Num(Number::Real("10.5".to_string()))),
        ("verified", Json::Bool(true)),
        ("isStudio", Json::Bool(false)),
        ("admin", Json::Bool(false)),
        ("roles", Json::Arr(vec![s("player"), s("tester")])),
        ("ownedItems", Json::Arr(vec![item_fixture("i1")])),
        ("createdGames", Json::Arr(vec![game_fixture()])),
    ]);
    let user = decode_user(&fixture).unwrap();
    assert_eq!(user.roles, Some(vec!["player".to_string(), "tester".to_string()]));
    assert_eq!(user.owned_items.as_ref().unwrap()[0].item_id, "i1");
    assert_eq!(user.created_games.as_ref().unwrap()[0].game_id, "g1");
    let again = decode_user(&encode_user(&user)).unwrap();
    assert_eq!(again.user_id, user.user_id);
    assert_eq!(again.email, user.email);
    assert_eq!(again.balance, user.balance);
    assert_eq!(again.roles, user.roles);
    assert_eq!(again.owned_items, user.owned_items);
    assert_eq!(again.created_games, user.created_games);
    assert!(again.inventory.is_none() && again.studios.is_none());
}

#[test]
fn trade_round_trip() {
    let trade = trade_response(ok(trade_fixture())).unwrap();
    assert_eq!(trade.id, "t1");
    assert_eq!(trade.from_user_items.len(), 1);
    assert_eq!(trade.from_user_items[0].amount, 2);
    assert!(trade.to_user_items.is_empty());
    let again = trade_response(ok(encode_trade(&trade))).unwrap();
    assert_eq!(again, trade);
}

#[test]
fn pending_trade_answer_gives_same_id() {
    let first = trade_response(ok(trade_fixture())).unwrap();
    let second = trade_response(ok(trade_fixture())).unwrap();
    assert_eq!(first.id, second.id);
}

#[test]
fn lobby_and_studio_decode() {
    let member = obj(vec![
        ("username", s("bob")),
        ("user_id", s("u2")),
        ("verified", Json::Bool(false)),
    ]);
    let lobby = lobby_response(ok(obj(vec![("lobbyId", s("l1")), ("users", Json::Arr(vec![member]))])))
        .unwrap();
    assert_eq!(lobby.lobby_id, "l1");
    assert_eq!(lobby.users[0].user_id, "u2");
    assert_eq!(lobby.users[0].steam_id, None);
    let studio = studio_response(ok(obj(vec![
        ("user_id", s("s1")),
        ("username", s("Studio")),
        ("verified", Json::Bool(true)),
        ("admin_id", s("u1")),
        ("apiKey", s("k")),
    ])))
    .unwrap();
    assert_eq!(studio.api_key.as_deref(), Some("k"));
    assert_eq!(studio.users, None);
    assert_eq!(studio.is_admin, None);
}

#[test]
fn oauth2_apps_decode() {
    let app = obj(vec![
        ("client_id", s("cid")),
        ("client_secret", s("secret")),
        ("name", s("My app")),
        ("redirect_urls", Json::Arr(vec![s("https://a.example/cb")])),
    ]);
    let decoded = oauth2_app_response(ok(app)).unwrap();
    assert_eq!(decoded.client_id, "cid");
    assert_eq!(decoded.redirect_urls, vec!["https://a.example/cb".to_string()]);
    assert!(oauth2_apps_response(ok(Json::Arr(vec![]))).unwrap().is_empty());
    let bad = obj(vec![
        ("client_id", s("cid")),
        ("client_secret", s("secret")),
        ("name", s("My app")),
        ("redirect_urls", Json::Arr(vec![Json::Num(Number::Int(1))])),
    ]);
    assert!(matches!(oauth2_app_response(ok(bad)), Err(ApiError::DecodeFailure)));
}
