use croissant_api::client::CroissantApi;
use croissant_api::json::{Field, Json, Number};
use croissant_api::model::TradeItem;
use croissant_api::request::{Method, Request};
use croissant_api::response::ApiError;

const BASE: &str = "https://croissant-api.fr/api";

fn authed() -> CroissantApi {
    CroissantApi::new(Some("abc".to_string()))
}

fn anonymous() -> CroissantApi {
    CroissantApi::new(None)
}

fn header<'a>(req: &'a Request, name: &str) -> Option<&'a str> {
    req.headers.iter().find(|h| h.name == name).map(|h| h.value.as_str())
}

fn body_members(req: &Request) -> &Vec<Field> {
    match &req.body {
        Some(Json::Obj(fs)) => fs,
        other => panic!("expected an object body, got {:?}", other),
    }
}

#[test]
fn get_me_carries_bearer_token() {
    let req = authed().get_me().unwrap();
    assert_eq!(req.method, Method::Get);
    assert_eq!(req.url, format!("{}/users/@me", BASE));
    assert_eq!(header(&req, "Authorization"), Some("Bearer abc"));
    assert_eq!(header(&req, "Content-Type"), None);
    assert!(req.body.is_none());
}

#[test]
fn public_lookup_has_no_authorization() {
    let req = authed().get_user("u1").unwrap();
    assert_eq!(req.method, Method::Get);
    assert_eq!(req.url, format!("{}/users/u1", BASE));
    assert!(req.headers.is_empty());
    let req = anonymous().get_game("g7").unwrap();
    assert_eq!(req.url, format!("{}/games/g7", BASE));
    assert!(req.headers.is_empty());
}

#[test]
fn search_text_is_percent_encoded() {
    let req = anonymous().search_users("a b&c").unwrap();
    assert_eq!(req.url, format!("{}/users/search?q=a%20b%26c", BASE));
    let req = anonymous().search_games("café").unwrap();
    assert_eq!(req.url, format!("{}/games/search?q=caf%C3%A9", BASE));
    let req = anonymous().search_items("Sword-of_the.Wind~2").unwrap();
    assert_eq!(req.url, format!("{}/items/search?q=Sword-of_the.Wind~2", BASE));
    let req = anonymous().global_search("x/y?").unwrap();
    assert_eq!(req.url, format!("{}/search?q=x%2Fy%3F", BASE));
}

#[test]
fn empty_search_text() {
    let req = anonymous().global_search("").unwrap();
    assert_eq!(req.url, format!("{}/search?q=", BASE));
}

#[test]
fn authenticated_calls_without_token_fail_before_sending() {
    let api = anonymous();
    assert!(!api.has_token());
    let results = vec![
        api.get_me(),
        api.transfer_credits("u2", &Number::Int(5)),
        api.change_username("bob"),
        api.change_password("a", "b", "b"),
        api.get_my_created_games(),
        api.get_my_owned_games(),
        api.create_game(vec![]),
        api.update_game("g", vec![]),
        api.buy_game("g"),
        api.get_my_items(),
        api.create_item(vec![]),
        api.update_item("i", vec![]),
        api.delete_item("i"),
        api.buy_item("i", 1),
        api.sell_item("i", 1),
        api.give_item("i", 1),
        api.consume_item("i", 1),
        api.drop_item("i", 1),
        api.get_my_inventory(),
        api.create_lobby(),
        api.get_my_lobby(),
        api.join_lobby("l"),
        api.leave_lobby("l"),
        api.create_studio("s"),
        api.get_my_studios(),
        api.add_user_to_studio("s", "u"),
        api.remove_user_from_studio("s", "u"),
        api.start_or_get_pending_trade("u"),
        api.get_trade("t"),
        api.get_my_trades(),
        api.add_item_to_trade("t", &TradeItem { item_id: "i".to_string(), amount: 1, metadata: None }),
        api.remove_item_from_trade("t", &TradeItem { item_id: "i".to_string(), amount: 1, metadata: None }),
        api.approve_trade("t"),
        api.cancel_trade("t"),
        api.update_item_metadata("i", "stack", vec![]),
        api.get_oauth2_app("c"),
        api.create_oauth2_app("app", &vec![]),
        api.get_my_oauth2_apps(),
        api.update_oauth2_app("c", "app", &vec![]),
        api.delete_oauth2_app("c"),
        api.authorize("c", "https://example.com/cb"),
    ];
    for r in results {
        assert!(matches!(r, Err(ApiError::Unauthenticated)));
    }
}

#[test]
fn empty_token_counts_as_none() {
    let api = CroissantApi::new(Some(String::new()));
    assert!(!api.has_token());
    assert!(matches!(api.get_me(), Err(ApiError::Unauthenticated)));
    assert!(authed().has_token());
}

#[test]
fn public_calls_work_without_token() {
    let api = anonymous();
    assert!(api.list_games().is_ok());
    assert!(api.list_items().is_ok());
    assert!(api.get_item("i").is_ok());
    assert!(api.get_inventory("u").is_ok());
    assert!(api.get_lobby("l").is_ok());
    assert!(api.get_user_lobby("u").is_ok());
    assert!(api.get_studio("s").is_ok());
    let req = api.verify_user("u1", "key").unwrap();
    assert_eq!(req.method, Method::Post);
    assert_eq!(req.url, format!("{}/users/auth-verification", BASE));
    assert_eq!(header(&req, "Authorization"), None);
    assert_eq!(header(&req, "Content-Type"), Some("application/json"));
    let fs = body_members(&req);
    assert_eq!(fs.len(), 2);
    assert_eq!(fs[0].key, "userId");
    assert!(matches!(&fs[0].value, Json::Str(s) if s == "u1"));
    assert_eq!(fs[1].key, "verificationKey");
    assert!(matches!(&fs[1].value, Json::Str(s) if s == "key"));
}

#[test]
fn negative_amounts_are_refused() {
    let api = authed();
    assert!(matches!(api.buy_item("i", -1), Err(ApiError::InvalidAmount)));
    assert!(matches!(api.sell_item("i", -2), Err(ApiError::InvalidAmount)));
    assert!(matches!(api.give_item("i", i32::MIN), Err(ApiError::InvalidAmount)));
    assert!(matches!(api.consume_item("i", -1), Err(ApiError::InvalidAmount)));
    assert!(matches!(api.drop_item("i", -1), Err(ApiError::InvalidAmount)));
    assert!(matches!(api.transfer_credits("u", &Number::Int(-3)), Err(ApiError::InvalidAmount)));
    assert!(matches!(
        api.transfer_credits("u", &Number::Real("-0.5".to_string())),
        Err(ApiError::InvalidAmount)
    ));
    let item = TradeItem { item_id: "i".to_string(), amount: -4, metadata: None };
    assert!(matches!(api.add_item_to_trade("t", &item), Err(ApiError::InvalidAmount)));
    assert!(matches!(api.remove_item_from_trade("t", &item), Err(ApiError::InvalidAmount)));
    assert!(matches!(anonymous().buy_item("i", -1), Err(ApiError::InvalidAmount)));
}

#[test]
fn zero_amount_is_sent() {
    let req = authed().buy_item("sword", 0).unwrap();
    assert_eq!(req.url, format!("{}/items/buy/sword", BASE));
    let fs = body_members(&req);
    assert_eq!(fs.len(), 1);
    assert_eq!(fs[0].key, "amount");
    assert!(matches!(fs[0].value, Json::Num(Number::Int(0))));
}

#[test]
fn amount_endpoints_paths_and_bodies() {
    let api = authed();
    for (req, verb) in [
        (api.buy_item("i9", 3), "buy"),
        (api.sell_item("i9", 3), "sell"),
        (api.give_item("i9", 3), "give"),
        (api.consume_item("i9", 3), "consume"),
        (api.drop_item("i9", 3), "drop"),
    ] {
        let req = req.unwrap();
        assert_eq!(req.method, Method::Post);
        assert_eq!(req.url, format!("{}/items/{}/i9", BASE, verb));
        assert_eq!(header(&req, "Authorization"), Some("Bearer abc"));
        assert_eq!(header(&req, "Content-Type"), Some("application/json"));
        assert_eq!(req.headers.len(), 2);
        assert!(matches!(body_members(&req)[0].value, Json::Num(Number::Int(3))));
    }
}

#[test]
fn transfer_credits_body() {
    let req = authed().transfer_credits("u2", &Number::Real("12.5".to_string())).unwrap();
    assert_eq!(req.url, format!("{}/users/transfer-credits", BASE));
    let fs = body_members(&req);
    assert_eq!(fs[0].key, "targetUserId");
    assert!(matches!(&fs[0].value, Json::Str(s) if s == "u2"));
    assert_eq!(fs[1].key, "amount");
    assert!(matches!(&fs[1].value, Json::Num(Number::Real(t)) if t == "12.5"));
}

#[test]
fn change_password_body() {
    let req = authed().change_password("old", "new", "new2").unwrap();
    assert_eq!(req.url, format!("{}/users/change-password", BASE));
    let fs = body_members(&req);
    let keys: Vec<&str> = fs.iter().map(|f| f.key.as_str()).collect();
    assert_eq!(keys, vec!["oldPassword", "newPassword", "confirmPassword"]);
    assert!(matches!(&fs[2].value, Json::Str(s) if s == "new2"));
    let req = authed().change_username("bob").unwrap();
    assert_eq!(req.url, format!("{}/users/change-username", BASE));
    assert_eq!(body_members(&req)[0].key, "username");
}

#[test]
fn game_and_item_data_bodies() {
    let data = vec![Field { key: "name".to_string(), value: Json::Str("Quest".to_string()) }];
    let req = authed().update_game("g1", data).unwrap();
    assert_eq!(req.method, Method::Put);
    assert_eq!(req.url, format!("{}/games/g1", BASE));
    let fs = body_members(&req);
    assert_eq!(fs.len(), 1);
    assert_eq!(fs[0].key, "name");
    let req = authed().create_item(vec![]).unwrap();
    assert_eq!(req.url, format!("{}/items/create", BASE));
    assert!(body_members(&req).is_empty());
    let req = authed().delete_item("i1").unwrap();
    assert_eq!(req.method, Method::Delete);
    assert_eq!(req.url, format!("{}/items/delete/i1", BASE));
    let req = authed().buy_game("g1").unwrap();
    assert_eq!(req.url, format!("{}/games/g1/buy", BASE));
    assert!(req.body.is_none());
}

#[test]
fn lobby_and_studio_paths() {
    let api = authed();
    assert_eq!(api.join_lobby("l1").unwrap().url, format!("{}/lobbies/l1/join", BASE));
    assert_eq!(api.leave_lobby("l1").unwrap().url, format!("{}/lobbies/l1/leave", BASE));
    assert_eq!(api.get_my_lobby().unwrap().url, format!("{}/lobbies/user/@me", BASE));
    assert_eq!(api.get_user_lobby("u").unwrap().url, format!("{}/lobbies/user/u", BASE));
    let req = api.add_user_to_studio("s1", "u2").unwrap();
    assert_eq!(req.url, format!("{}/studios/s1/add-user", BASE));
    assert!(matches!(&body_members(&req)[0].value, Json::Str(s) if s == "u2"));
    let req = api.create_studio("Studio X").unwrap();
    assert_eq!(body_members(&req)[0].key, "studioName");
}

#[test]
fn trade_item_body() {
    let item = TradeItem { item_id: "i5".to_string(), amount: 2, metadata: None };
    let req = authed().add_item_to_trade("t1", &item).unwrap();
    assert_eq!(req.url, format!("{}/trades/t1/add-item", BASE));
    let fs = body_members(&req);
    assert_eq!(fs.len(), 1);
    assert_eq!(fs[0].key, "tradeItem");
    match &fs[0].value {
        Json::Obj(inner) => {
            assert_eq!(inner[0].key, "itemId");
            assert!(matches!(&inner[0].value, Json::Str(s) if s == "i5"));
            assert_eq!(inner[1].key, "amount");
            assert!(matches!(inner[1].value, Json::Num(Number::Int(2))));
        },
        other => panic!("unexpected {:?}", other),
    }
    let req = authed().approve_trade("t1").unwrap();
    assert_eq!(req.method, Method::Put);
    assert_eq!(req.url, format!("{}/trades/t1/approve", BASE));
}

#[test]
fn pending_trade_requests_agree() {
    let api = authed();
    let a = api.start_or_get_pending_trade("u2").unwrap();
    let b = api.start_or_get_pending_trade("u2").unwrap();
    assert_eq!(a.method, Method::Post);
    assert_eq!(a.url, format!("{}/trades/start-or-latest/u2", BASE));
    assert_eq!(a.method, b.method);
    assert_eq!(a.url, b.url);
    assert_eq!(a.headers, b.headers);
}

#[test]
fn trade_item_metadata_is_sent() {
    let meta = vec![Field { key: "level".to_string(), value: Json::Num(Number::Int(3)) }];
    let item = TradeItem { item_id: "i5".to_string(), amount: 1, metadata: Some(meta) };
    let req = authed().remove_item_from_trade("t1", &item).unwrap();
    assert_eq!(req.url, format!("{}/trades/t1/remove-item", BASE));
    match &body_members(&req)[0].value {
        Json::Obj(inner) => {
            assert_eq!(inner.len(), 3);
            assert_eq!(inner[2].key, "metadata");
            assert!(matches!(&inner[2].value, Json::Obj(m) if m[0].key == "level"));
        },
        other => panic!("unexpected {:?}", other),
    }
}

#[test]
fn update_item_metadata_body() {
    let meta = vec![Field { key: "color".to_string(), value: Json::Str("red".to_string()) }];
    let req = authed().update_item_metadata("i1", "stack-7", meta).unwrap();
    assert_eq!(req.method, Method::Put);
    assert_eq!(req.url, format!("{}/items/update-metadata/i1", BASE));
    let fs = body_members(&req);
    assert_eq!(fs[0].key, "uniqueId");
    assert!(matches!(&fs[0].value, Json::Str(s) if s == "stack-7"));
    assert_eq!(fs[1].key, "metadata");
}

#[test]
fn oauth2_app_requests() {
    let api = authed();
    let urls = vec!["https://a.example/cb".to_string(), "https://b.example/cb".to_string()];
    let req = api.create_oauth2_app("My app", &urls).unwrap();
    assert_eq!(req.method, Method::Post);
    assert_eq!(req.url, format!("{}/oauth2/app", BASE));
    let fs = body_members(&req);
    assert_eq!(fs[0].key, "name");
    assert_eq!(fs[1].key, "redirect_urls");
    assert!(matches!(&fs[1].value, Json::Arr(a) if a.len() == 2 && matches!(&a[1], Json::Str(u) if u == "https://b.example/cb")));
    let req = api.update_oauth2_app("cid", "Renamed", &urls).unwrap();
    assert_eq!(req.method, Method::Patch);
    assert_eq!(req.url, format!("{}/oauth2/app/cid", BASE));
    assert_eq!(api.delete_oauth2_app("cid").unwrap().method, Method::Delete);
    assert_eq!(api.get_my_oauth2_apps().unwrap().url, format!("{}/oauth2/apps", BASE));
    assert_eq!(api.get_oauth2_app("cid").unwrap().url, format!("{}/oauth2/app/cid", BASE));
}

#[test]
fn oauth2_authorize_and_code_exchange() {
    let req = authed().authorize("cid", "https://a.example/cb?x=1").unwrap();
    assert_eq!(
        req.url,
        format!("{}/oauth2/authorize?client_id=cid&redirect_uri=https%3A%2F%2Fa.example%2Fcb%3Fx%3D1", BASE)
    );
    assert_eq!(header(&req, "Authorization"), Some("Bearer abc"));
    let req = anonymous().get_user_by_code("c o+de", "cid").unwrap();
    assert_eq!(req.method, Method::Get);
    assert_eq!(req.url, format!("{}/oauth2/user?code=c%20o%2Bde&client_id=cid", BASE));
    assert!(req.headers.is_empty());
}
