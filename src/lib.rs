//! Typed bindings for the Croissant platform's REST service.
//!
//! The library plans each HTTP request (method, URL, headers, JSON body) from a
//! typed call, and turns each response (status and JSON body) back into a typed
//! value or a typed failure. Sending the request is left to the caller.
pub mod json;
pub mod model;
pub mod decode;
pub mod encode;
pub mod request;
pub mod response;
pub mod client;
pub mod laws;

pub use client::CroissantApi;
pub use json::{Field, Json, Number};
pub use model::{
    Game, InventoryItem, Item, Lobby, LobbyUser, OAuth2App, SearchResult, Studio, StudioUser, Trade,
    TradeItem, TradeItemInfo, User,
};
pub use request::{Header, Method, Request};
pub use response::{ApiError, Response};
