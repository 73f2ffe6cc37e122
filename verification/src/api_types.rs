//! The request and response bodies of the JSON API, as plain data. The
//! process boundary (HTTP parsing and JSON serialization) lives outside
//! the library and converts to and from these types.

use vstd::prelude::*;

verus! {

pub struct CreateWebsiteInput {
    pub url: String,
}

pub struct CreateUserInput {
    pub username: String,
    pub password: String,
}

pub struct UpdateWebsiteInput {
    pub url: String,
}

pub struct CreateWebsiteOutput {
    pub id: String,
}

pub struct CreateUserOutput {
    pub id: String,
}

pub struct SignInOutput {
    pub jwt: String,
}

pub struct GetWebsiteOutput {
    pub url: String,
}

pub struct WebsiteItem {
    pub id: String,
    pub url: String,
    pub time_added: String,
}

pub struct ListWebsiteOutput {
    pub items: Vec<WebsiteItem>,
}

pub struct WebsiteStatusOutput {
    pub is_up: Option<bool>,
    pub last_checked: Option<String>,
    pub last_down_time: Option<String>,
    pub response_time_ms: Option<i32>,
}

pub struct CheckHistoryItem {
    pub checked_at: String,
    pub is_up: bool,
    pub response_time_ms: Option<i32>,
    pub status_code: Option<i32>,
    pub error_message: Option<String>,
}

pub struct WebsiteHistoryOutput {
    pub items: Vec<CheckHistoryItem>,
}

pub struct CheckNowOutput {
    pub is_up: bool,
    pub response_time_ms: Option<i32>,
    pub status_code: Option<i32>,
    pub error_message: Option<String>,
}

pub struct DeleteWebsiteOutput {
    pub success: bool,
    pub message: String,
}

pub struct HistoryQuery {
    pub limit: Option<i64>,
    pub offset: Option<i64>,
}

} // verus!
