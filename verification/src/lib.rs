//! Verified core of an X API v2 client: URL construction, auth-scheme
//! selection, the multi-app token store, OAuth1/OAuth2 request logic, media
//! upload planning and the small parsers around them.

pub mod error;
pub mod request;
pub mod text;
pub mod url;
pub mod auth_matrix;
pub mod order;
pub mod store;
pub mod select;
pub mod crypto;
pub mod weburl;
pub mod oauth1;
pub mod callback;
pub mod transport;
pub mod oauth2;
pub mod pending;
pub mod auth;
pub mod media;
pub mod shortcuts;
pub mod endpoints;
pub mod picker;
pub mod builder;
pub mod format;
pub mod webhook;
