//! Verified core of a small REST client front end: URL construction,
//! request headers, HTTP status classification, and the state machines of
//! the login element, the paginated resource view and the host monitor.

pub mod status;
pub mod text;
pub mod url;
pub mod request;
pub mod service;
pub mod json;
pub mod login;
pub mod paginated;
pub mod rest;
pub mod monitor;
