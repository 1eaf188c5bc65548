//! Client runtime for the open platform API: token lifecycle, request
//! transport decisions, response decoding, push-connection state and event
//! routing, each stated and proved as a contract.

pub mod auth;
pub mod bot;
pub mod connection;
pub mod decode;
pub mod event;
pub mod json;
pub mod request;
pub mod service;
pub mod token;
