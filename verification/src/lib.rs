//! Verified core of a small group-chat service: join codes, access tokens,
//! the request handlers' decisions, the live-session registry of the chat
//! server, and the state machine of the browser client.

pub mod text;
pub mod join_code;
pub mod token;
pub mod api;
pub mod tables;
pub mod chat;
pub mod client;
pub mod replies;
pub mod login_form;
pub mod registration;
