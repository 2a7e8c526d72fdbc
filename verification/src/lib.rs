//! Interaction engine of a small chat panel: widgets laid out in bars, pointer
//! hit-testing, hover and click propagation, clamped scrolling, and the
//! bookkeeping around clicks that start a network request.

pub mod bar;
pub mod button;
pub mod chat;
pub mod chat_client;
pub mod contacts;
pub mod dispatcher;
pub mod geometry;
pub mod layout;
pub mod render;
pub mod scroll;
pub mod session;
pub mod text;
