//! A shared pixel canvas painted by many clients at once, with a hub that
//! fans every accepted change out to all live sessions.
pub mod color;
pub mod error;
pub mod text;
pub mod event;
pub mod canvas;
pub mod hub;
pub mod session;
