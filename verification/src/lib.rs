//! A small role-granting Discord bot: members collect active minutes by
//! writing messages, and get a role once they have enough of them.

pub mod activity;
pub mod commands;
pub mod error;
pub mod gateway;
pub mod id;
pub mod interaction;
pub mod model;
pub mod payload;
pub mod store;
pub mod text;
