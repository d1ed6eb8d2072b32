//! Decision logic of a Telegram bot that walks an authorised user through a
//! "user story" wizard and files the result as a GitHub issue.

pub mod auth;
pub mod bot;
pub mod github;
pub mod keyboard;
pub mod laws;
pub mod text;


