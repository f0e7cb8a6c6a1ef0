//! The rules of a page on which calendar sources are managed: adding, editing and removing them,
//! signing in, discovering calendars, choosing colors, and sync settings.
//!
//! The page is a machine. [`page::Page`] is its state; [`page::Page::update`] takes an event and
//! says what the caller has to do. The caller reaches the keyring, the network, the settings store
//! and the screen, and hands the results back as events.

pub mod auth;
pub mod cache;
pub mod color;
pub mod config;
pub mod discovery;
pub mod form;
pub mod labels;
pub mod laws;
pub mod message;
pub mod page;
pub mod secrets;
pub mod sections;
pub mod sources;
pub mod task;
pub mod text;
pub mod update;
pub mod widgets;
