//! The decision core of a language server's main loop.
//!
//! Every choice the loop makes is a function of this crate from plain values to plain
//! values; the surrounding program reads the channels, runs the handlers and performs
//! the actions that come back.

pub mod action;
pub mod dispatch;
pub mod effects;
pub mod fields;
pub mod laws;
pub mod lsp_error;
pub mod main_loop;
pub mod message;
pub mod method;
pub mod notification;
pub mod outside;
pub mod params;
pub mod pending_requests;
pub mod startup;
pub mod subscriptions;
pub mod text;
pub mod updates;
