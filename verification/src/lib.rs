//! The core of a chat-mediated auction.
//!
//! Users browse items, place bids that must rise, and are told when they
//! are outbid or an auction closes; admins create categories and items,
//! close auctions and send announcements. This crate holds the rules of
//! all that, as functions from what is known to what is to be done: the
//! chat transport and the database are left to the caller, who performs what a
//! step asks for and hands the answer to the next step.
//!
//! - [`money`] reads and writes amounts of money.
//! - [`state`] and [`store`] hold the conversation of each chat.
//! - [`dialogue`] hands a message to the draft that a chat is in:
//!   [`additem`] for the creation of an item, [`bidding`] for a bid, and
//!   [`admin`] for the drafts that take a single message.
//! - [`router`] reads the payload of an inline button into a typed action,
//!   and [`callbacks`] decides what the action leads to.
//! - [`ledger`] and [`auctions`] accept bids; [`catalog`] finds and makes
//!   categories.
//! - [`notify`] plans notifications and counts deliveries.
//! - [`render`] and [`lists`] write what the chat shows, and [`buttons`]
//!   shows that the router understands every button so drawn.

pub mod additem;
pub mod admin;
pub mod auctions;
pub mod bidding;
pub mod buttons;
pub mod callbacks;
pub mod catalog;
pub mod commands;
pub mod config;
pub mod context;
pub mod dialogue;
pub mod input;
pub mod ledger;
pub mod lists;
pub mod models;
pub mod money;
pub mod notify;
pub mod render;
pub mod router;
pub mod state;
pub mod store;
pub mod text;
