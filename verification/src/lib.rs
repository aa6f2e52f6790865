//! Verified core of a subscriber notification relay.
//!
//! The relay listens to a chat platform. A chat subscribes with `/start`, the
//! operator's messages are announced to every subscriber, and `/latest` shows
//! the requesting chat the newest posts of a content feed.
//!
//! This crate decides and computes; it performs no input or output. Its
//! caller owns the platform client, the subscriber database and the feed, and
//! drives two small machines: [`update_loop::advance`] over the stream of
//! updates, and a [`dispatch::Dispatcher`] for each message.
//!
//! * [`command`] classifies a message, [`dispatch`] handles its command step
//!   by step, and [`runs`] states what each command's handling does as a
//!   whole.
//! * [`fanout`] plans a broadcast, [`feed`] plans a preview, [`store`] is the
//!   subscriber set, and [`decimal`] is the text form of a chat identity.
//! * [`relay`] handles a message from end to end in one process.
//! * [`config`] checks the configuration and [`health`] answers the liveness
//!   route.

pub mod command;
pub mod config;
pub mod decimal;
pub mod dispatch;
pub mod fanout;
pub mod feed;
pub mod health;
pub mod message;
pub mod relay;
pub mod runs;
pub mod store;
pub mod text;
pub mod update_loop;
