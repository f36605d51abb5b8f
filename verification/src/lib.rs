//! A connectionless multi-user text relay.
//!
//! Clients send datagrams to one rendezvous address. The relay keeps an
//! in-memory directory of the users it has seen, keyed by the address they
//! sent from, forwards text to every other user, lets a user tag itself with
//! a one-byte color, and answers look-ups of a user's display name by id.
//!
//! This crate holds the protocol itself: the frame codec, the user directory
//! and the dispatcher that turns one inbound frame into a directory change and
//! a list of outbound frames. It performs no I/O; the caller owns the socket,
//! feeds frames in one at a time and sends what comes back.
pub mod address;
pub mod user;
pub mod directory;
pub mod response;
pub mod message;
pub mod dispatch;
pub mod relay;
pub mod guarantees;
