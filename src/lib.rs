//! `jeep` decodes frames from the CAN bus of a Jeep JL (including the 4xE)
//! into typed [`Event`]s: door and lock states, ignition, remote-control
//! actions, speed, temperatures and so on.
//!
//! A [`Frame`] is an identifier with at most eight payload bytes. The
//! dispatcher [`Event::parse`] routes it by identifier to the decoder of its
//! category and returns one event, or several for the identifiers that carry
//! more than one reading, wrapped in [`events::OneOrMany`]. A frame that does
//! not decode comes back inside an [`events::ParseError`].

mod bytes;
mod text;
pub mod events;
pub mod frame;

pub use events::Event;
pub use frame::Frame;
