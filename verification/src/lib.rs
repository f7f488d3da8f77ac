//! Decoding, dispatch and storage of analytics messages.
//!
//! A message tells what happened in a media player: the user went to another
//! page, playback started or stopped, or another song came on. It arrives as
//! a byte buffer that holds an envelope: the sender, a timestamp, the kind of
//! the message and one payload.
//!
//! - [`wire`] and [`envelope`] define the layout of the buffer and decode it.
//! - [`kinds`] and [`model`] hold the typed values that a decoded envelope is
//!   turned into.
//! - [`db`] holds the table that the messages are written to, a row for each,
//!   and the stores that keep it.
//! - [`analytics_handler`] takes one buffer through all of this and answers
//!   the sender.

pub mod analytics_handler;
pub mod db;
pub mod envelope;
pub mod kinds;
pub mod model;
pub mod wire;
