//! Turns the messages of a handheld motion sensor into pointer actions.
//!
//! A message is a small JSON envelope. [`event::decode`] reads it into an
//! [`event::Event`], [`motion::map_motion`] turns an orientation sample into a
//! cursor target behind a deadband, and [`control::handle_message`] joins the
//! two into one decision per message. The host performs the decided action;
//! nothing here touches a socket or the pointer.
//!
//! Rates travel through the library as IEEE 754 binary64 encodings held in
//! `u64`, and [`binary64`] scales and rounds them in exact integer arithmetic.
//! [`json`] is the boundary to the JSON parser, [`text`] compares string
//! slices, and [`replay`] splits the lines of a recording of samples.

pub mod binary64;
pub mod control;
pub mod event;
pub mod json;
pub mod motion;
pub mod replay;
pub mod text;
