//! Decisions and texts of a chat bot that answers a button press with the
//! next bus arrivals at one stop.
//!
//! - [`handler`]: what to do on each event of a request, and what holds of a
//!   whole request.
//! - [`arrivals`]: arrival estimates and the short texts that show them.
//! - [`report`]: the text of an arrival report.
//! - [`telegram`]: incoming updates and outgoing messages.
//! - [`text`]: decimal text of integers.

pub mod text;
pub mod arrivals;
pub mod report;
pub mod telegram;
pub mod handler;
