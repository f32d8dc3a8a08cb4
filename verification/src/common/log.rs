//! Where the messages that OpenTok logs go.

use crate::text::contains;
use crate::text::occurs;
use vstd::prelude::*;

verus! {

/// The severity of a logged message.
#[derive(Clone, Copy, Debug, PartialEq, Eq, Structural)]
pub enum LogLevel {
    Error,
    Warning,
    Debug,
}

/// The severity with which a message that OpenTok logs is passed on. The complaint about a
/// missing proxy check is not passed on at all.
pub open spec fn log_level(message: Seq<char>) -> Option<LogLevel> {
    if occurs(message, "ERROR"@) {
        if occurs(message, "Could not check wether there is a proxy"@) {
            None
        } else {
            Some(LogLevel::Error)
        }
    } else if occurs(message, "WARN"@) {
        Some(LogLevel::Warning)
    } else {
        Some(LogLevel::Debug)
    }
}

/// The severity with which a message that OpenTok logs is passed on, if it is.
pub fn pipe_opentok_to_gst_log(message: &str) -> (level: Option<LogLevel>)
    ensures
        level == log_level(message@),
{
    if contains(message, "ERROR") {
        if contains(message, "Could not check wether there is a proxy") {
            return None;
        }
        Some(LogLevel::Error)
    } else if contains(message, "WARN") {
        Some(LogLevel::Warning)
    } else {
        Some(LogLevel::Debug)
    }
}

} // verus!
