//! The event classifier: maps a message's origin, timestamp and text to an
//! eligibility outcome.

use crate::localtime::{in_window, in_window_at};
use crate::text::{contains_marker, marker_present};
use vstd::prelude::*;

verus! {

/// Eligibility of one inbound message.
#[derive(Clone, Copy, Debug, PartialEq, Eq, Structural)]
pub enum Classification {
    /// The message is discarded: it came from the tracker itself, or it is
    /// out of the window and carries no marker.
    NoOp,
    /// Out of the window with the marker present.
    WeedCrime,
    /// Inside the window: the chain tracker decides the final event kind.
    InWindow,
}

/// Classification rule, checked in order: messages from the tracker itself
/// are discarded; in-window messages are delegated to the chain tracker;
/// out-of-window messages are a crime when the marker is present and are
/// ignored otherwise.
pub open spec fn spec_classify(
    is_from_self: bool,
    ts: int,
    offset: int,
    marker: bool,
) -> Classification {
    if is_from_self {
        Classification::NoOp
    } else if in_window_at(ts, offset) {
        Classification::InWindow
    } else if marker {
        Classification::WeedCrime
    } else {
        Classification::NoOp
    }
}

/// Classifies a message from its timestamp, the community's stored offset,
/// its text and whether the tracker itself wrote it.
pub fn classify(is_from_self: bool, ts: i64, offset: i32, text: &str) -> (c: Classification)
    ensures
        c == spec_classify(is_from_self, ts as int, offset as int, marker_present(text@)),
{
    if is_from_self {
        return Classification::NoOp;
    }
    if in_window(ts, offset) {
        return Classification::InWindow;
    }
    if contains_marker(text) {
        Classification::WeedCrime
    } else {
        Classification::NoOp
    }
}

} // verus!
