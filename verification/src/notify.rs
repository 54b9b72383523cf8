//! The desktop notifications the daemon sends: what they say, how long they
//! stay, and how urgent they are.

use vstd::prelude::*;

verus! {

/// How urgent a notification is.
#[derive(Clone, Copy, Debug, PartialEq, Eq, Structural)]
pub enum Urgency {
    Normal,
    Critical,
}

/// A desktop notification, ready to be sent.
#[derive(Debug)]
pub struct Notice {
    pub summary: String,
    pub body: String,
    /// How long the notification stays before it is dismissed.
    pub timeout_ms: u32,
    /// `None` leaves the urgency to the notification server.
    pub urgency: Option<Urgency>,
}

/// `secs` seconds in milliseconds, saturating at `u32::MAX`.
pub open spec fn timeout_millis(secs: u32) -> u32 {
    if secs * 1000 > u32::MAX { u32::MAX } else { (secs * 1000) as u32 }
}

fn millis(secs: u32) -> (ms: u32)
    ensures
        ms == timeout_millis(secs),
{
    if secs > u32::MAX / 1000 {
        u32::MAX
    } else {
        secs * 1000
    }
}

/// A warning, titled "Work-Life Buddy", critical where `urgent` and normal
/// otherwise, shown for `display_secs` seconds.
pub fn warning_notice(body: &str, display_secs: u32, urgent: bool) -> (n: Notice)
    ensures
        n.summary@ == "Work-Life Buddy"@,
        n.body@ == body@,
        n.timeout_ms == timeout_millis(display_secs),
        n.urgency == Some(if urgent { Urgency::Critical } else { Urgency::Normal }),
{
    Notice {
        summary: "Work-Life Buddy".to_owned(),
        body: body.to_owned(),
        timeout_ms: millis(display_secs),
        urgency: Some(if urgent { Urgency::Critical } else { Urgency::Normal }),
    }
}

/// A transient informational notification, shown for `display_secs` seconds.
pub fn info_notice(summary: &str, body: &str, display_secs: u32) -> (n: Notice)
    ensures
        n.summary@ == summary@,
        n.body@ == body@,
        n.timeout_ms == timeout_millis(display_secs),
        n.urgency is None,
{
    Notice {
        summary: summary.to_owned(),
        body: body.to_owned(),
        timeout_ms: millis(display_secs),
        urgency: None,
    }
}

} // verus!
