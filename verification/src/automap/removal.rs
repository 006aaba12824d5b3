//! What automap tells the user once it has tried to remove the hole it poked
//! in the router's firewall.

use vstd::prelude::*;
use crate::automap::status::AutomapError;
use crate::decimal::{decimal_text, push_decimal};

verus! {

/// Where a line of output goes.
#[derive(Clone, Copy, Debug, PartialEq, Eq, Structural)]
pub enum OutputStream {
    Stdout,
    Stderr,
}

/// The line to write after the removal of a hole, where to write it, and
/// whether the hole was closed.
pub struct RemovalReport {
    pub stream: OutputStream,
    pub line: String,
    pub closed: bool,
}

/// The line for a closed hole.
pub open spec fn closed_text() -> Seq<char> {
    "Port was closed successfully"@
}

/// The line for a permanent hole that could not be closed on `port`.
pub open spec fn permanent_left_open_text(port: u16) -> Seq<char> {
    "You'll need to close  port "@ + decimal_text(port as nat)
        + " yourself in your router's administration pages. .\nYou may also look into the log. \nSorry...I didn't do it on purpose..."@
}

/// The line for a hole with a lifetime that could not be closed.
pub open spec fn expiring_left_open_text() -> Seq<char> {
    "Operation failed, but don't worry, the hole will disappear on its own in a few seconds."@
}

/// What to tell the user after trying to remove the hole for `port`:
/// success on standard output; on failure, on standard error, either that a
/// permanent hole must be closed by hand or that a hole with a lifetime will
/// go away by itself.
pub fn report_hole_removal(port: u16, permanent_only: bool, deleted: &Result<(), AutomapError>) -> (r: RemovalReport)
    ensures
        r.closed == (deleted is Ok),
        deleted is Ok ==> r.stream == OutputStream::Stdout && r.line@ == closed_text(),
        deleted is Err ==> r.stream == OutputStream::Stderr,
        deleted is Err && permanent_only ==> r.line@ == permanent_left_open_text(port),
        deleted is Err && !permanent_only ==> r.line@ == expiring_left_open_text(),
{
    match deleted {
        Ok(_) => RemovalReport {
            stream: OutputStream::Stdout,
            line: "Port was closed successfully".to_owned(),
            closed: true,
        },
        Err(_) => {
            let line = if permanent_only {
                let mut text = "You'll need to close  port ".to_owned();
                push_decimal(&mut text, port as u128);
                text.append(" yourself in your router's administration pages. .\nYou may also look into the log. \nSorry...I didn't do it on purpose...");
                text
            } else {
                "Operation failed, but don't worry, the hole will disappear on its own in a few seconds.".to_owned()
            };
            RemovalReport { stream: OutputStream::Stderr, line, closed: false }
        },
    }
}

} // verus!
