//! The control surface's decisions: which HTTP requests become commands,
//! and how the buffer-pushing loop reacts to back-pressure and skips.

use vstd::prelude::*;

use crate::switcher::Command;
use crate::text::str_eq;

verus! {

/// What one control request produces: a command for the switcher when the
/// route matches, and the HTTP status of the reply, which is always an
/// empty 200 whatever was asked.
pub fn command_for_request(is_get: bool, path: &str) -> (r: (Option<Command>, u16))
    ensures
        r.0 == Some(Command::Skip) <==> is_get && path@ == "/skip"@,
        r.0 is None <==> !(is_get && path@ == "/skip"@),
        r.1 == 200,
{
    if is_get && str_eq(path, "/skip") {
        (Some(Command::Skip), 200)
    } else {
        (None, 200)
    }
}

/// One step of the loop that hands decoded samples to the output chain.
#[derive(Debug, Copy, Clone, PartialEq, Eq, Structural)]
pub enum PushStep {
    /// The item was skipped or the program is shutting down: stop pushing.
    Stop,
    /// The chain has enough data: hold off.
    Idle,
    /// The chain asked for data: forward the next sample.
    Forward,
}

/// The pushing loop's decision from the abort flag and the output chain's
/// need-data state. This is the decision of a feeder that pulls samples and
/// pushes them by hand; the assembled program instead wires its sinks to
/// its sources directly through callbacks, so only a manual feeder uses it.
pub fn push_gate(abort: bool, need_data: bool) -> (r: PushStep)
    ensures
        r == PushStep::Stop <==> abort,
        r == PushStep::Idle <==> !abort && !need_data,
        r == PushStep::Forward <==> !abort && need_data,
{
    if abort {
        PushStep::Stop
    } else if need_data {
        PushStep::Forward
    } else {
        PushStep::Idle
    }
}

} // verus!
