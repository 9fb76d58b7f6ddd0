//! The error taxonomy and the recovery each kind gets.
//!
//! Errors never tear the program down unless they hit the shared output
//! chain or the relay: a bad file is skipped, a failed assembly build
//! recycles its slot, a runtime error on an assembly just ends the item.

use vstd::prelude::*;

verus! {

/// Where an error arose.
#[derive(Debug, Copy, Clone, PartialEq, Eq, Structural)]
pub enum ErrorKind {
    /// The media probe failed or timed out on a file.
    Probe,
    /// An input assembly could not be constructed.
    AssemblyBuild,
    /// A bus error surfaced on a running assembly.
    AssemblyRuntime,
    /// A bus error on the shared encoder, muxer or sink.
    OutputChain,
    /// The relay sidecar exited with a non-zero status.
    SidecarExit,
    /// The control endpoint could not bind its port at startup.
    Bind,
}

/// What the program does about an error.
#[derive(Debug, Copy, Clone, PartialEq, Eq, Structural)]
pub enum Recovery {
    /// Skip the file and request the next one from the producer.
    SkipFile,
    /// Mark the slot recycling and bind the next path.
    RecycleSlot,
    /// Treat it as the end of the running item and promote the next slot.
    EndOfItem,
    /// Tear the process down.
    Fatal,
}

/// The recovery policy, one row per error kind.
pub fn recovery_for(kind: ErrorKind) -> (r: Recovery)
    ensures
        kind == ErrorKind::Probe ==> r == Recovery::SkipFile,
        kind == ErrorKind::AssemblyBuild ==> r == Recovery::RecycleSlot,
        kind == ErrorKind::AssemblyRuntime ==> r == Recovery::EndOfItem,
        kind == ErrorKind::OutputChain ==> r == Recovery::Fatal,
        kind == ErrorKind::SidecarExit ==> r == Recovery::Fatal,
        kind == ErrorKind::Bind ==> r == Recovery::Fatal,
{
    match kind {
        ErrorKind::Probe => Recovery::SkipFile,
        ErrorKind::AssemblyBuild => Recovery::RecycleSlot,
        ErrorKind::AssemblyRuntime => Recovery::EndOfItem,
        ErrorKind::OutputChain => Recovery::Fatal,
        ErrorKind::SidecarExit => Recovery::Fatal,
        ErrorKind::Bind => Recovery::Fatal,
    }
}

/// The process exit status: zero on a clean shutdown, one when the relay
/// sidecar failed.
pub fn exit_code(sidecar_failed: bool) -> (r: i32)
    ensures
        r == 1 <==> sidecar_failed,
        r == 0 <==> !sidecar_failed,
{
    if sidecar_failed {
        1
    } else {
        0
    }
}

} // verus!
