use vstd::prelude::*;

verus! {

/// Lifecycle state of the synchronization loop, written only by the loop
/// itself and read by the administrative control surface.
///
/// `Running` is the initial state. `Reindexing` is held only while a
/// forced commit requested over the command channel is in flight; the loop
/// returns to the state it held before. `Stopping` is terminal: once
/// entered, the loop stops admitting work and exits.
#[derive(Clone, Copy, Debug, PartialEq, Eq, Structural)]
pub enum IndexerStatus {
    Running,
    Paused,
    Reindexing,
    Stopping,
}

/// Administrative directive delivered to the loop over the bounded,
/// capacity-one command channel. At most one is ever in flight, so the
/// loop applies each one, and makes its effect visible in the status,
/// before a sender can issue the next.
#[derive(Clone, Copy, Debug, PartialEq, Eq, Structural)]
pub enum Command {
    Pause,
    Resume,
    ForceSync,
    Shutdown,
}

} // verus!
