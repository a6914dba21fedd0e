//! Identifiers and tokens: small plain values that name windows, widgets,
//! timers and idle wakeups.

use vstd::prelude::*;

verus! {

/// Identifies one window for its whole life: while it waits for the platform,
/// while it is live, and after it is gone. An id is never given out twice by
/// one [`WindowIdSource`].
#[derive(Clone, Copy, Debug, PartialEq, Eq, Hash, Structural)]
pub struct WindowId {
    pub raw: u64,
}

impl WindowId {
    pub fn new(raw: u64) -> (id: WindowId)
        ensures
            id.raw == raw,
    {
        WindowId { raw }
    }
}

/// Identifies one widget somewhere in some window's tree. This layer never
/// looks inside: it only carries the id to the trees.
#[derive(Clone, Copy, Debug, PartialEq, Eq, Hash, Structural)]
pub struct WidgetId {
    pub raw: u64,
}

impl WidgetId {
    pub fn new(raw: u64) -> (id: WidgetId)
        ensures
            id.raw == raw,
    {
        WidgetId { raw }
    }
}

/// Names a timer that a widget asked for.
#[derive(Clone, Copy, Debug, PartialEq, Eq, Hash, Structural)]
pub struct TimerToken {
    pub raw: u64,
}

/// The value that the platform hands back with an idle callback, so that the
/// handler knows why it was woken.
#[derive(Clone, Copy, Debug, PartialEq, Eq, Hash, Structural)]
pub struct IdleToken {
    pub raw: u32,
}

/// Raw value of the idle token that asks for the command queue to be drained.
pub const RUN_COMMANDS_TOKEN: u32 = 1;

/// Raw value of the idle token that says an external event was submitted.
pub const EXT_EVENT_IDLE_TOKEN: u32 = 2;

impl IdleToken {
    pub fn new(raw: u32) -> (token: IdleToken)
        ensures
            token.raw == raw,
    {
        IdleToken { raw }
    }

    /// The token that asks for the command queue to be drained.
    pub fn run_commands() -> (token: IdleToken)
        ensures
            token.raw == RUN_COMMANDS_TOKEN,
    {
        IdleToken { raw: RUN_COMMANDS_TOKEN }
    }

    /// The token that says an external event was submitted.
    pub fn ext_event() -> (token: IdleToken)
        ensures
            token.raw == EXT_EVENT_IDLE_TOKEN,
    {
        IdleToken { raw: EXT_EVENT_IDLE_TOKEN }
    }
}

/// Hands out window ids in increasing order, so that none comes twice.
pub struct WindowIdSource {
    next: u64,
}

impl WindowIdSource {
    /// The raw value of the next id, or of no id when the source is spent.
    pub closed spec fn upcoming(&self) -> u64 {
        self.next
    }

    pub fn new() -> (source: WindowIdSource)
        ensures
            source.upcoming() == 0,
    {
        WindowIdSource { next: 0 }
    }

    /// A source that goes on from `next`: for an application that takes up
    /// where an earlier run stopped.
    pub fn starting_at(next: u64) -> (source: WindowIdSource)
        ensures
            source.upcoming() == next,
    {
        WindowIdSource { next }
    }

    /// The next id, or `None` once every value but the last has been used.
    /// Each id that comes out is larger than all that came before.
    pub fn next(&mut self) -> (id: Option<WindowId>)
        ensures
            old(self).upcoming() < u64::MAX ==> id == Some(WindowId { raw: old(self).upcoming() })
                && final(self).upcoming() == old(self).upcoming() + 1,
            old(self).upcoming() == u64::MAX ==> id is None && final(self).upcoming() == u64::MAX,
    {
        if self.next < u64::MAX {
            let raw: u64 = self.next;
            self.next = raw + 1;
            Some(WindowId { raw })
        } else {
            None
        }
    }
}

} // verus!
