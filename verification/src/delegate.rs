//! The delegate: an optional hook of the application that sees every event
//! before the windows do, and hears of windows that come and go.

use vstd::prelude::*;
use crate::command::{Command, Target};
use crate::event::Event;
use crate::ids::WindowId;
use crate::queue::CommandQueue;

verus! {

/// What a delegate is handed with each call: the window that the call is
/// about, and a place to submit commands.
pub struct DelegateCtx {
    source_id: WindowId,
    command_queue: CommandQueue,
}

impl DelegateCtx {
    /// The window that the call is about.
    pub closed spec fn source(&self) -> WindowId {
        self.source_id
    }

    /// The commands submitted so far, in their order.
    pub closed spec fn commands(&self) -> Seq<(Target, Command)> {
        self.command_queue@
    }

    pub fn new(source_id: WindowId) -> (ctx: DelegateCtx)
        ensures
            ctx.source() == source_id,
            ctx.commands() == Seq::<(Target, Command)>::empty(),
    {
        DelegateCtx { source_id, command_queue: CommandQueue::new() }
    }

    pub fn source_id(&self) -> (id: WindowId)
        ensures
            id == self.source(),
    {
        self.source_id
    }

    /// Submits a command. Without a target it goes to the window that the
    /// call is about.
    pub fn submit_command(&mut self, command: Command, target: Option<Target>)
        ensures
            final(self).source() == old(self).source(),
            final(self).commands() == old(self).commands().push(
                (Target::resolved(target, old(self).source()), command),
            ),
    {
        let target = Target::resolve(target, self.source_id);
        self.command_queue.enqueue(target, command);
    }

    /// Moves what was submitted behind the commands that wait in `queue`.
    pub fn drain_into(&mut self, queue: &mut CommandQueue)
        ensures
            final(self).source() == old(self).source(),
            final(self).commands() == Seq::<(Target, Command)>::empty(),
            final(queue)@ == old(queue)@ + old(self).commands(),
    {
        queue.append(&mut self.command_queue);
    }
}

/// What a delegate does with an event.
pub ghost struct DelegateEventOutcome<D, T> {
    /// The delegate after the call.
    pub delegate: D,
    /// The application data after the call.
    pub data: T,
    /// The event that goes on to the windows, or `None` when the delegate
    /// has swallowed it.
    pub event: Option<Event>,
    /// The commands that the delegate submitted, in their order.
    pub commands: Seq<(Target, Command)>,
}

/// What a delegate does when it hears that a window came or went.
pub ghost struct DelegateOutcome<D, T> {
    pub delegate: D,
    pub data: T,
    pub commands: Seq<(Target, Command)>,
}

/// The application's hook into the dispatch. `T` is the application data, `V`
/// the environment.
///
/// As with the widget trees, each method has a model beside it that names
/// what the method does, and this crate's contracts speak of a delegate
/// through the models alone. Each call gets a context that holds no command
/// yet; what the delegate submits there is taken over behind the commands that
/// wait already.
pub trait AppDelegate<T, V>: Sized {
    /// Model of [`AppDelegate::event`].
    open spec fn event_outcome(self, source: WindowId, event: Event, data: T, env: V)
        -> DelegateEventOutcome<Self, T> {
        arbitrary()
    }

    /// Model of [`AppDelegate::window_added`].
    open spec fn window_added_outcome(self, source: WindowId, id: WindowId, data: T, env: V)
        -> DelegateOutcome<Self, T> {
        arbitrary()
    }

    /// Model of [`AppDelegate::window_removed`].
    open spec fn window_removed_outcome(self, source: WindowId, id: WindowId, data: T, env: V)
        -> DelegateOutcome<Self, T> {
        arbitrary()
    }

    /// Sees an event before any window does. The delegate returns the event,
    /// or another in its place, to let the dispatch go on; it returns `None`
    /// to swallow the event.
    fn event(&mut self, event: Event, data: &mut T, env: &V, ctx: &mut DelegateCtx) -> (out:
        Option<Event>)
        requires
            old(ctx).commands().len() == 0,
        ensures
            ({
                let o = old(self).event_outcome(old(ctx).source(), event, *old(data), *env);
                &&& *final(self) == o.delegate
                &&& *final(data) == o.data
                &&& out == o.event
                &&& final(ctx).commands() == o.commands
            }),
    ;

    /// Hears that a window has become live.
    fn window_added(&mut self, id: WindowId, data: &mut T, env: &V, ctx: &mut DelegateCtx)
        requires
            old(ctx).commands().len() == 0,
        ensures
            ({
                let o = old(self).window_added_outcome(old(ctx).source(), id, *old(data), *env);
                &&& *final(self) == o.delegate
                &&& *final(data) == o.data
                &&& final(ctx).commands() == o.commands
            }),
    ;

    /// Hears that the platform has destroyed a window.
    fn window_removed(&mut self, id: WindowId, data: &mut T, env: &V, ctx: &mut DelegateCtx)
        requires
            old(ctx).commands().len() == 0,
        ensures
            ({
                let o = old(self).window_removed_outcome(old(ctx).source(), id, *old(data), *env);
                &&& *final(self) == o.delegate
                &&& *final(data) == o.data
                &&& final(ctx).commands() == o.commands
            }),
    ;
}

/// The delegate of an application that has none to offer: it lets every
/// event pass as it is and does nothing else.
#[derive(Clone, Copy, Debug, PartialEq, Eq)]
pub struct NoDelegate;

impl<T, V> AppDelegate<T, V> for NoDelegate {
    open spec fn event_outcome(self, source: WindowId, event: Event, data: T, env: V)
        -> DelegateEventOutcome<Self, T> {
        DelegateEventOutcome { delegate: self, data, event: Some(event), commands: Seq::empty() }
    }

    open spec fn window_added_outcome(self, source: WindowId, id: WindowId, data: T, env: V)
        -> DelegateOutcome<Self, T> {
        DelegateOutcome { delegate: self, data, commands: Seq::empty() }
    }

    open spec fn window_removed_outcome(self, source: WindowId, id: WindowId, data: T, env: V)
        -> DelegateOutcome<Self, T> {
        DelegateOutcome { delegate: self, data, commands: Seq::empty() }
    }

    fn event(&mut self, event: Event, data: &mut T, env: &V, ctx: &mut DelegateCtx) -> (out:
        Option<Event>) {
        Some(event)
    }

    fn window_added(&mut self, id: WindowId, data: &mut T, env: &V, ctx: &mut DelegateCtx) {
    }

    fn window_removed(&mut self, id: WindowId, data: &mut T, env: &V, ctx: &mut DelegateCtx) {
    }
}

/// One call of the delegate.
#[derive(Clone, Debug, PartialEq, Eq)]
pub enum DelegateCall {
    /// Offer an event.
    Event(Event),
    /// Tell that the window has become live.
    WindowAdded(WindowId),
    /// Tell that the window was destroyed.
    WindowRemoved(WindowId),
}

/// What came back from one call of the delegate.
#[derive(Clone, Debug, PartialEq, Eq)]
pub enum DelegateReply {
    /// The event to go on with, or `None` when the delegate swallowed it.
    Event(Option<Event>),
    /// The delegate was told.
    Done,
}

} // verus!
