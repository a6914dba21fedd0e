//! The inbox for commands that are submitted from outside the event loop, and
//! the record of which window is woken when something arrives.

use std::collections::VecDeque;
use vstd::prelude::*;
use crate::command::{Command, Target};
use crate::ids::WindowId;
use crate::shell::IdleHandle;

verus! {

/// What the host holds, as plain mathematics.
pub ghost struct HostModel {
    /// The submitted commands that were not received yet, the oldest first.
    pub inbox: Seq<(Option<Target>, Command)>,
    /// The window that is woken on a submission, with its idle handle.
    pub waker: Option<(WindowId, IdleHandle)>,
    /// Whether a wakeup was asked for and has not come yet.
    pub wake_requested: bool,
}

impl HostModel {
    /// A wakeup can only be outstanding on a waker.
    pub open spec fn wf(self) -> bool {
        self.wake_requested ==> self.waker is Some
    }

    pub open spec fn fresh() -> HostModel {
        HostModel { inbox: Seq::empty(), waker: None, wake_requested: false }
    }

    /// The id of the window that is woken, if one is.
    pub open spec fn waker_id(self) -> Option<WindowId> {
        match self.waker {
            Some(w) => Some(w.0),
            None => None,
        }
    }

    /// The handle on which a wakeup is to be asked for now: that of the waker,
    /// unless there is none or a wakeup is outstanding already.
    pub open spec fn wake_target(self) -> Option<IdleHandle> {
        match self.waker {
            Some(w) => if self.wake_requested {
                None
            } else {
                Some(w.1)
            },
            None => None,
        }
    }

    pub open spec fn request_wake(self) -> HostModel {
        HostModel { wake_requested: self.wake_requested || self.waker is Some, ..self }
    }

    pub open spec fn submit(self, target: Option<Target>, command: Command) -> HostModel {
        HostModel { inbox: self.inbox.push((target, command)), ..self.request_wake() }
    }

    pub open spec fn recv(self) -> HostModel {
        if self.inbox.len() == 0 {
            self
        } else {
            HostModel { inbox: self.inbox.drop_first(), ..self }
        }
    }

    pub open spec fn set_idle(self, handle: IdleHandle, window_id: WindowId) -> HostModel {
        HostModel { waker: Some((window_id, handle)), wake_requested: false, ..self }
    }

    /// The window becomes the waker, and a wakeup is asked for at once if
    /// something waits in the inbox.
    pub open spec fn install(self, handle: IdleHandle, window_id: WindowId) -> HostModel {
        let set = self.set_idle(handle, window_id);
        if set.inbox.len() > 0 {
            set.request_wake()
        } else {
            set
        }
    }

    /// The host after it was told which window is woken now: a window that
    /// is not the waker yet is installed; the waker stays as it is; without
    /// a window the host is left without a waker.
    pub open spec fn follow_waker(self, waker: Option<(WindowId, IdleHandle)>) -> HostModel {
        match waker {
            Some(w) => if self.waker_id() != Some(w.0) {
                self.install(w.1, w.0)
            } else {
                self
            },
            None => self.clear_idle(),
        }
    }

    pub open spec fn clear_idle(self) -> HostModel {
        HostModel { waker: None, wake_requested: false, ..self }
    }

    pub open spec fn wake_received(self) -> HostModel {
        HostModel { wake_requested: false, ..self }
    }
}

/// The inbox of externally submitted commands. Whoever shares it between
/// threads puts it behind a lock: each method here runs alone.
pub struct ExtEventHost {
    queue: VecDeque<(Option<Target>, Command)>,
    waker: Option<(WindowId, IdleHandle)>,
    wake_requested: bool,
}

impl View for ExtEventHost {
    type V = HostModel;

    closed spec fn view(&self) -> HostModel {
        HostModel { inbox: self.queue@, waker: self.waker, wake_requested: self.wake_requested }
    }
}

impl ExtEventHost {
    pub fn new() -> (host: ExtEventHost)
        ensures
            host@ == HostModel::fresh(),
    {
        ExtEventHost { queue: VecDeque::new(), waker: None, wake_requested: false }
    }

    /// Asks for a wakeup of the waker. The result is the handle on which the
    /// caller is to schedule it, or `None` when there is no waker or a wakeup
    /// is outstanding: however many times this is called before the wakeup
    /// comes, one wakeup is asked for.
    pub fn request_wake(&mut self) -> (wake: Option<IdleHandle>)
        ensures
            wake == old(self)@.wake_target(),
            final(self)@ == old(self)@.request_wake(),
    {
        match self.waker {
            Some(w) => {
                if self.wake_requested {
                    None
                } else {
                    self.wake_requested = true;
                    Some(w.1)
                }
            },
            None => None,
        }
    }

    /// Puts a command into the inbox, behind those that wait, and asks for a
    /// wakeup as [`ExtEventHost::request_wake`] does. Without a waker the
    /// command waits until a window becomes the waker.
    pub fn submit(&mut self, target: Option<Target>, command: Command) -> (wake: Option<
        IdleHandle,
    >)
        ensures
            wake == old(self)@.wake_target(),
            final(self)@ == old(self)@.submit(target, command),
    {
        self.queue.push_back((target, command));
        self.request_wake()
    }

    /// Takes the oldest submitted command out, if one waits. Never blocks.
    pub fn recv(&mut self) -> (item: Option<(Option<Target>, Command)>)
        ensures
            final(self)@ == old(self)@.recv(),
            old(self)@.inbox.len() == 0 ==> item is None,
            old(self)@.inbox.len() > 0 ==> item == Some(old(self)@.inbox[0]),
    {
        self.queue.pop_front()
    }

    /// Whether a submitted command waits. Takes nothing out.
    pub fn has_pending_items(&self) -> (pending: bool)
        ensures
            pending == (self@.inbox.len() > 0),
    {
        self.queue.len() > 0
    }

    /// Makes `window_id` the waker, to be woken through `handle`. A wakeup
    /// that was outstanding on the waker before is forgotten.
    pub fn set_idle(&mut self, handle: IdleHandle, window_id: WindowId)
        ensures
            final(self)@ == old(self)@.set_idle(handle, window_id),
    {
        self.waker = Some((window_id, handle));
        self.wake_requested = false;
    }

    /// Makes `window_id` the waker, as [`ExtEventHost::set_idle`] does, and
    /// asks for a wakeup at once if something waits in the inbox, so that a
    /// backlog from the time without a waker is not left lying. The result
    /// is the handle on which the caller is to schedule that wakeup, or
    /// `None` when nothing waits.
    pub fn install(&mut self, handle: IdleHandle, window_id: WindowId) -> (wake: Option<
        IdleHandle,
    >)
        ensures
            final(self)@ == old(self)@.install(handle, window_id),
            wake == if old(self)@.inbox.len() > 0 {
                Some(handle)
            } else {
                None
            },
    {
        self.set_idle(handle, window_id);
        if self.has_pending_items() {
            self.request_wake()
        } else {
            None
        }
    }

    /// Brings the host in line with the window that is woken now, for a host
    /// that follows the choice made elsewhere. A window that is not the
    /// waker yet is installed, and a wakeup is owed at once if something
    /// waits; the window that is the waker already stays, with the wakeup
    /// that may be on its way; `None` leaves the host without a waker. The
    /// result is the handle on which the caller is to schedule a wakeup now.
    pub fn follow_waker(&mut self, waker: Option<(WindowId, IdleHandle)>) -> (wake: Option<
        IdleHandle,
    >)
        ensures
            final(self)@ == old(self)@.follow_waker(waker),
            wake == match waker {
                Some(w) => if old(self)@.waker_id() != Some(w.0) && old(self)@.inbox.len() > 0 {
                    Some(w.1)
                } else {
                    None
                },
                None => None,
            },
    {
        match waker {
            Some(w) => {
                let same = match self.handle_window_id() {
                    Some(id) => id == w.0,
                    None => false,
                };
                if same {
                    None
                } else {
                    self.install(w.1, w.0)
                }
            },
            None => {
                self.clear_idle();
                None
            },
        }
    }

    /// Leaves the host without a waker.
    pub fn clear_idle(&mut self)
        ensures
            final(self)@ == old(self)@.clear_idle(),
    {
        self.waker = None;
        self.wake_requested = false;
    }

    /// Notes that the wakeup has come: the next submission asks for a new one.
    pub fn wake_received(&mut self)
        ensures
            final(self)@ == old(self)@.wake_received(),
    {
        self.wake_requested = false;
    }

    /// The id of the waker, if there is one.
    pub fn handle_window_id(&self) -> (id: Option<WindowId>)
        ensures
            id == self@.waker_id(),
    {
        match self.waker {
            Some(w) => Some(w.0),
            None => None,
        }
    }
}

} // verus!
