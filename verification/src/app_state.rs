//! The state that all windows of an application share, and the dispatch of
//! events into it.

use vstd::prelude::*;
use crate::command::{Command, Selector, Target};
use crate::delegate::{AppDelegate, DelegateCall, DelegateCtx, DelegateReply};
use crate::event::Event;
use crate::ext_event::ExtEventHost;
use crate::ids::{IdleToken, WindowId};
use crate::laws::lemma_settled_pass_changes_nothing;
use crate::model::AppModel;
use crate::queue::CommandQueue;
use crate::registry::{
    lemma_connect, lemma_remove, lemma_update_keeps_ids, lemma_with_any_window_keeps_ids, Windows,
    WindowsModel,
};
use crate::shell::{Effect, IdleHandle, Level, Notice, WindowHandle};
use crate::window::{settled, PendingWindow, WidgetTree, Window};

verus! {

/// State shared by all windows of the application. There is one of it, and
/// whoever calls into it holds it alone for the length of the call.
pub struct AppState<W: WidgetTree, D> {
    delegate: Option<D>,
    command_queue: CommandQueue,
    ext_event_host: ExtEventHost,
    windows: Windows<W>,
    env: W::Env,
    data: W::Data,
    effects: Vec<Effect>,
}

impl<W: WidgetTree, D: AppDelegate<W::Data, W::Env>> View for AppState<W, D> {
    type V = AppModel<W, D>;

    closed spec fn view(&self) -> AppModel<W, D> {
        AppModel {
            delegate: self.delegate,
            queue: self.command_queue@,
            host: self.ext_event_host@,
            windows: self.windows@,
            env: self.env,
            data: self.data,
            effects: self.effects@,
        }
    }
}

impl<W: WidgetTree, D: AppDelegate<W::Data, W::Env>> AppState<W, D> {
    /// The state of an application that has no window yet. The host of
    /// external events starts without a window to wake; what was submitted to
    /// it before stays in its inbox.
    pub fn new(
        data: W::Data,
        env: W::Env,
        delegate: Option<D>,
        ext_event_host: ExtEventHost,
    ) -> (state: Self)
        ensures
            state@ == (AppModel::<W, D> {
                delegate,
                queue: Seq::empty(),
                host: ext_event_host@.clear_idle(),
                windows: WindowsModel::empty(),
                env,
                data,
                effects: Seq::empty(),
            }),
            state@.wf(),
    {
        let mut ext_event_host = ext_event_host;
        ext_event_host.clear_idle();
        AppState {
            delegate,
            command_queue: CommandQueue::new(),
            ext_event_host,
            windows: Windows::new(),
            env,
            data,
            effects: Vec::new(),
        }
    }

    /// The application data.
    pub fn data(&self) -> (data: &W::Data)
        ensures
            *data == self@.data,
    {
        &self.data
    }

    /// The environment that the trees and the delegate read.
    pub fn env(&self) -> (env: &W::Env)
        ensures
            *env == self@.env,
    {
        &self.env
    }

    /// The delegate, if the application has one.
    pub fn delegate(&self) -> (delegate: Option<&D>)
        ensures
            delegate is Some == self@.delegate is Some,
            delegate is Some ==> *delegate->0 == self@.delegate->0,
    {
        self.delegate.as_ref()
    }

    /// The live window under `id`.
    pub fn window(&self, id: WindowId) -> (win: Option<&Window<W>>)
        ensures
            win is Some == self@.windows.is_live(id),
            win is Some ==> *win->0 == self@.windows.window(id),
    {
        self.windows.get(id)
    }

    /// The ids of the live windows, in the order in which every pass visits
    /// them.
    pub fn live_ids(&self) -> (ids: Vec<WindowId>)
        ensures
            ids@.len() == self@.windows.live.len(),
            forall|i: int| 0 <= i < ids@.len() ==> ids@[i] == self@.windows.live[i].0,
    {
        let mut ids: Vec<WindowId> = Vec::new();
        let mut at: usize = 0;
        while at < self.windows.len()
            invariant
                at <= self@.windows.live.len(),
                ids@.len() == at,
                forall|i: int| 0 <= i < at ==> ids@[i] == self@.windows.live[i].0,
            decreases self@.windows.live.len() - at,
        {
            ids.push(self.windows.id_at(at));
            at += 1;
        }
        ids
    }

    /// The window that is woken when external events arrive, if one is.
    pub fn waker(&self) -> (id: Option<WindowId>)
        ensures
            id == self@.host.waker_id(),
    {
        self.ext_event_host.handle_window_id()
    }

    /// How many commands wait in the command queue.
    pub fn waiting_commands(&self) -> (n: usize)
        ensures
            n == self@.queue.len(),
    {
        self.command_queue.len()
    }

    /// Whether an external command waits in the inbox.
    pub fn has_ext_events(&self) -> (pending: bool)
        ensures
            pending == (self@.host.inbox.len() > 0),
    {
        self.ext_event_host.has_pending_items()
    }

    /// Hands over what was left for the platform side to carry out, the
    /// oldest first, and starts a new list.
    pub fn take_effects(&mut self) -> (effects: Vec<Effect>)
        ensures
            effects@ == old(self)@.effects,
            final(self)@ == (AppModel { effects: Seq::empty(), ..old(self)@ }),
    {
        let mut taken: Vec<Effect> = Vec::new();
        std::mem::swap(&mut self.effects, &mut taken);
        taken
    }

    /// Leaves one more thing for the platform side to carry out.
    pub fn emit(&mut self, effect: Effect)
        ensures
            final(self)@ == old(self)@.emit(effect),
    {
        self.effects.push(effect);
    }

    /// Leaves a line for the log.
    pub fn log(&mut self, level: Level, notice: Notice)
        ensures
            final(self)@ == old(self)@.log(level, notice),
    {
        self.effects.push(Effect::Log(level, notice));
    }

    /// Puts a command behind those that wait in the command queue.
    pub fn submit_command(&mut self, target: Target, command: Command)
        ensures
            final(self)@ == old(self)@.enqueue(seq![(target, command)]),
    {
        self.command_queue.enqueue(target, command);
        proof {
            assert(old(self)@.queue.push((target, command)) =~= old(self)@.queue + seq![
                (target, command),
            ]);
        }
    }

    /// Takes the oldest command out of the command queue, if one waits.
    pub fn next_command(&mut self) -> (front: Option<(Target, Command)>)
        ensures
            old(self)@.queue.len() == 0 ==> front is None && final(self)@ == old(self)@,
            old(self)@.queue.len() > 0 ==> front == Some(old(self)@.queue[0]) && final(self)@ == (
            AppModel { queue: old(self)@.queue.drop_first(), ..old(self)@ }),
    {
        self.command_queue.dequeue()
    }

    /// Puts a command from outside the event loop into the inbox. The result
    /// is the idle handle on which the caller is to ask for a wakeup now, or
    /// `None` where there is no window to wake or a wakeup is on its way.
    pub fn submit_ext_event(&mut self, target: Option<Target>, command: Command) -> (wake: Option<
        IdleHandle,
    >)
        ensures
            wake == old(self)@.host.wake_target(),
            final(self)@ == (AppModel {
                host: old(self)@.host.submit(target, command),
                ..old(self)@
            }),
            old(self)@.wf() ==> final(self)@.wf(),
    {
        self.ext_event_host.submit(target, command)
    }

    /// Takes the oldest external command out of the inbox, if one waits.
    pub fn recv_ext_event(&mut self) -> (item: Option<(Option<Target>, Command)>)
        ensures
            final(self)@ == (AppModel { host: old(self)@.host.recv(), ..old(self)@ }),
            old(self)@.host.inbox.len() == 0 ==> item is None,
            old(self)@.host.inbox.len() > 0 ==> item == Some(old(self)@.host.inbox[0]),
            old(self)@.wf() ==> final(self)@.wf(),
    {
        self.ext_event_host.recv()
    }

    /// Notes that the wakeup for external events has come.
    pub fn ext_wake_received(&mut self)
        ensures
            final(self)@ == (AppModel { host: old(self)@.host.wake_received(), ..old(self)@ }),
            old(self)@.wf() ==> final(self)@.wf(),
    {
        self.ext_event_host.wake_received();
    }

    /// Whether the id belongs to a live window.
    pub fn is_live(&self, id: WindowId) -> (live: bool)
        ensures
            live == self@.windows.is_live(id),
    {
        self.windows.live_position(id) < self.windows.len()
    }

    /// Calls the delegate once on behalf of the window `id`, and takes over
    /// the commands that it submits. The result is `None`, and nothing has
    /// happened, where the application has no delegate.
    pub fn with_delegate(&mut self, id: WindowId, call: DelegateCall) -> (reply: Option<
        DelegateReply,
    >)
        ensures
            final(self)@ == old(self)@.with_delegate(id, call).0,
            reply == old(self)@.with_delegate(id, call).1,
            final(self)@.windows == old(self)@.windows,
            final(self)@.host == old(self)@.host,
            final(self)@.effects == old(self)@.effects,
    {
        let mut ctx = DelegateCtx::new(id);
        let reply = match &mut self.delegate {
            Some(delegate) => match call {
                DelegateCall::Event(event) => Some(
                    DelegateReply::Event(delegate.event(event, &mut self.data, &self.env, &mut ctx)),
                ),
                DelegateCall::WindowAdded(window) => {
                    delegate.window_added(window, &mut self.data, &self.env, &mut ctx);
                    Some(DelegateReply::Done)
                },
                DelegateCall::WindowRemoved(window) => {
                    delegate.window_removed(window, &mut self.data, &self.env, &mut ctx);
                    Some(DelegateReply::Done)
                },
            },
            None => None,
        };
        ctx.drain_into(&mut self.command_queue);
        proof {
            assert(old(self)@.queue + Seq::<(Target, Command)>::empty() =~= old(self)@.queue);
        }
        reply
    }

    /// Gives the delegate its first refusal of an event for the window `id`.
    /// The result is the event that goes on to the windows: the one
    /// that the delegate returned, or the event itself where there is no
    /// delegate. It is `None` when the delegate swallowed the event.
    pub fn delegate_event(&mut self, id: WindowId, event: Event) -> (passed: Option<Event>)
        ensures
            final(self)@ == old(self)@.delegate_event(id, event).0,
            passed == old(self)@.delegate_event(id, event).1,
            final(self)@.windows == old(self)@.windows,
            final(self)@.host == old(self)@.host,
            final(self)@.effects == old(self)@.effects,
    {
        if self.delegate.is_some() {
            match self.with_delegate(id, DelegateCall::Event(event)) {
                Some(DelegateReply::Event(passed)) => passed,
                _ => None,
            }
        } else {
            Some(event)
        }
    }

    /// Hands an event to the window `id` and takes over the commands that
    /// its tree submits.
    fn deliver(&mut self, id: WindowId, event: &Event) -> (handled: bool)
        requires
            old(self)@.wf(),
        ensures
            final(self)@ == old(self)@.deliver(id, *event).0,
            handled == old(self)@.deliver(id, *event).1,
            final(self)@.wf(),
    {
        let mut emitted = CommandQueue::new();
        let handled = match self.windows.get_mut(id) {
            Some(win) => win.root.event(&mut emitted, event, &mut self.data, &self.env),
            None => false,
        };
        self.command_queue.append(&mut emitted);
        proof {
            assert(old(self)@.queue + Seq::<(Target, Command)>::empty() =~= old(self)@.queue);
            if old(self)@.windows.is_live(id) {
                lemma_with_any_window_keeps_ids(old(self)@.windows, id);
            }
        }
        handled
    }

    /// Offers an event to every live window in turn, until one says that it
    /// handled the event.
    fn broadcast(&mut self, event: &Event) -> (handled: bool)
        requires
            old(self)@.wf(),
        ensures
            final(self)@ == old(self)@.broadcast(*event, 0).0,
            handled == old(self)@.broadcast(*event, 0).1,
            final(self)@.wf(),
    {
        let mut at: usize = 0;
        let mut handled = false;
        while at < self.windows.len() && !handled
            invariant
                at <= self@.windows.live.len(),
                self@.wf(),
                !handled ==> self@.broadcast(*event, at as int) == old(self)@.broadcast(*event, 0),
                handled ==> (self@, true) == old(self)@.broadcast(*event, 0),
            decreases self@.windows.live.len() - at,
        {
            let ghost before = self@;
            let mut emitted = CommandQueue::new();
            let win = self.windows.iter_mut(at);
            handled = win.root.event(&mut emitted, event, &mut self.data, &self.env);
            self.command_queue.append(&mut emitted);
            proof {
                lemma_update_keeps_ids(before.windows, at as int, self@.windows.live[at as int].1);
            }
            at += 1;
        }
        handled
    }

    /// Replaces the menu of the window `window_id` by the one in the
    /// command's payload. A payload of another kind is reported and nothing
    /// changes; a window that is not live is passed over in silence.
    pub fn set_menu(&mut self, window_id: WindowId, cmd: &Command)
        requires
            old(self)@.wf(),
        ensures
            final(self)@ == old(self)@.set_menu(window_id, *cmd),
            final(self)@.wf(),
    {
        match cmd.get_menu() {
            Some(menu) => {
                match self.windows.get_mut(window_id) {
                    Some(win) => win.root.set_menu(menu, &self.data, &self.env),
                    None => {},
                }
                proof {
                    if old(self)@.windows.is_live(window_id) {
                        lemma_with_any_window_keeps_ids(old(self)@.windows, window_id);
                    }
                }
            },
            None => {
                if self.windows.live_position(window_id) < self.windows.len() {
                    self.log(Level::Warn, Notice::BadPayload(Selector::SetMenu));
                }
            },
        }
    }

    /// Pops up the context menu in the command's payload on the window
    /// `window_id`. A payload of another kind is reported and nothing
    /// changes; a window that is not live is passed over in silence.
    pub fn show_context_menu(&mut self, window_id: WindowId, cmd: &Command)
        requires
            old(self)@.wf(),
        ensures
            final(self)@ == old(self)@.show_context_menu(window_id, *cmd),
            final(self)@.wf(),
    {
        match cmd.get_context_menu() {
            Some(context) => {
                match self.windows.get_mut(window_id) {
                    Some(win) => win.root.show_context_menu(
                        context.menu,
                        context.location,
                        &self.data,
                        &self.env,
                    ),
                    None => {},
                }
                proof {
                    if old(self)@.windows.is_live(window_id) {
                        lemma_with_any_window_keeps_ids(old(self)@.windows, window_id);
                    }
                }
            },
            None => {
                if self.windows.live_position(window_id) < self.windows.len() {
                    self.log(Level::Warn, Notice::BadPayload(Selector::ShowContextMenu));
                }
            },
        }
    }

    /// Dispatches one event for the window `source_id`: the delegate sees it
    /// first, then it is routed to the windows. The result says whether the
    /// event was handled; an event that the delegate swallowed counts as
    /// handled.
    pub fn do_event(&mut self, source_id: WindowId, event: Event) -> (handled: bool)
        requires
            old(self)@.wf(),
        ensures
            final(self)@ == old(self)@.do_event(source_id, event).0,
            handled == old(self)@.do_event(source_id, event).1,
            final(self)@.wf(),
    {
        let event = match self.delegate_event(source_id, event) {
            Some(event) => event,
            None => {
                return true;
            },
        };
        match &event {
            Event::TargetedCommand(target, cmd) => {
                match cmd.selector {
                    Selector::SetMenu => {
                        self.set_menu(source_id, cmd);
                        true
                    },
                    Selector::ShowContextMenu => {
                        self.show_context_menu(source_id, cmd);
                        true
                    },
                    _ => match target {
                        Target::Widget(_) => self.broadcast(&event),
                        Target::Window(_) => self.deliver(source_id, &event),
                    },
                }
            },
            _ => self.deliver(source_id, &event),
        }
    }

    /// Makes the window `id` the one that is woken when external events
    /// arrive, if it is live and its handle offers an idle handle. If
    /// external events wait already, a wakeup is asked for at once.
    pub fn set_ext_event_idle_handler(&mut self, id: WindowId)
        requires
            old(self)@.wf(),
        ensures
            final(self)@ == old(self)@.set_ext_event_idle_handler(id),
            final(self)@.wf(),
    {
        match self.windows.handle(id) {
            Some(handle) => match handle.get_idle_handle() {
                Some(idle) => {
                    match self.ext_event_host.install(idle, id) {
                        Some(wake) => self.emit(Effect::ScheduleIdle(wake, IdleToken::ext_event())),
                        None => {},
                    }
                },
                None => {},
            },
            None => {},
        }
    }

    /// The platform has a handle for the window `id`: the window becomes
    /// live, it becomes the window to wake for external events if there is
    /// none, and the delegate hears of it. Where no window waits under `id`
    /// the registry stays as it is and one error is logged.
    pub fn connect(&mut self, id: WindowId, handle: WindowHandle)
        requires
            old(self)@.wf(),
        ensures
            final(self)@ == old(self)@.connect(id, handle),
            final(self)@.wf(),
    {
        proof {
            lemma_connect(self@.windows, id, handle);
        }
        let connected = self.windows.connect(id, handle);
        if !connected {
            self.log(Level::Error, Notice::NoPendingWindow(id));
        }
        if self.ext_event_host.handle_window_id().is_none() {
            self.set_ext_event_idle_handler(id);
        }
        self.with_delegate(id, DelegateCall::WindowAdded(id));
    }

    /// Puts a window among those that wait for the platform. An id that is in
    /// use, by a waiting window or a live one, must not be added again.
    pub fn add_window(&mut self, id: WindowId, window: PendingWindow<W>)
        requires
            old(self)@.wf(),
            !old(self)@.windows.is_pending(id),
            !old(self)@.windows.is_live(id),
        ensures
            final(self)@ == old(self)@.add_window(id, window),
            final(self)@.wf(),
    {
        self.windows.add(id, window);
    }

    /// Whether the id is in use, by a waiting window or a live one.
    pub fn has_window(&self, id: WindowId) -> (used: bool)
        ensures
            used == (self@.windows.is_pending(id) || self@.windows.is_live(id)),
    {
        self.windows.contains(id)
    }

    /// Called after the platform has destroyed the window: the delegate
    /// hears of it, the window leaves the registry, and if it was the window
    /// to wake for external events, the first of the live windows left whose
    /// handle offers an idle handle takes that over. Where none of them can
    /// be woken, no window is designated until one connects that can.
    pub fn remove_window(&mut self, window_id: WindowId)
        requires
            old(self)@.wf(),
        ensures
            final(self)@ == old(self)@.remove_window(window_id),
            final(self)@.wf(),
    {
        self.with_delegate(window_id, DelegateCall::WindowRemoved(window_id));
        proof {
            lemma_remove(self@.windows, window_id);
        }
        self.windows.remove(window_id);
        let was_waker = match self.ext_event_host.handle_window_id() {
            Some(waker) => waker == window_id,
            None => false,
        };
        if was_waker {
            self.ext_event_host.clear_idle();
            let at = self.windows.first_wakeable();
            if at < self.windows.len() {
                let other = self.windows.id_at(at);
                self.set_ext_event_idle_handler(other);
            }
        }
    }

    /// Asks the platform to close the window. The window stays live until the
    /// platform says that it is destroyed.
    pub fn request_close_window(&mut self, window_id: WindowId)
        requires
            old(self)@.wf(),
        ensures
            final(self)@ == old(self)@.request_close_window(window_id),
            final(self)@.wf(),
    {
        match self.windows.handle(window_id) {
            Some(handle) => self.emit(Effect::Close(handle)),
            None => {},
        }
    }

    /// Asks the platform to bring the window to the front and to give it the
    /// focus.
    pub fn show_window(&mut self, id: WindowId)
        requires
            old(self)@.wf(),
        ensures
            final(self)@ == old(self)@.show_window(id),
            final(self)@.wf(),
    {
        match self.windows.handle(id) {
            Some(handle) => self.emit(Effect::BringToFrontAndFocus(handle)),
            None => {},
        }
    }

    /// Lets the window paint. Returns `true` if the window wants another
    /// frame for an animation; a window that is not live paints nothing and
    /// wants none.
    pub fn paint(&mut self, window_id: WindowId, piet: &mut W::Piet) -> (more_frames: bool)
        requires
            old(self)@.wf(),
        ensures
            final(self)@ == old(self)@.paint(window_id, *old(piet)).0,
            *final(piet) == old(self)@.paint(window_id, *old(piet)).1,
            more_frames == old(self)@.paint(window_id, *old(piet)).2,
            final(self)@.wf(),
    {
        let mut emitted = CommandQueue::new();
        let more_frames = match self.windows.get_mut(window_id) {
            Some(win) => win.root.do_paint(piet, &mut emitted, &self.data, &self.env),
            None => false,
        };
        self.command_queue.append(&mut emitted);
        proof {
            assert(old(self)@.queue + Seq::<(Target, Command)>::empty() =~= old(self)@.queue);
            if old(self)@.windows.is_live(window_id) {
                lemma_with_any_window_keeps_ids(old(self)@.windows, window_id);
            }
        }
        more_frames
    }

    /// Tells every live window that the data may have changed, not only the
    /// window that the event was for, and then lets every window settle.
    pub fn do_update(&mut self)
        requires
            old(self)@.wf(),
        ensures
            final(self)@ == old(self)@.do_update(),
            final(self)@.wf(),
            final(self)@.all_settled(),
            final(self)@.invalidate_and_finalize() == final(self)@,
    {
        let mut at: usize = 0;
        while at < self.windows.len()
            invariant
                at <= self@.windows.live.len(),
                self@.wf(),
                self@.update_pass(at as int) == old(self)@.update_pass(0),
            decreases self@.windows.live.len() - at,
        {
            let ghost before = self@;
            let win = self.windows.iter_mut(at);
            win.root.update(&self.data, &self.env);
            proof {
                lemma_update_keeps_ids(before.windows, at as int, self@.windows.live[at as int].1);
            }
            at += 1;
        }
        self.invalidate_and_finalize();
    }

    /// Lets every live window settle, and asks the platform to repaint each
    /// that needs it.
    ///
    /// This is to be called at the end of every cycle of events and updates.
    /// When it is done every window has settled: the same call made again
    /// at once would change nothing.
    pub fn invalidate_and_finalize(&mut self)
        requires
            old(self)@.wf(),
        ensures
            final(self)@ == old(self)@.invalidate_and_finalize(),
            final(self)@.wf(),
            final(self)@.all_settled(),
            final(self)@.invalidate_and_finalize() == final(self)@,
    {
        let mut at: usize = 0;
        while at < self.windows.len()
            invariant
                at <= self@.windows.live.len(),
                self@.wf(),
                self@.invalidate_pass(at as int) == old(self)@.invalidate_pass(0),
                self@.data == old(self)@.data,
                self@.env == old(self)@.env,
                forall|i: int|
                    0 <= i < at ==> settled(
                        #[trigger] self@.windows.live[i].1.root,
                        self@.data,
                        self@.env,
                    ),
            decreases self@.windows.live.len() - at,
        {
            let ghost before = self@;
            let mut emitted = CommandQueue::new();
            let win = self.windows.iter_mut(at);
            let redraw = win.root.invalidate_and_finalize(&mut emitted, &self.data, &self.env);
            let handle = win.handle;
            self.command_queue.append(&mut emitted);
            if redraw {
                self.emit(Effect::Invalidate(handle));
            }
            proof {
                lemma_update_keeps_ids(before.windows, at as int, self@.windows.live[at as int].1);
                assert forall|i: int| 0 <= i < at + 1 implies settled(
                    #[trigger] self@.windows.live[i].1.root,
                    self@.data,
                    self@.env,
                ) by {
                    if i < at {
                        assert(self@.windows.live[i] == before.windows.live[i]);
                    }
                }
            }
            at += 1;
        }
        proof {
            lemma_settled_pass_changes_nothing(self@, 0);
        }
    }

    /// The window has got the focus: its tree brings the application-wide
    /// menu in line.
    pub fn window_got_focus(&mut self, window_id: WindowId)
        requires
            old(self)@.wf(),
        ensures
            final(self)@ == old(self)@.window_got_focus(window_id),
            final(self)@.wf(),
    {
        match self.windows.get_mut(window_id) {
            Some(win) => win.root.update_app_menu(&self.data, &self.env),
            None => {},
        }
        proof {
            if old(self)@.windows.is_live(window_id) {
                lemma_with_any_window_keeps_ids(old(self)@.windows, window_id);
            }
        }
    }

    /// The command that the menus of the window `window_id` hold under a
    /// platform menu id; `None` where the window is not live or knows no
    /// such id.
    pub fn get_menu_cmd(&self, window_id: WindowId, cmd_id: u32) -> (command: Option<Command>)
        ensures
            command == self@.get_menu_cmd(window_id, cmd_id),
    {
        match self.windows.get(window_id) {
            Some(win) => win.root.get_menu_cmd(cmd_id),
            None => None,
        }
    }
}

} // verus!
