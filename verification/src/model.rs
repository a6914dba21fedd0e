//! The application state as plain mathematics, and what each step of the
//! dispatch makes of it. The contracts of the executable code are stated over
//! these functions.

use vstd::prelude::*;
use crate::command::{Command, FileInfo, Payload, Selector, Target, WindowDesc};
use crate::delegate::{AppDelegate, DelegateCall, DelegateReply};
use crate::event::Event;
use crate::ext_event::HostModel;
use crate::ids::{IdleToken, WindowId, EXT_EVENT_IDLE_TOKEN, RUN_COMMANDS_TOKEN};
use crate::registry::WindowsModel;
use crate::shell::{Effect, Level, Notice, PlatformError, ShellReply, WindowHandle};
use crate::window::{settled, PendingWindow, WidgetTree, Window};

verus! {

/// The most commands that one drain of the command queue handles. A drain
/// that reaches this number stops and leaves the rest in the queue.
pub const DRAIN_LIMIT: u64 = 0xffff_ffff_ffff_ffff;

/// One window that was asked in a broadcast.
pub ghost struct Asked<W: WidgetTree> {
    pub id: WindowId,
    /// The application data as the window found it.
    pub data: W::Data,
    /// Whether the window said that it handled the event.
    pub handled: bool,
}

/// The state that all windows of an application share.
pub ghost struct AppModel<W: WidgetTree, D> {
    pub delegate: Option<D>,
    /// The commands that wait to be handled, the oldest first.
    pub queue: Seq<(Target, Command)>,
    pub host: HostModel,
    pub windows: WindowsModel<W>,
    pub env: W::Env,
    pub data: W::Data,
    /// What was left for the platform side to carry out, the oldest first.
    pub effects: Seq<Effect>,
}

impl<W: WidgetTree, D: AppDelegate<W::Data, W::Env>> AppModel<W, D> {
    /// No window id is in use twice, and the window that is woken for
    /// external events is a live one.
    pub open spec fn wf(self) -> bool {
        &&& self.windows.wf()
        &&& self.host.wf()
        &&& self.host.waker_id() is Some ==> self.windows.is_live(self.host.waker_id()->0)
    }

    /// Whether this state can follow `before` in a dispatch: the commands that
    /// waited still wait, in their places and before any new one; what was
    /// left for the platform is still there, before anything new; the inbox
    /// and the environment are as they were.
    pub open spec fn follows(self, before: Self) -> bool {
        &&& before.queue.is_prefix_of(self.queue)
        &&& before.effects.is_prefix_of(self.effects)
        &&& self.host.inbox == before.host.inbox
        &&& self.env == before.env
    }

    pub open spec fn emit(self, effect: Effect) -> Self {
        AppModel { effects: self.effects.push(effect), ..self }
    }

    pub open spec fn log(self, level: Level, notice: Notice) -> Self {
        self.emit(Effect::Log(level, notice))
    }

    pub open spec fn enqueue(self, commands: Seq<(Target, Command)>) -> Self {
        AppModel { queue: self.queue + commands, ..self }
    }

    /// The state with another tree in the live window under `id`.
    pub open spec fn with_root(self, id: WindowId, root: W) -> Self
        recommends
            self.windows.is_live(id),
    {
        AppModel {
            windows: self.windows.with_window(id, self.windows.window(id).with_root(root)),
            ..self
        }
    }

    /// The state with another tree in the live window at a place in the order
    /// of the passes.
    pub open spec fn with_root_at(self, at: int, root: W) -> Self
        recommends
            0 <= at < self.windows.live.len(),
    {
        AppModel {
            windows: WindowsModel {
                live: self.windows.live.update(
                    at,
                    (self.windows.live[at].0, self.windows.live[at].1.with_root(root)),
                ),
                ..self.windows
            },
            ..self
        }
    }

    /// One call of the delegate on behalf of the window `id`. Without a
    /// delegate nothing happens and nothing comes back.
    pub open spec fn with_delegate(self, id: WindowId, call: DelegateCall) -> (Self, Option<
        DelegateReply,
    >) {
        match self.delegate {
            None => (self, None),
            Some(d) => match call {
                DelegateCall::Event(event) => {
                    let o = d.event_outcome(id, event, self.data, self.env);
                    (
                        AppModel { delegate: Some(o.delegate), data: o.data, ..self }.enqueue(
                            o.commands,
                        ),
                        Some(DelegateReply::Event(o.event)),
                    )
                },
                DelegateCall::WindowAdded(w) => {
                    let o = d.window_added_outcome(id, w, self.data, self.env);
                    (
                        AppModel { delegate: Some(o.delegate), data: o.data, ..self }.enqueue(
                            o.commands,
                        ),
                        Some(DelegateReply::Done),
                    )
                },
                DelegateCall::WindowRemoved(w) => {
                    let o = d.window_removed_outcome(id, w, self.data, self.env);
                    (
                        AppModel { delegate: Some(o.delegate), data: o.data, ..self }.enqueue(
                            o.commands,
                        ),
                        Some(DelegateReply::Done),
                    )
                },
            },
        }
    }

    /// The delegate's first refusal: the event that goes on to the windows,
    /// or `None` when the delegate swallowed it. Without a delegate the event
    /// goes on as it is.
    pub open spec fn delegate_event(self, id: WindowId, event: Event) -> (Self, Option<Event>) {
        match self.with_delegate(id, DelegateCall::Event(event)) {
            (next, Some(DelegateReply::Event(passed))) => (next, passed),
            _ => (self, Some(event)),
        }
    }

    /// Makes the live window under `id` the one that is woken for external
    /// events, if it is live and its handle offers an idle handle. If
    /// external events wait already, a wakeup is asked for at once.
    pub open spec fn set_ext_event_idle_handler(self, id: WindowId) -> Self {
        if self.windows.is_live(id) {
            match self.windows.window(id).handle.idle {
                Some(idle) => {
                    let installed = AppModel { host: self.host.install(idle, id), ..self };
                    if self.host.inbox.len() > 0 {
                        installed.emit(
                            Effect::ScheduleIdle(idle, IdleToken { raw: EXT_EVENT_IDLE_TOKEN }),
                        )
                    } else {
                        installed
                    }
                },
                None => self,
            }
        } else {
            self
        }
    }

    /// The platform has a handle for the window `id`.
    pub open spec fn connect(self, id: WindowId, handle: WindowHandle) -> Self {
        let moved = AppModel { windows: self.windows.connect(id, handle), ..self };
        let noted = if self.windows.is_pending(id) {
            moved
        } else {
            moved.log(Level::Error, Notice::NoPendingWindow(id))
        };
        let woken = if noted.host.waker is None {
            noted.set_ext_event_idle_handler(id)
        } else {
            noted
        };
        woken.with_delegate(id, DelegateCall::WindowAdded(id)).0
    }

    pub open spec fn add_window(self, id: WindowId, window: PendingWindow<W>) -> Self {
        AppModel { windows: self.windows.add(id, window), ..self }
    }

    /// The platform has destroyed the window `id`: the delegate hears of it
    /// and the window leaves the registry. If it was the window to wake for
    /// external events, the first live window left that can be woken takes
    /// that over; where none can, no window is designated.
    pub open spec fn remove_window(self, id: WindowId) -> Self {
        let told = self.with_delegate(id, DelegateCall::WindowRemoved(id)).0;
        let gone = AppModel { windows: told.windows.remove(id), ..told };
        if gone.host.waker_id() == Some(id) {
            let cleared = AppModel { host: gone.host.clear_idle(), ..gone };
            let at = cleared.windows.first_wakeable();
            if at < cleared.windows.live.len() {
                cleared.set_ext_event_idle_handler(cleared.windows.live[at].0)
            } else {
                cleared
            }
        } else {
            gone
        }
    }

    pub open spec fn request_close_window(self, id: WindowId) -> Self {
        if self.windows.is_live(id) {
            self.emit(Effect::Close(self.windows.window(id).handle))
        } else {
            self
        }
    }

    pub open spec fn show_window(self, id: WindowId) -> Self {
        if self.windows.is_live(id) {
            self.emit(Effect::BringToFrontAndFocus(self.windows.window(id).handle))
        } else {
            self
        }
    }

    /// The window `id` paints on `piet`. What comes back is the state, the
    /// surface as painted, and whether another frame is wanted.
    pub open spec fn paint(self, id: WindowId, piet: W::Piet) -> (Self, W::Piet, bool) {
        if self.windows.is_live(id) {
            let o = self.windows.window(id).root.paint_outcome(piet, self.data, self.env);
            (self.with_root(id, o.tree).enqueue(o.commands), o.piet, o.more_frames)
        } else {
            (self, piet, false)
        }
    }

    /// The event goes to the window `id` and to no other. A window that is
    /// not live gets nothing, and the event counts as not handled.
    pub open spec fn deliver(self, id: WindowId, event: Event) -> (Self, bool) {
        if self.windows.is_live(id) {
            let o = self.windows.window(id).root.event_outcome(event, self.data, self.env);
            (AppModel { data: o.data, ..self.with_root(id, o.tree) }.enqueue(o.commands), o.handled)
        } else {
            (self, false)
        }
    }

    /// The event is offered to the live windows from the place `from` on, in
    /// the order of the passes, until one says that it handled the event. The
    /// windows behind that one are not asked.
    pub open spec fn broadcast(self, event: Event, from: int) -> (Self, bool)
        decreases self.windows.live.len() - from,
    {
        if from < 0 || from >= self.windows.live.len() {
            (self, false)
        } else {
            let o = self.windows.live[from].1.root.event_outcome(event, self.data, self.env);
            let next = AppModel { data: o.data, ..self.with_root_at(from, o.tree) }.enqueue(
                o.commands,
            );
            if o.handled {
                (next, true)
            } else {
                next.broadcast(event, from + 1)
            }
        }
    }

    /// The windows that a broadcast from the place `from` on asks, in the
    /// order in which it asks them: for each its id, the application data
    /// as the window found it, and what the window answered.
    pub open spec fn asked(self, event: Event, from: int) -> Seq<Asked<W>>
        decreases self.windows.live.len() - from,
    {
        if from < 0 || from >= self.windows.live.len() {
            Seq::empty()
        } else {
            let o = self.windows.live[from].1.root.event_outcome(event, self.data, self.env);
            let first = Asked {
                id: self.windows.live[from].0,
                data: self.data,
                handled: o.handled,
            };
            let next = AppModel { data: o.data, ..self.with_root_at(from, o.tree) }.enqueue(
                o.commands,
            );
            if o.handled {
                seq![first]
            } else {
                seq![first] + next.asked(event, from + 1)
            }
        }
    }

    pub open spec fn set_menu(self, id: WindowId, command: Command) -> Self {
        if self.windows.is_live(id) {
            match command.menu() {
                Some(menu) => self.with_root(
                    id,
                    self.windows.window(id).root.with_menu(menu, self.data, self.env),
                ),
                None => self.log(Level::Warn, Notice::BadPayload(Selector::SetMenu)),
            }
        } else {
            self
        }
    }

    pub open spec fn show_context_menu(self, id: WindowId, command: Command) -> Self {
        if self.windows.is_live(id) {
            match command.context_menu() {
                Some(context) => self.with_root(
                    id,
                    self.windows.window(id).root.with_context_menu(
                        context.menu,
                        context.location,
                        self.data,
                        self.env,
                    ),
                ),
                None => self.log(Level::Warn, Notice::BadPayload(Selector::ShowContextMenu)),
            }
        } else {
            self
        }
    }

    /// Where an event goes once the delegate has let it pass. A command that
    /// sets a menu or shows a context menu is carried out on the window
    /// `source` and goes no further. A command for a widget is offered to
    /// every live window in turn. Everything else goes to the window
    /// `source`.
    pub open spec fn route(self, source: WindowId, event: Event) -> (Self, bool) {
        match event {
            Event::TargetedCommand(target, command) => {
                if command.selector == Selector::SetMenu {
                    (self.set_menu(source, command), true)
                } else if command.selector == Selector::ShowContextMenu {
                    (self.show_context_menu(source, command), true)
                } else if target is Widget {
                    self.broadcast(event, 0)
                } else {
                    self.deliver(source, event)
                }
            },
            _ => self.deliver(source, event),
        }
    }

    /// An event for the window `source`: the delegate first, then the
    /// windows. An event that the delegate swallows counts as handled and
    /// reaches no window.
    pub open spec fn do_event(self, source: WindowId, event: Event) -> (Self, bool) {
        let (next, passed) = self.delegate_event(source, event);
        match passed {
            Some(event) => next.route(source, event),
            None => (next, true),
        }
    }

    /// Every live window from the place `from` on is told that the data may
    /// have changed.
    pub open spec fn update_pass(self, from: int) -> Self
        decreases self.windows.live.len() - from,
    {
        if from < 0 || from >= self.windows.live.len() {
            self
        } else {
            self.with_root_at(
                from,
                self.windows.live[from].1.root.updated(self.data, self.env),
            ).update_pass(from + 1)
        }
    }

    /// Every live window from the place `from` on settles; for each that is
    /// to be painted again the platform is asked to repaint it.
    pub open spec fn invalidate_pass(self, from: int) -> Self
        decreases self.windows.live.len() - from,
    {
        if from < 0 || from >= self.windows.live.len() {
            self
        } else {
            let o = self.windows.live[from].1.root.invalidate_outcome(self.data, self.env);
            let settled = self.with_root_at(from, o.tree).enqueue(o.commands);
            let asked = if o.redraw {
                settled.emit(Effect::Invalidate(self.windows.live[from].1.handle))
            } else {
                settled
            };
            asked.invalidate_pass(from + 1)
        }
    }

    /// Whether every live window has settled on the data and environment as
    /// they are.
    pub open spec fn all_settled(self) -> bool {
        forall|i: int|
            0 <= i < self.windows.live.len() ==> settled(
                #[trigger] self.windows.live[i].1.root,
                self.data,
                self.env,
            )
    }

    pub open spec fn invalidate_and_finalize(self) -> Self {
        self.invalidate_pass(0)
    }

    pub open spec fn do_update(self) -> Self {
        self.update_pass(0).invalidate_and_finalize()
    }

    pub open spec fn window_got_focus(self, id: WindowId) -> Self {
        if self.windows.is_live(id) {
            self.with_root(id, self.windows.window(id).root.with_app_menu(self.data, self.env))
        } else {
            self
        }
    }

    pub open spec fn get_menu_cmd(self, id: WindowId, menu_id: u32) -> Option<Command> {
        if self.windows.is_live(id) {
            self.windows.window(id).root.menu_cmd(menu_id)
        } else {
            None
        }
    }

    /// What follows a file dialog for the window `id`: a command with the
    /// chosen file goes to that window at once; where the user gave up,
    /// nothing happens.
    pub open spec fn file_chosen(self, id: WindowId, selector: Selector, choice: Option<FileInfo>)
        -> Self {
        match choice {
            Some(info) => self.do_event(
                id,
                Event::TargetedCommand(
                    Target::Window(id),
                    Command { selector, payload: Payload::FileInfo(info) },
                ),
            ).0,
            None => self,
        }
    }

    /// Whether the command describes a window that can be created: the
    /// payload is a window description, and its id is not in use.
    pub open spec fn can_create(self, command: Command) -> bool {
        match command.window_desc() {
            Some(desc) => !self.windows.is_pending(desc.id) && !self.windows.is_live(desc.id),
            None => false,
        }
    }

    /// What follows the platform's attempt to make the window that waits
    /// under the id of `desc`, and what went wrong if something did. A window
    /// that the platform has made is connected and shown. One that it could
    /// not make stays among those that wait.
    pub open spec fn window_made(
        self,
        desc: WindowDesc,
        made: Result<WindowHandle, PlatformError>,
    ) -> (Self, Option<Notice>) {
        match made {
            Ok(handle) => (self.connect(desc.id, handle).emit(Effect::Show(handle)), None),
            Err(error) => (self, Some(Notice::WindowCreationFailed(desc.id, error))),
        }
    }

    /// What follows a command to create a window, given what the platform
    /// made of it, and what went wrong if something did. The platform is
    /// asked only where the window can be created: the window is then put
    /// among those that wait, with the tree that its description asks for.
    pub open spec fn try_new_window(
        self,
        command: Command,
        made: Result<WindowHandle, PlatformError>,
    ) -> (Self, Option<Notice>) {
        match command.window_desc() {
            None => (self, Some(Notice::BadPayload(Selector::NewWindow))),
            Some(desc) => if !self.can_create(command) {
                (self, Some(Notice::DuplicateWindow(desc.id)))
            } else {
                self.add_window(desc.id, PendingWindow { root: W::built(desc) }).window_made(
                    desc,
                    made,
                )
            },
        }
    }

    /// As `try_new_window`, with what went wrong logged as an error.
    pub open spec fn new_window(self, command: Command, made: Result<WindowHandle, PlatformError>)
        -> Self {
        let (next, failure) = self.try_new_window(command, made);
        match failure {
            Some(notice) => next.log(Level::Error, notice),
            None => next,
        }
    }

    /// The window that a command to close a window means: the one that the
    /// payload names, or else the one that the command was sent to.
    pub open spec fn close_target(command: Command, sent_to: WindowId) -> WindowId {
        match command.window_id() {
            Some(id) => id,
            None => sent_to,
        }
    }

    /// Whether the handling of a command with this target asks the platform
    /// something: which file, what is on the clipboard, or for a window.
    pub open spec fn asks_platform(target: Target, command: Command) -> bool {
        &&& target is Window
        &&& command.selector == Selector::ShowOpenPanel || command.selector
            == Selector::ShowSavePanel || command.selector == Selector::NewWindow
            || command.selector == Selector::Paste
    }

    /// One command is handled, on behalf of the handler of the window `me`,
    /// with `reply` for what the platform answers.
    pub open spec fn handle_cmd(
        self,
        me: WindowId,
        target: Target,
        command: Command,
        reply: ShellReply,
    ) -> Self {
        match target {
            Target::Window(id) => match command.selector {
                Selector::ShowOpenPanel => self.file_chosen(id, Selector::OpenFile, reply.file),
                Selector::ShowSavePanel => self.file_chosen(id, Selector::SaveFile, reply.file),
                Selector::NewWindow => self.new_window(command, reply.window),
                Selector::CloseWindow => self.request_close_window(Self::close_target(command, id)),
                Selector::ShowWindow => match command.window_id() {
                    Some(shown) => self.show_window(shown),
                    None => self.log(Level::Warn, Notice::BadPayload(Selector::ShowWindow)),
                },
                Selector::QuitApp => self.emit(Effect::Quit),
                Selector::HideApplication => self.emit(Effect::HideApplication),
                Selector::HideOthers => self.emit(Effect::HideOthers),
                Selector::Paste => self.do_event(id, Event::Paste(reply.clipboard)).0,
                _ => self.do_event(id, Event::TargetedCommand(target, command)).0,
            },
            Target::Widget(_) => self.do_event(me, Event::TargetedCommand(target, command)).0,
        }
    }

    /// The oldest waiting command is taken out of the queue and handled.
    /// With an empty queue nothing happens.
    pub open spec fn step(self, me: WindowId, reply: ShellReply) -> Self {
        if self.queue.len() == 0 {
            self
        } else {
            AppModel { queue: self.queue.drop_first(), ..self }.handle_cmd(
                me,
                self.queue[0].0,
                self.queue[0].1,
                reply,
            )
        }
    }

    /// As many steps as there are replies, one after the other.
    pub open spec fn run(self, me: WindowId, replies: Seq<ShellReply>) -> Self
        decreases replies.len(),
    {
        if replies.len() == 0 {
            self
        } else {
            self.run(me, replies.drop_last()).step(me, replies.last())
        }
    }

    /// The commands that `run` handles, in the order in which it handles
    /// them.
    pub open spec fn handled(self, me: WindowId, replies: Seq<ShellReply>) -> Seq<(Target, Command)>
        decreases replies.len(),
    {
        if replies.len() == 0 {
            Seq::empty()
        } else {
            let before = self.run(me, replies.drop_last());
            let earlier = self.handled(me, replies.drop_last());
            if before.queue.len() == 0 {
                earlier
            } else {
                earlier.push(before.queue[0])
            }
        }
    }

    /// Whether `after` is what a drain of the command queue makes of this
    /// state, with `replies` for what the platform answered, command by
    /// command. The drain takes the oldest command, handles it, and goes on
    /// with what is then the oldest, commands that were enqueued meanwhile
    /// included. It ends when the queue is empty, or at the limit.
    pub open spec fn drains_to(self, me: WindowId, replies: Seq<ShellReply>, after: Self) -> bool {
        &&& after == self.run(me, replies)
        &&& replies.len() <= DRAIN_LIMIT
        &&& after.queue.len() == 0 || replies.len() == DRAIN_LIMIT
    }

    /// The oldest external command is taken out of the inbox and handled. One
    /// that came without a target goes to the window `me`.
    pub open spec fn ext_step(self, me: WindowId, reply: ShellReply) -> Self {
        if self.host.inbox.len() == 0 {
            self
        } else {
            AppModel { host: self.host.recv(), ..self }.handle_cmd(
                me,
                Target::resolved(self.host.inbox[0].0, me),
                self.host.inbox[0].1,
                reply,
            )
        }
    }

    pub open spec fn ext_run(self, me: WindowId, replies: Seq<ShellReply>) -> Self
        decreases replies.len(),
    {
        if replies.len() == 0 {
            self
        } else {
            self.ext_run(me, replies.drop_last()).ext_step(me, replies.last())
        }
    }

    /// Whether `after` is what the handling of the external commands makes
    /// of this state: the wakeup is noted; every command in the inbox is
    /// handled, the oldest first, with `ext_replies` for what the platform
    /// answered; then the command queue is drained, with `replies` for what
    /// the platform answered there; then every window is updated and
    /// settles.
    pub open spec fn ext_drains_to(
        self,
        me: WindowId,
        ext_replies: Seq<ShellReply>,
        replies: Seq<ShellReply>,
        after: Self,
    ) -> bool {
        let received = AppModel { host: self.host.wake_received(), ..self }.ext_run(
            me,
            ext_replies,
        );
        let drained = received.run(me, replies);
        &&& ext_replies.len() == self.host.inbox.len()
        &&& received.host.inbox.len() == 0
        &&& received.drains_to(me, replies, drained)
        &&& after == drained.do_update()
    }

    /// Whether `after` is what one platform event for the window `me` makes
    /// of this state: the event is dispatched, the command queue is drained,
    /// every window is updated and settles.
    pub open spec fn event_cycle(
        self,
        me: WindowId,
        event: Event,
        replies: Seq<ShellReply>,
        after: Self,
    ) -> bool {
        let dispatched = self.do_event(me, event).0;
        let drained = dispatched.run(me, replies);
        &&& dispatched.drains_to(me, replies, drained)
        &&& after == drained.do_update()
    }

    /// The state with the command of a platform menu id in the queue, or
    /// with a warning where the window `me` has no command under that id.
    pub open spec fn menu_chosen(self, me: WindowId, menu_id: u32) -> Self {
        match self.get_menu_cmd(me, menu_id) {
            Some(command) => self.enqueue(seq![(Target::Window(me), command)]),
            None => self.log(Level::Warn, Notice::NoMenuCommand(menu_id)),
        }
    }

    /// Whether `after` is what an idle callback with `token` makes of this
    /// state. With the token that asks for the command queue to be drained,
    /// the queue is drained and the windows settle. With the token for
    /// external commands, these are handled as `ext_drains_to` says. With any
    /// other token one error is logged and nothing else changes.
    pub open spec fn idles_to(
        self,
        me: WindowId,
        token: IdleToken,
        ext_replies: Seq<ShellReply>,
        replies: Seq<ShellReply>,
        after: Self,
    ) -> bool {
        if token.raw == RUN_COMMANDS_TOKEN {
            let drained = self.run(me, replies);
            self.drains_to(me, replies, drained) && after == drained.invalidate_and_finalize()
        } else if token.raw == EXT_EVENT_IDLE_TOKEN {
            self.ext_drains_to(me, ext_replies, replies, after)
        } else {
            after == self.log(Level::Error, Notice::UnexpectedIdleToken(token))
        }
    }
}

} // verus!
