//! The handler of one window: it turns each callback of the platform into an
//! event and drives the application state through the cycle that follows.

use vstd::prelude::*;
use crate::app_state::AppState;
use crate::command::{Command, FileInfo, Payload, Selector, Target, WindowDesc};
use crate::delegate::AppDelegate;
use crate::event::{
    Clipboard, Event, KeyEvent, KeyModifiers, MouseEvent, Scalar, Size, Vec2, WheelEvent,
};
use crate::ids::{IdleToken, TimerToken, WindowId, EXT_EVENT_IDLE_TOKEN, RUN_COMMANDS_TOKEN};
use crate::laws::{lemma_do_update_follows, lemma_handle_cmd_follows, lemma_run_keeps_inbox};
use crate::model::{AppModel, DRAIN_LIMIT};
use crate::shell::{Effect, Level, Notice, PlatformError, ShellReply, WinCtx, WindowHandle};
use crate::window::{PendingWindow, WidgetTree};

verus! {

/// Takes the callbacks of the platform for one window.
///
/// One `DruidHandler` exists per window. The handlers of all windows work on
/// one application state; whoever calls a handler hands it that state for the
/// length of the call.
pub struct DruidHandler {
    /// The id for the current window.
    window_id: WindowId,
}

impl DruidHandler {
    /// The id of the window that this handler is for.
    pub closed spec fn id(&self) -> WindowId {
        self.window_id
    }

    /// The handler for the window `window_id`. The widget tree is not given
    /// here: it is in the application state.
    pub fn new_shared(window_id: WindowId) -> (handler: DruidHandler)
        ensures
            handler.id() == window_id,
    {
        DruidHandler { window_id }
    }

    pub fn window_id(&self) -> (id: WindowId)
        ensures
            id == self.id(),
    {
        self.window_id
    }

    /// Shows the dialog for opening a file, with the options in the command's
    /// payload or else the plain ones. If the user chooses a file, a command
    /// to open it is dispatched to the window at once.
    pub fn show_open_panel<W: WidgetTree, D: AppDelegate<W::Data, W::Env>, C: WinCtx>(
        &self,
        state: &mut AppState<W, D>,
        cmd: Command,
        window_id: WindowId,
        win_ctx: &mut C,
    )
        requires
            old(state)@.wf(),
        ensures
            final(state)@.wf(),
            exists|choice: Option<FileInfo>|
                final(state)@ == #[trigger] old(state)@.file_chosen(
                    window_id,
                    Selector::OpenFile,
                    choice,
                ),
    {
        let options = cmd.get_dialog_options();
        let result = win_ctx.open_file_sync(options);
        Self::file_chosen(state, window_id, Selector::OpenFile, result);
    }

    /// Shows the dialog for saving a file, with the options in the command's
    /// payload or else the plain ones. If the user chooses a file, a command
    /// to save to it is dispatched to the window at once.
    pub fn show_save_panel<W: WidgetTree, D: AppDelegate<W::Data, W::Env>, C: WinCtx>(
        &self,
        state: &mut AppState<W, D>,
        cmd: Command,
        window_id: WindowId,
        win_ctx: &mut C,
    )
        requires
            old(state)@.wf(),
        ensures
            final(state)@.wf(),
            exists|choice: Option<FileInfo>|
                final(state)@ == #[trigger] old(state)@.file_chosen(
                    window_id,
                    Selector::SaveFile,
                    choice,
                ),
    {
        let options = cmd.get_dialog_options();
        let result = win_ctx.save_as_sync(options);
        Self::file_chosen(state, window_id, Selector::SaveFile, result);
    }

    /// What follows a file dialog for the window `window_id`: where the user
    /// chose a file, a command with `selector` and the file goes to that
    /// window at once; where the user gave up, nothing happens.
    pub fn file_chosen<W: WidgetTree, D: AppDelegate<W::Data, W::Env>>(
        state: &mut AppState<W, D>,
        window_id: WindowId,
        selector: Selector,
        choice: Option<FileInfo>,
    )
        requires
            old(state)@.wf(),
        ensures
            final(state)@ == old(state)@.file_chosen(window_id, selector, choice),
            final(state)@.wf(),
    {
        match choice {
            Some(info) => {
                let cmd = Command::new(selector, Payload::FileInfo(info));
                let event = Event::TargetedCommand(Target::Window(window_id), cmd);
                state.do_event(window_id, event);
            },
            None => {},
        }
    }

    /// Creates the window that the command's payload describes: the window
    /// is put among those that wait, the platform is asked to make it, and
    /// when it has, the window is connected and shown. The result says what
    /// went wrong, if something did: the payload is no window description,
    /// the id is in use, or the platform failed.
    pub fn new_window<W: WidgetTree, D: AppDelegate<W::Data, W::Env>, C: WinCtx>(
        &self,
        state: &mut AppState<W, D>,
        cmd: Command,
        win_ctx: &mut C,
    ) -> (result: Result<(), Notice>)
        requires
            old(state)@.wf(),
        ensures
            final(state)@.wf(),
            exists|made: Result<WindowHandle, PlatformError>|
                {
                    let outcome = #[trigger] old(state)@.try_new_window(cmd, made);
                    &&& final(state)@ == outcome.0
                    &&& match result {
                        Ok(_) => outcome.1 is None,
                        Err(notice) => outcome.1 == Some(notice),
                    }
                },
    {
        let desc = match cmd.get_window_desc() {
            Some(desc) => desc,
            None => {
                proof {
                    let made = Err::<WindowHandle, PlatformError>(PlatformError { code: 0 });
                    assert(state@ == old(state)@.try_new_window(cmd, made).0);
                }
                return Err(Notice::BadPayload(Selector::NewWindow));
            },
        };
        if state.has_window(desc.id) {
            proof {
                let made = Err::<WindowHandle, PlatformError>(PlatformError { code: 0 });
                assert(state@ == old(state)@.try_new_window(cmd, made).0);
            }
            return Err(Notice::DuplicateWindow(desc.id));
        }
        let root = W::build(&desc);
        state.add_window(desc.id, PendingWindow::new(root));
        let made = win_ctx.build_window(&desc);
        let result = Self::window_made(state, desc, made);
        proof {
            assert(state@ == old(state)@.try_new_window(cmd, made).0);
        }
        result
    }

    /// What follows the platform's attempt to make the window that waits
    /// under the id of `desc`: a window that the platform has made is
    /// connected and shown; for one that it could not make, the result says
    /// so, and the window goes on waiting.
    pub fn window_made<W: WidgetTree, D: AppDelegate<W::Data, W::Env>>(
        state: &mut AppState<W, D>,
        desc: WindowDesc,
        made: Result<WindowHandle, PlatformError>,
    ) -> (result: Result<(), Notice>)
        requires
            old(state)@.wf(),
        ensures
            final(state)@ == old(state)@.window_made(desc, made).0,
            match result {
                Ok(_) => old(state)@.window_made(desc, made).1 is None,
                Err(notice) => old(state)@.window_made(desc, made).1 == Some(notice),
            },
            final(state)@.wf(),
    {
        match made {
            Ok(handle) => {
                state.connect(desc.id, handle);
                state.emit(Effect::Show(handle));
                Ok(())
            },
            Err(error) => Err(Notice::WindowCreationFailed(desc.id, error)),
        }
    }

    /// Asks the platform to close a window: the one that the command's
    /// payload names, or else `window_id`.
    pub fn request_close_window<W: WidgetTree, D: AppDelegate<W::Data, W::Env>>(
        &self,
        state: &mut AppState<W, D>,
        cmd: Command,
        window_id: WindowId,
    )
        requires
            old(state)@.wf(),
        ensures
            final(state)@ == old(state)@.request_close_window(
                AppModel::<W, D>::close_target(cmd, window_id),
            ),
            final(state)@.wf(),
    {
        let id = match cmd.get_window_id() {
            Some(id) => id,
            None => window_id,
        };
        state.request_close_window(id);
    }

    /// Brings the window that the command's payload names to the front. A
    /// payload that names no window is reported and nothing else happens.
    pub fn show_window<W: WidgetTree, D: AppDelegate<W::Data, W::Env>>(
        &self,
        state: &mut AppState<W, D>,
        cmd: Command,
    )
        requires
            old(state)@.wf(),
        ensures
            final(state)@ == match cmd.window_id() {
                Some(id) => old(state)@.show_window(id),
                None => old(state)@.log(Level::Warn, Notice::BadPayload(Selector::ShowWindow)),
            },
            final(state)@.wf(),
    {
        match cmd.get_window_id() {
            Some(id) => state.show_window(id),
            None => state.log(Level::Warn, Notice::BadPayload(Selector::ShowWindow)),
        }
    }

    /// Reads the clipboard and dispatches a paste event with what it holds to
    /// the window `window_id`.
    pub fn do_paste<W: WidgetTree, D: AppDelegate<W::Data, W::Env>, C: WinCtx>(
        &self,
        state: &mut AppState<W, D>,
        window_id: WindowId,
        ctx: &mut C,
    )
        requires
            old(state)@.wf(),
        ensures
            final(state)@.wf(),
            exists|contents: Clipboard|
                final(state)@ == #[trigger] old(state)@.do_event(
                    window_id,
                    Event::Paste(contents),
                ).0,
    {
        let event = Event::Paste(ctx.clipboard());
        state.do_event(window_id, event);
    }

    /// Asks the platform to end the application.
    pub fn quit<W: WidgetTree, D: AppDelegate<W::Data, W::Env>>(&self, state: &mut AppState<W, D>)
        ensures
            final(state)@ == old(state)@.emit(Effect::Quit),
            old(state)@.wf() ==> final(state)@.wf(),
    {
        state.emit(Effect::Quit);
    }

    /// Asks the platform to hide the application. Platforms that cannot hide
    /// an application pass the request over.
    pub fn hide_app<W: WidgetTree, D: AppDelegate<W::Data, W::Env>>(
        &self,
        state: &mut AppState<W, D>,
    )
        ensures
            final(state)@ == old(state)@.emit(Effect::HideApplication),
            old(state)@.wf() ==> final(state)@.wf(),
    {
        state.emit(Effect::HideApplication);
    }

    /// Asks the platform to hide all other applications. Platforms that
    /// cannot do so pass the request over.
    pub fn hide_others<W: WidgetTree, D: AppDelegate<W::Data, W::Env>>(
        &self,
        state: &mut AppState<W, D>,
    )
        ensures
            final(state)@ == old(state)@.emit(Effect::HideOthers),
            old(state)@.wf() ==> final(state)@.wf(),
    {
        state.emit(Effect::HideOthers);
    }

    /// Handles one command. The commands for a window that this layer
    /// understands itself (dialogs, creating, closing and showing windows,
    /// quitting and hiding, pasting) are carried out here; every other
    /// command goes to the windows as an event. A command for a widget goes
    /// to the windows as an event on behalf of this handler's window.
    pub fn handle_cmd<W: WidgetTree, D: AppDelegate<W::Data, W::Env>, C: WinCtx>(
        &self,
        state: &mut AppState<W, D>,
        target: Target,
        cmd: Command,
        win_ctx: &mut C,
    )
        requires
            old(state)@.wf(),
        ensures
            final(state)@.wf(),
            exists|reply: ShellReply|
                final(state)@ == #[trigger] old(state)@.handle_cmd(self.id(), target, cmd, reply),
    {
        let ghost quiet = ShellReply {
            file: None,
            clipboard: Clipboard { text: None },
            window: Err(PlatformError { code: 0 }),
        };
        match target {
            Target::Window(window_id) => {
                match cmd.selector {
                    Selector::ShowOpenPanel => {
                        self.show_open_panel(state, cmd, window_id, win_ctx);
                        proof {
                            let choice = choose|choice: Option<FileInfo>|
                                state@ == #[trigger] old(state)@.file_chosen(
                                    window_id,
                                    Selector::OpenFile,
                                    choice,
                                );
                            let reply = ShellReply { file: choice, ..quiet };
                            assert(state@ == old(state)@.handle_cmd(self.id(), target, cmd, reply));
                        }
                    },
                    Selector::ShowSavePanel => {
                        self.show_save_panel(state, cmd, window_id, win_ctx);
                        proof {
                            let choice = choose|choice: Option<FileInfo>|
                                state@ == #[trigger] old(state)@.file_chosen(
                                    window_id,
                                    Selector::SaveFile,
                                    choice,
                                );
                            let reply = ShellReply { file: choice, ..quiet };
                            assert(state@ == old(state)@.handle_cmd(self.id(), target, cmd, reply));
                        }
                    },
                    Selector::NewWindow => {
                        let created = self.new_window(state, cmd, win_ctx);
                        let ghost tried = state@;
                        match created {
                            Ok(_) => {},
                            Err(notice) => state.log(Level::Error, notice),
                        }
                        proof {
                            let made = choose|made: Result<WindowHandle, PlatformError>|
                                {
                                    let outcome = #[trigger] old(state)@.try_new_window(cmd, made);
                                    &&& tried == outcome.0
                                    &&& match created {
                                        Ok(_) => outcome.1 is None,
                                        Err(notice) => outcome.1 == Some(notice),
                                    }
                                };
                            let reply = ShellReply { window: made, ..quiet };
                            assert(state@ == old(state)@.handle_cmd(self.id(), target, cmd, reply));
                        }
                    },
                    Selector::CloseWindow => {
                        self.request_close_window(state, cmd, window_id);
                        proof {
                            assert(state@ == old(state)@.handle_cmd(self.id(), target, cmd, quiet));
                        }
                    },
                    Selector::ShowWindow => {
                        self.show_window(state, cmd);
                        proof {
                            assert(state@ == old(state)@.handle_cmd(self.id(), target, cmd, quiet));
                        }
                    },
                    Selector::QuitApp => {
                        self.quit(state);
                        proof {
                            assert(state@ == old(state)@.handle_cmd(self.id(), target, cmd, quiet));
                        }
                    },
                    Selector::HideApplication => {
                        self.hide_app(state);
                        proof {
                            assert(state@ == old(state)@.handle_cmd(self.id(), target, cmd, quiet));
                        }
                    },
                    Selector::HideOthers => {
                        self.hide_others(state);
                        proof {
                            assert(state@ == old(state)@.handle_cmd(self.id(), target, cmd, quiet));
                        }
                    },
                    Selector::Paste => {
                        self.do_paste(state, window_id, win_ctx);
                        proof {
                            let contents = choose|contents: Clipboard|
                                state@ == #[trigger] old(state)@.do_event(
                                    window_id,
                                    Event::Paste(contents),
                                ).0;
                            let reply = ShellReply { clipboard: contents, ..quiet };
                            assert(state@ == old(state)@.handle_cmd(self.id(), target, cmd, reply));
                        }
                    },
                    _ => {
                        let event = Event::TargetedCommand(target, cmd);
                        state.do_event(window_id, event);
                        proof {
                            assert(state@ == old(state)@.handle_cmd(self.id(), target, cmd, quiet));
                        }
                    },
                }
            },
            Target::Widget(_) => {
                let event = Event::TargetedCommand(target, cmd);
                state.do_event(self.window_id, event);
                proof {
                    assert(state@ == old(state)@.handle_cmd(self.id(), target, cmd, quiet));
                }
            },
        }
    }

    /// Drains the command queue: takes the oldest command out and handles
    /// it, again and again, until no command waits. Commands that are
    /// enqueued while others are handled are handled in the same drain, in
    /// their turn. A drain that has handled `DRAIN_LIMIT` commands stops
    /// there.
    pub fn process_commands<W: WidgetTree, D: AppDelegate<W::Data, W::Env>, C: WinCtx>(
        &self,
        state: &mut AppState<W, D>,
        win_ctx: &mut C,
    )
        requires
            old(state)@.wf(),
        ensures
            final(state)@.wf(),
            exists|replies: Seq<ShellReply>| #[trigger]
                old(state)@.drains_to(self.id(), replies, final(state)@),
    {
        let ghost mut replies: Seq<ShellReply> = Seq::empty();
        let mut done: u64 = 0;
        loop
            invariant
                state@.wf(),
                replies.len() == done,
                done <= DRAIN_LIMIT,
                state@ == old(state)@.run(self.id(), replies),
            ensures
                state@.wf(),
                old(state)@.drains_to(self.id(), replies, state@),
            decreases DRAIN_LIMIT - done,
        {
            if done >= DRAIN_LIMIT {
                break ;
            }
            let ghost before = state@;
            match state.next_command() {
                Some((target, cmd)) => {
                    let ghost popped = state@;
                    self.handle_cmd(state, target, cmd, win_ctx);
                    proof {
                        let reply = choose|reply: ShellReply|
                            state@ == #[trigger] popped.handle_cmd(self.id(), target, cmd, reply);
                        let longer = replies.push(reply);
                        assert(longer.drop_last() =~= replies);
                        assert(state@ == before.step(self.id(), reply));
                        replies = longer;
                    }
                    done += 1;
                },
                None => {
                    break ;
                },
            }
        }
    }

    /// Handles every command that was submitted from outside the event loop,
    /// the oldest first, and then goes through the rest of a cycle: the
    /// command queue is drained, every window is updated and settles. A
    /// command that came without a target goes to this handler's window.
    pub fn process_ext_events<W: WidgetTree, D: AppDelegate<W::Data, W::Env>, C: WinCtx>(
        &self,
        state: &mut AppState<W, D>,
        win_ctx: &mut C,
    )
        requires
            old(state)@.wf(),
        ensures
            final(state)@.wf(),
            final(state)@.all_settled(),
            final(state)@.host.inbox.len() == 0,
            exists|ext_replies: Seq<ShellReply>, replies: Seq<ShellReply>| #[trigger]
                old(state)@.ext_drains_to(self.id(), ext_replies, replies, final(state)@),
    {
        state.ext_wake_received();
        let ghost start = state@;
        let ghost mut ext_replies: Seq<ShellReply> = Seq::empty();
        loop
            invariant
                state@.wf(),
                state@ == start.ext_run(self.id(), ext_replies),
                ext_replies.len() + state@.host.inbox.len() == start.host.inbox.len(),
            ensures
                state@.wf(),
                state@ == start.ext_run(self.id(), ext_replies),
                ext_replies.len() == start.host.inbox.len(),
                state@.host.inbox.len() == 0,
            decreases state@.host.inbox.len(),
        {
            let ghost before = state@;
            match state.recv_ext_event() {
                Some((targ, cmd)) => {
                    let ghost taken = state@;
                    let targ = Target::resolve(targ, self.window_id);
                    self.handle_cmd(state, targ, cmd, win_ctx);
                    proof {
                        let reply = choose|reply: ShellReply|
                            state@ == #[trigger] taken.handle_cmd(self.id(), targ, cmd, reply);
                        lemma_handle_cmd_follows(taken, self.id(), targ, cmd, reply);
                        let longer = ext_replies.push(reply);
                        assert(longer.drop_last() =~= ext_replies);
                        assert(state@ == before.ext_step(self.id(), reply));
                        ext_replies = longer;
                    }
                },
                None => {
                    break ;
                },
            }
        }
        let ghost received = state@;
        self.process_commands(state, win_ctx);
        let ghost drained = state@;
        state.do_update();
        proof {
            let replies = choose|replies: Seq<ShellReply>| #[trigger]
                received.drains_to(self.id(), replies, drained);
            lemma_run_keeps_inbox(received, self.id(), replies);
            lemma_do_update_follows(drained);
            assert(start == (AppModel { host: old(state)@.host.wake_received(), ..old(state)@ }));
            assert(old(state)@.ext_drains_to(self.id(), ext_replies, replies, state@));
        }
    }

    /// The platform says that a menu item was chosen: the command that the
    /// window's menus hold under `cmd_id` is enqueued, or a warning is logged
    /// where they hold none, and the command queue is drained.
    pub fn handle_system_cmd<W: WidgetTree, D: AppDelegate<W::Data, W::Env>, C: WinCtx>(
        &self,
        state: &mut AppState<W, D>,
        cmd_id: u32,
        win_ctx: &mut C,
    )
        requires
            old(state)@.wf(),
        ensures
            final(state)@.wf(),
            exists|replies: Seq<ShellReply>| #[trigger]
                old(state)@.menu_chosen(self.id(), cmd_id).drains_to(
                    self.id(),
                    replies,
                    final(state)@,
                ),
    {
        let cmd = state.get_menu_cmd(self.window_id, cmd_id);
        match cmd {
            Some(cmd) => state.submit_command(Target::Window(self.window_id), cmd),
            None => state.log(Level::Warn, Notice::NoMenuCommand(cmd_id)),
        }
        self.process_commands(state, win_ctx)
    }

    /// Sends an event through one full cycle: the event is dispatched, the
    /// command queue is drained, every window is updated and settles.
    ///
    /// Returns `true` if the event was handled. The platform needs to know,
    /// for some events, whether to go on with what it does by default.
    pub fn do_event<W: WidgetTree, D: AppDelegate<W::Data, W::Env>, C: WinCtx>(
        &self,
        state: &mut AppState<W, D>,
        event: Event,
        win_ctx: &mut C,
    ) -> (handled: bool)
        requires
            old(state)@.wf(),
        ensures
            final(state)@.wf(),
            final(state)@.all_settled(),
            handled == old(state)@.do_event(self.id(), event).1,
            exists|replies: Seq<ShellReply>| #[trigger]
                old(state)@.event_cycle(self.id(), event, replies, final(state)@),
    {
        let result = state.do_event(self.window_id, event);
        let ghost dispatched = state@;
        self.process_commands(state, win_ctx);
        let ghost drained = state@;
        state.do_update();
        proof {
            let replies = choose|replies: Seq<ShellReply>| #[trigger]
                dispatched.drains_to(self.id(), replies, drained);
            assert(old(state)@.event_cycle(self.id(), event, replies, state@));
        }
        result
    }

    /// The platform has a handle for this handler's window.
    pub fn connect<W: WidgetTree, D: AppDelegate<W::Data, W::Env>>(
        &self,
        state: &mut AppState<W, D>,
        handle: &WindowHandle,
    )
        requires
            old(state)@.wf(),
        ensures
            final(state)@ == old(state)@.connect(self.id(), *handle),
            final(state)@.wf(),
    {
        state.connect(self.window_id, *handle);
    }

    /// The window is real now: its tree hears of it.
    pub fn connected<W: WidgetTree, D: AppDelegate<W::Data, W::Env>, C: WinCtx>(
        &self,
        state: &mut AppState<W, D>,
        ctx: &mut C,
    )
        requires
            old(state)@.wf(),
        ensures
            final(state)@.wf(),
            final(state)@.all_settled(),
            exists|replies: Seq<ShellReply>| #[trigger]
                old(state)@.event_cycle(self.id(), Event::WindowConnected, replies, final(state)@),
    {
        self.do_event(state, Event::WindowConnected, ctx);
    }

    /// Lets the window paint. Returns `true` if the window wants another
    /// frame.
    pub fn paint<W: WidgetTree, D: AppDelegate<W::Data, W::Env>>(
        &self,
        state: &mut AppState<W, D>,
        piet: &mut W::Piet,
    ) -> (more_frames: bool)
        requires
            old(state)@.wf(),
        ensures
            final(state)@ == old(state)@.paint(self.id(), *old(piet)).0,
            *final(piet) == old(state)@.paint(self.id(), *old(piet)).1,
            more_frames == old(state)@.paint(self.id(), *old(piet)).2,
            final(state)@.wf(),
    {
        state.paint(self.window_id, piet)
    }

    /// The window has another size.
    pub fn size<W: WidgetTree, D: AppDelegate<W::Data, W::Env>, C: WinCtx>(
        &self,
        state: &mut AppState<W, D>,
        width: u32,
        height: u32,
        ctx: &mut C,
    )
        requires
            old(state)@.wf(),
        ensures
            final(state)@.wf(),
            final(state)@.all_settled(),
            exists|replies: Seq<ShellReply>| #[trigger]
                old(state)@.event_cycle(
                    self.id(),
                    Event::Size(Size { width, height }),
                    replies,
                    final(state)@,
                ),
    {
        self.do_event(state, Event::Size(Size { width, height }), ctx);
    }

    /// A menu item was chosen.
    pub fn command<W: WidgetTree, D: AppDelegate<W::Data, W::Env>, C: WinCtx>(
        &self,
        state: &mut AppState<W, D>,
        id: u32,
        ctx: &mut C,
    )
        requires
            old(state)@.wf(),
        ensures
            final(state)@.wf(),
            exists|replies: Seq<ShellReply>| #[trigger]
                old(state)@.menu_chosen(self.id(), id).drains_to(self.id(), replies, final(state)@),
    {
        self.handle_system_cmd(state, id, ctx);
    }

    /// A mouse button went down. Returns `true` if the event was handled.
    pub fn mouse_down<W: WidgetTree, D: AppDelegate<W::Data, W::Env>, C: WinCtx>(
        &self,
        state: &mut AppState<W, D>,
        event: &MouseEvent,
        ctx: &mut C,
    ) -> (handled: bool)
        requires
            old(state)@.wf(),
        ensures
            final(state)@.wf(),
            final(state)@.all_settled(),
            handled == old(state)@.do_event(self.id(), Event::MouseDown(*event)).1,
            exists|replies: Seq<ShellReply>| #[trigger]
                old(state)@.event_cycle(
                    self.id(),
                    Event::MouseDown(*event),
                    replies,
                    final(state)@,
                ),
    {
        self.do_event(state, Event::MouseDown(*event), ctx)
    }

    /// A mouse button came up. Returns `true` if the event was handled.
    pub fn mouse_up<W: WidgetTree, D: AppDelegate<W::Data, W::Env>, C: WinCtx>(
        &self,
        state: &mut AppState<W, D>,
        event: &MouseEvent,
        ctx: &mut C,
    ) -> (handled: bool)
        requires
            old(state)@.wf(),
        ensures
            final(state)@.wf(),
            final(state)@.all_settled(),
            handled == old(state)@.do_event(self.id(), Event::MouseUp(*event)).1,
            exists|replies: Seq<ShellReply>| #[trigger]
                old(state)@.event_cycle(self.id(), Event::MouseUp(*event), replies, final(state)@),
    {
        self.do_event(state, Event::MouseUp(*event), ctx)
    }

    /// The mouse moved. Returns `true` if the event was handled.
    pub fn mouse_move<W: WidgetTree, D: AppDelegate<W::Data, W::Env>, C: WinCtx>(
        &self,
        state: &mut AppState<W, D>,
        event: &MouseEvent,
        ctx: &mut C,
    ) -> (handled: bool)
        requires
            old(state)@.wf(),
        ensures
            final(state)@.wf(),
            final(state)@.all_settled(),
            handled == old(state)@.do_event(self.id(), Event::MouseMoved(*event)).1,
            exists|replies: Seq<ShellReply>| #[trigger]
                old(state)@.event_cycle(
                    self.id(),
                    Event::MouseMoved(*event),
                    replies,
                    final(state)@,
                ),
    {
        self.do_event(state, Event::MouseMoved(*event), ctx)
    }

    /// A key went down. Returns `true` if the event was handled.
    pub fn key_down<W: WidgetTree, D: AppDelegate<W::Data, W::Env>, C: WinCtx>(
        &self,
        state: &mut AppState<W, D>,
        event: KeyEvent,
        ctx: &mut C,
    ) -> (handled: bool)
        requires
            old(state)@.wf(),
        ensures
            final(state)@.wf(),
            final(state)@.all_settled(),
            handled == old(state)@.do_event(self.id(), Event::KeyDown(event)).1,
            exists|replies: Seq<ShellReply>| #[trigger]
                old(state)@.event_cycle(self.id(), Event::KeyDown(event), replies, final(state)@),
    {
        self.do_event(state, Event::KeyDown(event), ctx)
    }

    /// A key came up.
    pub fn key_up<W: WidgetTree, D: AppDelegate<W::Data, W::Env>, C: WinCtx>(
        &self,
        state: &mut AppState<W, D>,
        event: KeyEvent,
        ctx: &mut C,
    )
        requires
            old(state)@.wf(),
        ensures
            final(state)@.wf(),
            final(state)@.all_settled(),
            exists|replies: Seq<ShellReply>| #[trigger]
                old(state)@.event_cycle(self.id(), Event::KeyUp(event), replies, final(state)@),
    {
        self.do_event(state, Event::KeyUp(event), ctx);
    }

    /// The wheel turned.
    pub fn wheel<W: WidgetTree, D: AppDelegate<W::Data, W::Env>, C: WinCtx>(
        &self,
        state: &mut AppState<W, D>,
        delta: Vec2,
        mods: KeyModifiers,
        ctx: &mut C,
    )
        requires
            old(state)@.wf(),
        ensures
            final(state)@.wf(),
            final(state)@.all_settled(),
            exists|replies: Seq<ShellReply>| #[trigger]
                old(state)@.event_cycle(
                    self.id(),
                    Event::Wheel(WheelEvent { delta, mods }),
                    replies,
                    final(state)@,
                ),
    {
        self.do_event(state, Event::Wheel(WheelEvent { delta, mods }), ctx);
    }

    /// A zoom gesture was made.
    pub fn zoom<W: WidgetTree, D: AppDelegate<W::Data, W::Env>, C: WinCtx>(
        &self,
        state: &mut AppState<W, D>,
        delta: Scalar,
        ctx: &mut C,
    )
        requires
            old(state)@.wf(),
        ensures
            final(state)@.wf(),
            final(state)@.all_settled(),
            exists|replies: Seq<ShellReply>| #[trigger]
                old(state)@.event_cycle(self.id(), Event::Zoom(delta), replies, final(state)@),
    {
        self.do_event(state, Event::Zoom(delta), ctx);
    }

    /// The window has got the focus.
    pub fn got_focus<W: WidgetTree, D: AppDelegate<W::Data, W::Env>>(
        &self,
        state: &mut AppState<W, D>,
    )
        requires
            old(state)@.wf(),
        ensures
            final(state)@ == old(state)@.window_got_focus(self.id()),
            final(state)@.wf(),
    {
        state.window_got_focus(self.window_id);
    }

    /// A timer has run out.
    pub fn timer<W: WidgetTree, D: AppDelegate<W::Data, W::Env>, C: WinCtx>(
        &self,
        state: &mut AppState<W, D>,
        token: TimerToken,
        ctx: &mut C,
    )
        requires
            old(state)@.wf(),
        ensures
            final(state)@.wf(),
            final(state)@.all_settled(),
            exists|replies: Seq<ShellReply>| #[trigger]
                old(state)@.event_cycle(self.id(), Event::Timer(token), replies, final(state)@),
    {
        self.do_event(state, Event::Timer(token), ctx);
    }

    /// The platform calls back because the event loop is idle. The token
    /// says why the callback was asked for: to drain the command queue and
    /// let the windows settle, or to handle the external commands. Any
    /// other token is reported as an error and nothing else happens.
    pub fn idle<W: WidgetTree, D: AppDelegate<W::Data, W::Env>, C: WinCtx>(
        &self,
        state: &mut AppState<W, D>,
        token: IdleToken,
        ctx: &mut C,
    )
        requires
            old(state)@.wf(),
        ensures
            final(state)@.wf(),
            exists|ext_replies: Seq<ShellReply>, replies: Seq<ShellReply>| #[trigger]
                old(state)@.idles_to(self.id(), token, ext_replies, replies, final(state)@),
    {
        if token.raw == RUN_COMMANDS_TOKEN {
            self.process_commands(state, ctx);
            let ghost drained = state@;
            state.invalidate_and_finalize();
            proof {
                let replies = choose|replies: Seq<ShellReply>| #[trigger]
                    old(state)@.drains_to(self.id(), replies, drained);
                assert(old(state)@.idles_to(self.id(), token, Seq::empty(), replies, state@));
            }
        } else if token.raw == EXT_EVENT_IDLE_TOKEN {
            self.process_ext_events(state, ctx);
            proof {
                let (ext_replies, replies) = choose|
                    ext_replies: Seq<ShellReply>,
                    replies: Seq<ShellReply>,
                | #[trigger]
                    old(state)@.ext_drains_to(self.id(), ext_replies, replies, state@);
                assert(old(state)@.idles_to(self.id(), token, ext_replies, replies, state@));
            }
        } else {
            state.log(Level::Error, Notice::UnexpectedIdleToken(token));
            proof {
                assert(old(state)@.idles_to(
                    self.id(),
                    token,
                    Seq::empty(),
                    Seq::empty(),
                    state@,
                ));
            }
        }
    }

    /// The platform has destroyed the window. This is the one place where a
    /// live window leaves the registry.
    pub fn destroy<W: WidgetTree, D: AppDelegate<W::Data, W::Env>>(
        &self,
        state: &mut AppState<W, D>,
    )
        requires
            old(state)@.wf(),
        ensures
            final(state)@ == old(state)@.remove_window(self.id()),
            final(state)@.wf(),
    {
        state.remove_window(self.window_id);
    }
}

} // verus!
