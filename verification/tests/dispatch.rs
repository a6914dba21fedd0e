use druid_dispatch::app_state::AppState;
use druid_dispatch::command::{
    Command, ContextMenu, FileDialogOptions, FileInfo, MenuDesc, Payload, Selector, Target,
    WindowDesc,
};
use druid_dispatch::delegate::{AppDelegate, DelegateCall, DelegateCtx, DelegateReply, NoDelegate};
use druid_dispatch::event::{
    Clipboard, Event, KeyEvent, KeyModifiers, MouseButton, MouseEvent, Point, Scalar, Size, Vec2,
    WheelEvent,
};
use druid_dispatch::ext_event::ExtEventHost;
use druid_dispatch::handler::DruidHandler;
use druid_dispatch::ids::{IdleToken, TimerToken, WidgetId, WindowId};
use druid_dispatch::queue::CommandQueue;
use druid_dispatch::shell::{
    Effect, IdleHandle, Level, Notice, PlatformError, WinCtx, WindowHandle,
};
use druid_dispatch::window::{Blank, PendingWindow, WidgetTree};

/// What a tree of the tests has been through.
#[derive(Clone, Debug, PartialEq)]
enum Seen {
    Event(Event, u32),
    Update(u32),
    Settle,
    Paint,
    Menu(MenuDesc),
    Context(MenuDesc, Point),
    AppMenu,
}

/// A widget tree that writes down what it is handed and answers as it was
/// told to.
#[derive(Clone, Debug, PartialEq)]
struct Tree {
    layout: u64,
    seen: Vec<Seen>,
    /// The selectors of the commands that it says it handled.
    takes: Vec<Selector>,
    /// Whether it says that it handled a key.
    takes_keys: bool,
    /// What it submits when it sees a command with the selector.
    on_command: Vec<(Selector, Target, Command)>,
    /// What it submits when it sees a key going down.
    on_key: Vec<(Target, Command)>,
    /// What it adds to the data with every event.
    adds: u32,
    dirty: bool,
    frames: u32,
    menu: Vec<(u32, Command)>,
}

impl Tree {
    fn new(layout: u64) -> Tree {
        Tree {
            layout,
            seen: Vec::new(),
            takes: Vec::new(),
            takes_keys: false,
            on_command: Vec::new(),
            on_key: Vec::new(),
            adds: 0,
            dirty: false,
            frames: 0,
            menu: Vec::new(),
        }
    }

    fn unpainted(mut self) -> Tree {
        self.dirty = true;
        self
    }

    fn taking(mut self, selector: Selector) -> Tree {
        self.takes.push(selector);
        self
    }

    fn events(&self) -> Vec<Event> {
        let mut events = Vec::new();
        for seen in &self.seen {
            if let Seen::Event(event, _) = seen {
                events.push(event.clone());
            }
        }
        events
    }
}

impl WidgetTree for Tree {
    type Data = u32;
    type Env = u8;
    type Piet = Vec<u64>;

    fn build(desc: &WindowDesc) -> Tree {
        let mut tree = Tree::new(desc.layout);
        tree.dirty = true;
        tree
    }

    fn event(&mut self, queue: &mut CommandQueue, event: &Event, data: &mut u32, _env: &u8) -> bool {
        self.seen.push(Seen::Event(event.clone(), *data));
        *data += self.adds;
        self.dirty = true;
        match event {
            Event::TargetedCommand(_, command) => {
                for (selector, target, submitted) in &self.on_command {
                    if *selector == command.selector {
                        queue.enqueue(*target, submitted.clone());
                    }
                }
                self.takes.contains(&command.selector)
            }
            Event::KeyDown(_) => {
                for (target, submitted) in &self.on_key {
                    queue.enqueue(*target, submitted.clone());
                }
                self.takes_keys
            }
            _ => false,
        }
    }

    fn update(&mut self, data: &u32, _env: &u8) {
        self.seen.push(Seen::Update(*data));
    }

    fn invalidate_and_finalize(&mut self, _queue: &mut CommandQueue, _data: &u32, _env: &u8) -> bool {
        if self.dirty {
            self.seen.push(Seen::Settle);
            self.dirty = false;
            true
        } else {
            false
        }
    }

    fn do_paint(
        &mut self,
        piet: &mut Vec<u64>,
        _queue: &mut CommandQueue,
        _data: &u32,
        _env: &u8,
    ) -> bool {
        self.seen.push(Seen::Paint);
        piet.push(self.layout);
        if self.frames > 0 {
            self.frames -= 1;
            true
        } else {
            false
        }
    }

    fn set_menu(&mut self, menu: MenuDesc, _data: &u32, _env: &u8) {
        self.seen.push(Seen::Menu(menu));
    }

    fn show_context_menu(&mut self, menu: MenuDesc, location: Point, _data: &u32, _env: &u8) {
        self.seen.push(Seen::Context(menu, location));
    }

    fn get_menu_cmd(&self, id: u32) -> Option<Command> {
        for (known, command) in &self.menu {
            if *known == id {
                return Some(command.clone());
            }
        }
        None
    }

    fn update_app_menu(&mut self, _data: &u32, _env: &u8) {
        self.seen.push(Seen::AppMenu);
    }
}

/// A delegate that writes down what it hears and swallows what it was told
/// to swallow.
#[derive(Clone, Debug, PartialEq)]
struct Watcher {
    events: Vec<(WindowId, Event)>,
    added: Vec<WindowId>,
    removed: Vec<WindowId>,
    swallows_keys: bool,
    /// A mouse click is passed on as this event.
    replaces_clicks_by: Option<Event>,
    /// What it submits, without a target, with every key.
    on_key: Vec<Command>,
    /// What it submits when a window is added.
    on_added: Vec<(Option<Target>, Command)>,
}

impl Watcher {
    fn new() -> Watcher {
        Watcher {
            events: Vec::new(),
            added: Vec::new(),
            removed: Vec::new(),
            swallows_keys: false,
            replaces_clicks_by: None,
            on_key: Vec::new(),
            on_added: Vec::new(),
        }
    }
}

impl AppDelegate<u32, u8> for Watcher {
    fn event(&mut self, event: Event, _data: &mut u32, _env: &u8, ctx: &mut DelegateCtx) -> Option<Event> {
        self.events.push((ctx.source_id(), event.clone()));
        match event {
            Event::KeyDown(_) => {
                for command in &self.on_key {
                    ctx.submit_command(command.clone(), None);
                }
                if self.swallows_keys {
                    None
                } else {
                    Some(event)
                }
            }
            Event::MouseDown(_) => match &self.replaces_clicks_by {
                Some(other) => Some(other.clone()),
                None => Some(event),
            },
            _ => Some(event),
        }
    }

    fn window_added(&mut self, id: WindowId, data: &mut u32, _env: &u8, ctx: &mut DelegateCtx) {
        self.added.push(id);
        *data += 1000;
        for (target, command) in &self.on_added {
            ctx.submit_command(command.clone(), *target);
        }
    }

    fn window_removed(&mut self, id: WindowId, _data: &mut u32, _env: &u8, _ctx: &mut DelegateCtx) {
        self.removed.push(id);
    }
}

/// A platform that answers as it was told to and writes down what it was
/// asked.
struct Shell {
    open_answer: Option<FileInfo>,
    save_answer: Option<FileInfo>,
    clipboard: Clipboard,
    window_answer: Result<WindowHandle, PlatformError>,
    open_asked: Vec<FileDialogOptions>,
    save_asked: Vec<FileDialogOptions>,
    built: Vec<WindowDesc>,
}

impl Shell {
    fn new() -> Shell {
        Shell {
            open_answer: None,
            save_answer: None,
            clipboard: Clipboard { text: None },
            window_answer: Err(PlatformError { code: -1 }),
            open_asked: Vec::new(),
            save_asked: Vec::new(),
            built: Vec::new(),
        }
    }
}

impl WinCtx for Shell {
    fn open_file_sync(&mut self, options: FileDialogOptions) -> Option<FileInfo> {
        self.open_asked.push(options);
        self.open_answer.clone()
    }

    fn save_as_sync(&mut self, options: FileDialogOptions) -> Option<FileInfo> {
        self.save_asked.push(options);
        self.save_answer.clone()
    }

    fn clipboard(&mut self) -> Clipboard {
        self.clipboard.clone()
    }

    fn build_window(&mut self, desc: &WindowDesc) -> Result<WindowHandle, PlatformError> {
        self.built.push(*desc);
        self.window_answer
    }
}

type State = AppState<Tree, Watcher>;

fn wid(raw: u64) -> WindowId {
    WindowId::new(raw)
}

fn to_window(raw: u64) -> Target {
    Target::Window(wid(raw))
}

fn to_widget(raw: u64) -> Target {
    Target::Widget(WidgetId::new(raw))
}

fn custom(n: u64) -> Command {
    Command::new(Selector::Custom(n), Payload::Custom(n))
}

fn plain(selector: Selector) -> Command {
    Command::new(selector, Payload::Empty)
}

fn handle(raw: u64) -> WindowHandle {
    WindowHandle::new(raw, Some(IdleHandle { raw: raw + 100 }))
}

fn deaf_handle(raw: u64) -> WindowHandle {
    WindowHandle::new(raw, None)
}

fn key(code: u32) -> KeyEvent {
    KeyEvent {
        key_code: code,
        is_repeat: false,
        mods: KeyModifiers { shift: false, alt: false, ctrl: false, meta: false },
    }
}

fn click(x: u64, y: u64) -> MouseEvent {
    MouseEvent {
        pos: Point { x: Scalar { bits: x }, y: Scalar { bits: y } },
        mods: KeyModifiers { shift: false, alt: false, ctrl: false, meta: false },
        count: 1,
        button: MouseButton::Left,
    }
}

fn state_with(delegate: Option<Watcher>) -> State {
    AppState::new(0u32, 7u8, delegate, ExtEventHost::new())
}

/// Adds a window with the tree and connects it with a handle that can be
/// woken.
fn open(state: &mut State, raw: u64, tree: Tree) {
    state.add_window(wid(raw), PendingWindow::new(tree));
    state.connect(wid(raw), handle(raw));
}

fn tree_of(state: &State, raw: u64) -> &Tree {
    &state.window(wid(raw)).unwrap().root
}

fn logs(effects: &[Effect]) -> Vec<(Level, Notice)> {
    let mut found = Vec::new();
    for effect in effects {
        if let Effect::Log(level, notice) = effect {
            found.push((*level, *notice));
        }
    }
    found
}

#[test]
fn new_state_is_empty() {
    let mut state = state_with(None);
    assert_eq!(*state.data(), 0);
    assert_eq!(*state.env(), 7);
    assert!(state.delegate().is_none());
    assert_eq!(state.live_ids(), Vec::<WindowId>::new());
    assert_eq!(state.waker(), None);
    assert_eq!(state.waiting_commands(), 0);
    assert!(!state.has_ext_events());
    assert!(state.take_effects().is_empty());
    assert!(!state.has_window(wid(1)));
}

#[test]
fn new_state_starts_without_a_window_to_wake() {
    let mut host = ExtEventHost::new();
    host.set_idle(IdleHandle { raw: 5 }, wid(5));
    host.submit(None, custom(1));
    let state: State = AppState::new(0, 0, None, host);
    assert_eq!(state.waker(), None);
    assert!(state.has_ext_events());
}

#[test]
fn connect_makes_a_pending_window_live() {
    let mut state = state_with(Some(Watcher::new()));
    state.add_window(wid(1), PendingWindow::new(Tree::new(10)));
    assert!(state.has_window(wid(1)));
    assert!(!state.is_live(wid(1)));
    assert!(state.window(wid(1)).is_none());
    state.connect(wid(1), handle(1));
    assert!(state.is_live(wid(1)));
    assert_eq!(state.live_ids(), vec![wid(1)]);
    assert_eq!(state.window(wid(1)).unwrap().handle, handle(1));
    assert_eq!(tree_of(&state, 1).layout, 10);
    assert_eq!(state.delegate().unwrap().added, vec![wid(1)]);
    assert_eq!(*state.data(), 1000);
    assert!(state.take_effects().is_empty());
}

#[test]
fn connect_without_pending_logs_one_error() {
    let mut state = state_with(Some(Watcher::new()));
    open(&mut state, 1, Tree::new(10));
    state.take_effects();
    state.connect(wid(2), handle(2));
    assert_eq!(state.live_ids(), vec![wid(1)]);
    assert!(!state.has_window(wid(2)));
    assert_eq!(
        state.take_effects(),
        vec![Effect::Log(Level::Error, Notice::NoPendingWindow(wid(2)))]
    );
    assert_eq!(state.waker(), Some(wid(1)));
}

#[test]
fn connect_twice_logs_an_error_the_second_time() {
    let mut state = state_with(None);
    open(&mut state, 1, Tree::new(10));
    state.connect(wid(1), handle(9));
    assert_eq!(state.live_ids(), vec![wid(1)]);
    assert_eq!(state.window(wid(1)).unwrap().handle, handle(1));
    assert_eq!(
        state.take_effects(),
        vec![Effect::Log(Level::Error, Notice::NoPendingWindow(wid(1)))]
    );
}

#[test]
fn a_window_is_never_pending_and_live() {
    let mut state = state_with(None);
    state.add_window(wid(1), PendingWindow::new(Tree::new(1)));
    assert!(state.has_window(wid(1)) && !state.is_live(wid(1)));
    state.connect(wid(1), handle(1));
    assert!(state.has_window(wid(1)) && state.is_live(wid(1)));
    state.connect(wid(1), handle(1));
    assert_eq!(state.live_ids(), vec![wid(1)]);
    state.remove_window(wid(1));
    assert!(!state.has_window(wid(1)) && !state.is_live(wid(1)));
    state.connect(wid(1), handle(1));
    assert!(!state.is_live(wid(1)));
}

#[test]
fn first_connected_window_becomes_the_waker() {
    let mut state = state_with(None);
    open(&mut state, 1, Tree::new(1));
    open(&mut state, 2, Tree::new(2));
    assert_eq!(state.waker(), Some(wid(1)));
    assert!(state.take_effects().is_empty());
}

#[test]
fn window_that_cannot_be_woken_does_not_become_the_waker() {
    let mut state = state_with(None);
    state.add_window(wid(1), PendingWindow::new(Tree::new(1)));
    state.connect(wid(1), deaf_handle(1));
    assert_eq!(state.waker(), None);
    open(&mut state, 2, Tree::new(2));
    assert_eq!(state.waker(), Some(wid(2)));
}

#[test]
fn waker_is_woken_at_once_for_a_backlog() {
    let mut state = state_with(None);
    assert_eq!(state.submit_ext_event(None, custom(1)), None);
    assert_eq!(state.submit_ext_event(None, custom(2)), None);
    open(&mut state, 1, Tree::new(1));
    assert_eq!(state.waker(), Some(wid(1)));
    assert_eq!(
        state.take_effects(),
        vec![Effect::ScheduleIdle(IdleHandle { raw: 101 }, IdleToken::ext_event())]
    );
    assert_eq!(state.submit_ext_event(None, custom(3)), None);
}

#[test]
fn removing_the_waker_passes_the_duty_on() {
    let mut state = state_with(Some(Watcher::new()));
    open(&mut state, 1, Tree::new(1));
    open(&mut state, 2, Tree::new(2));
    open(&mut state, 3, Tree::new(3));
    assert_eq!(state.waker(), Some(wid(1)));
    state.remove_window(wid(1));
    assert_eq!(state.live_ids(), vec![wid(2), wid(3)]);
    assert_eq!(state.waker(), Some(wid(2)));
    assert_eq!(state.delegate().unwrap().removed, vec![wid(1)]);
    assert_eq!(state.submit_ext_event(None, custom(1)), Some(IdleHandle { raw: 102 }));
}

#[test]
fn removing_another_window_leaves_the_waker() {
    let mut state = state_with(None);
    open(&mut state, 1, Tree::new(1));
    open(&mut state, 2, Tree::new(2));
    state.remove_window(wid(2));
    assert_eq!(state.waker(), Some(wid(1)));
    assert_eq!(state.live_ids(), vec![wid(1)]);
}

#[test]
fn removing_the_last_window_leaves_no_waker_until_a_connect() {
    let mut state = state_with(None);
    open(&mut state, 1, Tree::new(1));
    state.remove_window(wid(1));
    assert_eq!(state.waker(), None);
    assert_eq!(state.live_ids(), Vec::<WindowId>::new());
    assert_eq!(state.submit_ext_event(None, custom(1)), None);
    open(&mut state, 2, Tree::new(2));
    assert_eq!(state.waker(), Some(wid(2)));
    assert_eq!(
        state.take_effects(),
        vec![Effect::ScheduleIdle(IdleHandle { raw: 102 }, IdleToken::ext_event())]
    );
}

#[test]
fn waker_duty_skips_a_window_that_cannot_be_woken() {
    let mut state = state_with(None);
    open(&mut state, 1, Tree::new(1));
    state.add_window(wid(2), PendingWindow::new(Tree::new(2)));
    state.connect(wid(2), deaf_handle(2));
    open(&mut state, 3, Tree::new(3));
    open(&mut state, 4, Tree::new(4));
    state.remove_window(wid(1));
    assert_eq!(state.live_ids(), vec![wid(2), wid(3), wid(4)]);
    assert_eq!(state.waker(), Some(wid(3)));
    assert_eq!(state.submit_ext_event(None, custom(1)), Some(IdleHandle { raw: 103 }));
}

#[test]
fn waker_duty_is_lost_when_no_window_left_can_be_woken() {
    let mut state = state_with(None);
    open(&mut state, 1, Tree::new(1));
    for raw in [2u64, 3] {
        state.add_window(wid(raw), PendingWindow::new(Tree::new(raw)));
        state.connect(wid(raw), deaf_handle(raw));
    }
    state.remove_window(wid(1));
    assert_eq!(state.live_ids(), vec![wid(2), wid(3)]);
    assert_eq!(state.waker(), None);
    assert_eq!(state.submit_ext_event(None, custom(1)), None);
    open(&mut state, 4, Tree::new(4));
    assert_eq!(state.waker(), Some(wid(4)));
}

#[test]
fn waker_passes_on_with_a_backlog_asks_for_a_wakeup() {
    let mut state = state_with(None);
    open(&mut state, 1, Tree::new(1));
    open(&mut state, 2, Tree::new(2));
    assert_eq!(state.submit_ext_event(None, custom(1)), Some(IdleHandle { raw: 101 }));
    state.take_effects();
    state.remove_window(wid(1));
    assert_eq!(state.waker(), Some(wid(2)));
    assert_eq!(
        state.take_effects(),
        vec![Effect::ScheduleIdle(IdleHandle { raw: 102 }, IdleToken::ext_event())]
    );
}

#[test]
fn removing_an_absent_window_only_tells_the_delegate() {
    let mut state = state_with(Some(Watcher::new()));
    open(&mut state, 1, Tree::new(1));
    state.remove_window(wid(9));
    assert_eq!(state.live_ids(), vec![wid(1)]);
    assert_eq!(state.waker(), Some(wid(1)));
    assert_eq!(state.delegate().unwrap().removed, vec![wid(9)]);
}

#[test]
fn with_delegate_without_delegate_does_nothing() {
    let mut state = state_with(None);
    assert_eq!(state.with_delegate(wid(1), DelegateCall::WindowAdded(wid(1))), None);
    assert_eq!(state.with_delegate(wid(1), DelegateCall::Event(Event::WindowConnected)), None);
    assert_eq!(state.waiting_commands(), 0);
    assert_eq!(*state.data(), 0);
}

#[test]
fn with_delegate_takes_over_submitted_commands() {
    let mut watcher = Watcher::new();
    watcher.on_added = vec![(None, custom(1)), (Some(to_widget(4)), custom(2))];
    let mut state = state_with(Some(watcher));
    state.submit_command(to_window(8), custom(0));
    let reply = state.with_delegate(wid(3), DelegateCall::WindowAdded(wid(5)));
    assert_eq!(reply, Some(DelegateReply::Done));
    assert_eq!(state.delegate().unwrap().added, vec![wid(5)]);
    assert_eq!(state.next_command(), Some((to_window(8), custom(0))));
    assert_eq!(state.next_command(), Some((to_window(3), custom(1))));
    assert_eq!(state.next_command(), Some((to_widget(4), custom(2))));
    assert_eq!(state.next_command(), None);
    let reply = state.with_delegate(wid(3), DelegateCall::WindowRemoved(wid(5)));
    assert_eq!(reply, Some(DelegateReply::Done));
    let reply = state.with_delegate(wid(3), DelegateCall::Event(Event::WindowConnected));
    assert_eq!(reply, Some(DelegateReply::Event(Some(Event::WindowConnected))));
}

#[test]
fn delegate_event_passes_through_without_delegate() {
    let mut state = state_with(None);
    let event = Event::KeyDown(key(1));
    assert_eq!(state.delegate_event(wid(1), event.clone()), Some(event));
}

#[test]
fn no_delegate_lets_everything_pass() {
    let mut state: AppState<Tree, NoDelegate> =
        AppState::new(0u32, 0u8, Some(NoDelegate), ExtEventHost::new());
    state.add_window(wid(1), PendingWindow::new(Tree::new(1)));
    state.connect(wid(1), handle(1));
    let event = Event::KeyDown(key(1));
    assert_eq!(state.delegate_event(wid(1), event.clone()), Some(event.clone()));
    assert!(!state.do_event(wid(1), event.clone()));
    assert_eq!(state.window(wid(1)).unwrap().root.events(), vec![event]);
    assert_eq!(state.waiting_commands(), 0);
    state.remove_window(wid(1));
    assert_eq!(*state.data(), 0);
}

#[test]
fn delegate_can_replace_an_event() {
    let mut watcher = Watcher::new();
    watcher.replaces_clicks_by = Some(Event::Timer(TimerToken { raw: 3 }));
    let mut state = state_with(Some(watcher));
    open(&mut state, 1, Tree::new(1));
    assert!(!state.do_event(wid(1), Event::MouseDown(click(1, 2))));
    assert_eq!(tree_of(&state, 1).events(), vec![Event::Timer(TimerToken { raw: 3 })]);
}

#[test]
fn swallowed_event_reaches_no_window_and_counts_as_handled() {
    let mut watcher = Watcher::new();
    watcher.swallows_keys = true;
    watcher.on_key = vec![custom(5)];
    let mut state = state_with(Some(watcher));
    open(&mut state, 1, Tree::new(1));
    open(&mut state, 2, Tree::new(2));
    assert!(state.do_event(wid(1), Event::KeyDown(key(65))));
    assert!(tree_of(&state, 1).seen.is_empty());
    assert!(tree_of(&state, 2).seen.is_empty());
    assert_eq!(state.delegate().unwrap().events, vec![(wid(1), Event::KeyDown(key(65)))]);
    assert_eq!(state.next_command(), Some((to_window(1), custom(5))));
    assert_eq!(state.next_command(), None);
}

#[test]
fn event_goes_to_its_window_only() {
    let mut state = state_with(None);
    let mut taker = Tree::new(2);
    taker.takes_keys = true;
    taker.adds = 3;
    open(&mut state, 1, Tree::new(1));
    open(&mut state, 2, taker);
    assert!(state.do_event(wid(2), Event::KeyDown(key(1))));
    assert!(!state.do_event(wid(1), Event::KeyDown(key(2))));
    assert_eq!(tree_of(&state, 1).seen, vec![Seen::Event(Event::KeyDown(key(2)), 3)]);
    assert_eq!(tree_of(&state, 2).seen, vec![Seen::Event(Event::KeyDown(key(1)), 0)]);
    assert_eq!(*state.data(), 3);
}

#[test]
fn event_for_an_absent_window_is_not_handled() {
    let mut state = state_with(Some(Watcher::new()));
    open(&mut state, 1, Tree::new(1));
    assert!(!state.do_event(wid(5), Event::KeyDown(key(1))));
    assert!(tree_of(&state, 1).seen.is_empty());
    assert!(state.take_effects().is_empty());
    assert_eq!(state.delegate().unwrap().events.len(), 1);
}

#[test]
fn window_command_goes_to_the_source_window() {
    let mut state = state_with(None);
    open(&mut state, 1, Tree::new(1).taking(Selector::Custom(1)));
    open(&mut state, 2, Tree::new(2).taking(Selector::Custom(1)));
    let event = Event::TargetedCommand(to_window(2), custom(1));
    assert!(state.do_event(wid(2), event.clone()));
    assert!(tree_of(&state, 1).seen.is_empty());
    assert_eq!(tree_of(&state, 2).events(), vec![event]);
}

#[test]
fn widget_command_stops_at_first_window_that_handles_it() {
    let mut state = state_with(None);
    open(&mut state, 1, Tree::new(1));
    open(&mut state, 2, Tree::new(2).taking(Selector::Custom(1)));
    open(&mut state, 3, Tree::new(3).taking(Selector::Custom(1)));
    let event = Event::TargetedCommand(to_widget(40), custom(1));
    assert!(state.do_event(wid(3), event.clone()));
    assert_eq!(tree_of(&state, 1).events(), vec![event.clone()]);
    assert_eq!(tree_of(&state, 2).events(), vec![event]);
    assert!(tree_of(&state, 3).seen.is_empty());
}

#[test]
fn widget_command_that_nobody_handles_visits_every_window() {
    let mut state = state_with(None);
    for raw in 1..=3u64 {
        let mut tree = Tree::new(raw);
        tree.adds = 1;
        open(&mut state, raw, tree);
    }
    let event = Event::TargetedCommand(to_widget(40), custom(9));
    assert!(!state.do_event(wid(2), event.clone()));
    for raw in 1..=3u64 {
        assert_eq!(
            tree_of(&state, raw).seen,
            vec![Seen::Event(event.clone(), (raw - 1) as u32)]
        );
    }
    assert_eq!(*state.data(), 3);
}

#[test]
fn widget_command_without_windows_is_not_handled() {
    let mut state = state_with(None);
    assert!(!state.do_event(wid(1), Event::TargetedCommand(to_widget(1), custom(1))));
}

#[test]
fn broadcast_takes_over_commands_in_window_order() {
    let mut state = state_with(None);
    let mut first = Tree::new(1);
    first.on_command = vec![(Selector::Custom(1), to_window(1), custom(10))];
    let mut second = Tree::new(2);
    second.on_command = vec![(Selector::Custom(1), to_window(2), custom(20))];
    open(&mut state, 1, first);
    open(&mut state, 2, second);
    state.submit_command(to_window(9), custom(0));
    state.do_event(wid(1), Event::TargetedCommand(to_widget(4), custom(1)));
    assert_eq!(state.next_command(), Some((to_window(9), custom(0))));
    assert_eq!(state.next_command(), Some((to_window(1), custom(10))));
    assert_eq!(state.next_command(), Some((to_window(2), custom(20))));
    assert_eq!(state.next_command(), None);
}

#[test]
fn set_menu_changes_the_menu_and_skips_the_widgets() {
    let mut state = state_with(None);
    open(&mut state, 1, Tree::new(1));
    let menu = MenuDesc { key: 12 };
    let command = Command::new(Selector::SetMenu, Payload::Menu(menu));
    assert!(state.do_event(wid(1), Event::TargetedCommand(to_window(1), command.clone())));
    assert_eq!(tree_of(&state, 1).seen, vec![Seen::Menu(menu)]);
    assert!(state.do_event(wid(1), Event::TargetedCommand(to_widget(3), command)));
    assert_eq!(tree_of(&state, 1).seen, vec![Seen::Menu(menu), Seen::Menu(menu)]);
    assert!(state.take_effects().is_empty());
}

#[test]
fn set_menu_with_wrong_payload_logs_a_warning() {
    let mut state = state_with(None);
    open(&mut state, 1, Tree::new(1));
    let command = Command::new(Selector::SetMenu, Payload::Custom(1));
    assert!(state.do_event(wid(1), Event::TargetedCommand(to_window(1), command.clone())));
    assert!(tree_of(&state, 1).seen.is_empty());
    assert_eq!(
        state.take_effects(),
        vec![Effect::Log(Level::Warn, Notice::BadPayload(Selector::SetMenu))]
    );
    state.set_menu(wid(7), &command);
    assert!(state.take_effects().is_empty());
}

#[test]
fn show_context_menu_reaches_the_window() {
    let mut state = state_with(None);
    open(&mut state, 1, Tree::new(1));
    let menu = MenuDesc { key: 5 };
    let location = Point { x: Scalar { bits: 3 }, y: Scalar { bits: 4 } };
    let command = Command::new(
        Selector::ShowContextMenu,
        Payload::ContextMenu(ContextMenu { menu, location }),
    );
    assert!(state.do_event(wid(1), Event::TargetedCommand(to_window(1), command)));
    assert_eq!(tree_of(&state, 1).seen, vec![Seen::Context(menu, location)]);
    let wrong = Command::new(Selector::ShowContextMenu, Payload::Menu(menu));
    assert!(state.do_event(wid(1), Event::TargetedCommand(to_window(1), wrong)));
    assert_eq!(
        state.take_effects(),
        vec![Effect::Log(Level::Warn, Notice::BadPayload(Selector::ShowContextMenu))]
    );
    assert_eq!(tree_of(&state, 1).seen.len(), 1);
}

#[test]
fn close_and_show_leave_requests_for_the_platform() {
    let mut state = state_with(None);
    open(&mut state, 1, Tree::new(1));
    state.request_close_window(wid(1));
    state.show_window(wid(1));
    state.request_close_window(wid(2));
    state.show_window(wid(2));
    assert_eq!(
        state.take_effects(),
        vec![Effect::Close(handle(1)), Effect::BringToFrontAndFocus(handle(1))]
    );
    assert!(state.is_live(wid(1)));
    assert!(state.take_effects().is_empty());
}

#[test]
fn paint_reports_animation_frames() {
    let mut state = state_with(None);
    let mut tree = Tree::new(17);
    tree.frames = 1;
    open(&mut state, 1, tree);
    let mut piet: Vec<u64> = Vec::new();
    assert!(state.paint(wid(1), &mut piet));
    assert!(!state.paint(wid(1), &mut piet));
    assert!(!state.paint(wid(2), &mut piet));
    assert_eq!(piet, vec![17, 17]);
    assert_eq!(tree_of(&state, 1).seen, vec![Seen::Paint, Seen::Paint]);
}

#[test]
fn update_reaches_every_window_and_then_they_settle() {
    let mut state = state_with(None);
    open(&mut state, 1, Tree::new(1).unpainted());
    open(&mut state, 2, Tree::new(2).unpainted());
    open(&mut state, 3, Tree::new(3));
    state.do_update();
    for raw in [1u64, 2] {
        assert_eq!(tree_of(&state, raw).seen, vec![Seen::Update(0), Seen::Settle]);
    }
    assert_eq!(tree_of(&state, 3).seen, vec![Seen::Update(0)]);
    assert_eq!(
        state.take_effects(),
        vec![Effect::Invalidate(handle(1)), Effect::Invalidate(handle(2))]
    );
}

#[test]
fn invalidate_asks_for_a_repaint_once() {
    let mut state = state_with(None);
    open(&mut state, 1, Tree::new(1));
    open(&mut state, 2, Tree::new(2));
    state.do_event(wid(2), Event::KeyDown(key(1)));
    state.invalidate_and_finalize();
    assert_eq!(state.take_effects(), vec![Effect::Invalidate(handle(2))]);
    state.invalidate_and_finalize();
    assert!(state.take_effects().is_empty());
    assert_eq!(state.waiting_commands(), 0);
}

#[test]
fn focus_updates_the_application_menu() {
    let mut state = state_with(None);
    open(&mut state, 1, Tree::new(1));
    state.window_got_focus(wid(1));
    state.window_got_focus(wid(2));
    assert_eq!(tree_of(&state, 1).seen, vec![Seen::AppMenu]);
}

#[test]
fn menu_command_is_looked_up_in_the_window() {
    let mut state = state_with(None);
    let mut tree = Tree::new(1);
    tree.menu = vec![(4, custom(44))];
    open(&mut state, 1, tree);
    assert_eq!(state.get_menu_cmd(wid(1), 4), Some(custom(44)));
    assert_eq!(state.get_menu_cmd(wid(1), 5), None);
    assert_eq!(state.get_menu_cmd(wid(2), 4), None);
}

#[test]
fn set_ext_event_idle_handler_needs_a_live_window() {
    let mut state = state_with(None);
    state.add_window(wid(1), PendingWindow::new(Tree::new(1)));
    state.set_ext_event_idle_handler(wid(1));
    assert_eq!(state.waker(), None);
    state.connect(wid(1), handle(1));
    open(&mut state, 2, Tree::new(2));
    assert_eq!(state.waker(), Some(wid(1)));
    state.set_ext_event_idle_handler(wid(2));
    assert_eq!(state.waker(), Some(wid(2)));
    state.set_ext_event_idle_handler(wid(3));
    assert_eq!(state.waker(), Some(wid(2)));
}

#[test]
fn handler_knows_its_window() {
    assert_eq!(DruidHandler::new_shared(wid(4)).window_id(), wid(4));
}

#[test]
fn handler_connect_and_destroy() {
    let mut state = state_with(Some(Watcher::new()));
    let handler = DruidHandler::new_shared(wid(1));
    state.add_window(wid(1), PendingWindow::new(Tree::new(1)));
    handler.connect(&mut state, &handle(1));
    assert_eq!(state.live_ids(), vec![wid(1)]);
    handler.destroy(&mut state);
    assert_eq!(state.live_ids(), Vec::<WindowId>::new());
    assert_eq!(state.delegate().unwrap().added, vec![wid(1)]);
    assert_eq!(state.delegate().unwrap().removed, vec![wid(1)]);
}

#[test]
fn event_cycle_dispatches_drains_updates_and_settles() {
    let mut state = state_with(None);
    let mut tree = Tree::new(1);
    tree.on_key = vec![(to_window(1), custom(1))];
    tree.takes_keys = true;
    open(&mut state, 1, tree);
    open(&mut state, 2, Tree::new(2).unpainted());
    let handler = DruidHandler::new_shared(wid(1));
    let mut shell = Shell::new();
    assert!(handler.key_down(&mut state, key(3), &mut shell));
    assert_eq!(
        tree_of(&state, 1).seen,
        vec![
            Seen::Event(Event::KeyDown(key(3)), 0),
            Seen::Event(Event::TargetedCommand(to_window(1), custom(1)), 0),
            Seen::Update(0),
            Seen::Settle,
        ]
    );
    assert_eq!(tree_of(&state, 2).seen, vec![Seen::Update(0), Seen::Settle]);
    assert_eq!(state.waiting_commands(), 0);
    assert_eq!(
        state.take_effects(),
        vec![Effect::Invalidate(handle(1)), Effect::Invalidate(handle(2))]
    );
}

#[test]
fn new_window_command_during_an_event_creates_a_live_window() {
    let mut state = state_with(Some(Watcher::new()));
    let desc = WindowDesc { id: wid(2), layout: 22 };
    let mut tree = Tree::new(1);
    tree.on_key =
        vec![(to_window(1), Command::new(Selector::NewWindow, Payload::WindowDesc(desc)))];
    open(&mut state, 1, tree);
    state.take_effects();
    let handler = DruidHandler::new_shared(wid(1));
    let mut shell = Shell::new();
    shell.window_answer = Ok(handle(2));
    assert!(!handler.key_down(&mut state, key(1), &mut shell));
    assert_eq!(shell.built, vec![desc]);
    assert_eq!(state.live_ids(), vec![wid(1), wid(2)]);
    assert_eq!(state.window(wid(2)).unwrap().handle, handle(2));
    assert_eq!(
        tree_of(&state, 1).seen,
        vec![Seen::Event(Event::KeyDown(key(1)), 1000), Seen::Update(2000), Seen::Settle]
    );
    assert_eq!(tree_of(&state, 2).layout, 22);
    assert_eq!(tree_of(&state, 2).seen, vec![Seen::Update(2000), Seen::Settle]);
    assert_eq!(state.delegate().unwrap().added, vec![wid(1), wid(2)]);
    assert_eq!(
        state.take_effects(),
        vec![
            Effect::Show(handle(2)),
            Effect::Invalidate(handle(1)),
            Effect::Invalidate(handle(2)),
        ]
    );
    assert_eq!(state.waker(), Some(wid(1)));
}

#[test]
fn new_window_with_bad_payload_is_logged() {
    let mut state = state_with(None);
    open(&mut state, 1, Tree::new(1));
    let handler = DruidHandler::new_shared(wid(1));
    let mut shell = Shell::new();
    shell.window_answer = Ok(handle(2));
    handler.handle_cmd(&mut state, to_window(1), plain(Selector::NewWindow), &mut shell);
    assert!(shell.built.is_empty());
    assert_eq!(state.live_ids(), vec![wid(1)]);
    assert_eq!(
        state.take_effects(),
        vec![Effect::Log(Level::Error, Notice::BadPayload(Selector::NewWindow))]
    );
}

#[test]
fn new_window_with_id_in_use_is_logged() {
    let mut state = state_with(None);
    open(&mut state, 1, Tree::new(1));
    state.add_window(wid(2), PendingWindow::new(Tree::new(2)));
    let handler = DruidHandler::new_shared(wid(1));
    let mut shell = Shell::new();
    shell.window_answer = Ok(handle(3));
    for raw in [1u64, 2] {
        let desc = WindowDesc { id: wid(raw), layout: 5 };
        let command = Command::new(Selector::NewWindow, Payload::WindowDesc(desc));
        assert_eq!(
            handler.new_window(&mut state, command.clone(), &mut shell),
            Err(Notice::DuplicateWindow(wid(raw)))
        );
        handler.handle_cmd(&mut state, to_window(1), command, &mut shell);
        assert_eq!(
            state.take_effects(),
            vec![Effect::Log(Level::Error, Notice::DuplicateWindow(wid(raw)))]
        );
    }
    assert!(shell.built.is_empty());
    assert_eq!(state.live_ids(), vec![wid(1)]);
    assert_eq!(tree_of(&state, 1).layout, 1);
}

#[test]
fn new_window_that_the_platform_refuses_is_logged() {
    let mut state = state_with(None);
    let handler = DruidHandler::new_shared(wid(1));
    let mut shell = Shell::new();
    shell.window_answer = Err(PlatformError { code: 12 });
    let desc = WindowDesc { id: wid(2), layout: 5 };
    let command = Command::new(Selector::NewWindow, Payload::WindowDesc(desc));
    handler.handle_cmd(&mut state, to_window(1), command, &mut shell);
    assert_eq!(shell.built, vec![desc]);
    assert_eq!(state.live_ids(), Vec::<WindowId>::new());
    assert!(state.has_window(wid(2)));
    assert_eq!(
        state.take_effects(),
        vec![Effect::Log(
            Level::Error,
            Notice::WindowCreationFailed(wid(2), PlatformError { code: 12 })
        )]
    );
}

#[test]
fn new_window_reports_success() {
    let mut state = state_with(None);
    let handler = DruidHandler::new_shared(wid(1));
    let mut shell = Shell::new();
    shell.window_answer = Ok(handle(2));
    let desc = WindowDesc { id: wid(2), layout: 5 };
    let command = Command::new(Selector::NewWindow, Payload::WindowDesc(desc));
    assert_eq!(handler.new_window(&mut state, command, &mut shell), Ok(()));
    assert_eq!(state.live_ids(), vec![wid(2)]);
    assert_eq!(state.waker(), Some(wid(2)));
    assert_eq!(state.take_effects(), vec![Effect::Show(handle(2))]);
}

#[test]
fn close_window_defaults_to_the_command_target() {
    let mut state = state_with(None);
    open(&mut state, 1, Tree::new(1));
    open(&mut state, 2, Tree::new(2));
    let handler = DruidHandler::new_shared(wid(1));
    let mut shell = Shell::new();
    handler.handle_cmd(&mut state, to_window(2), plain(Selector::CloseWindow), &mut shell);
    let named = Command::new(Selector::CloseWindow, Payload::WindowId(wid(1)));
    handler.handle_cmd(&mut state, to_window(2), named, &mut shell);
    let absent = Command::new(Selector::CloseWindow, Payload::WindowId(wid(9)));
    handler.handle_cmd(&mut state, to_window(2), absent, &mut shell);
    assert_eq!(
        state.take_effects(),
        vec![Effect::Close(handle(2)), Effect::Close(handle(1))]
    );
    assert_eq!(state.live_ids(), vec![wid(1), wid(2)]);
    assert!(tree_of(&state, 1).seen.is_empty());
    assert!(tree_of(&state, 2).seen.is_empty());
}

#[test]
fn show_window_needs_a_window_id() {
    let mut state = state_with(None);
    open(&mut state, 1, Tree::new(1));
    open(&mut state, 2, Tree::new(2));
    let handler = DruidHandler::new_shared(wid(1));
    let mut shell = Shell::new();
    let named = Command::new(Selector::ShowWindow, Payload::WindowId(wid(2)));
    handler.handle_cmd(&mut state, to_window(1), named, &mut shell);
    handler.handle_cmd(&mut state, to_window(1), plain(Selector::ShowWindow), &mut shell);
    assert_eq!(
        state.take_effects(),
        vec![
            Effect::BringToFrontAndFocus(handle(2)),
            Effect::Log(Level::Warn, Notice::BadPayload(Selector::ShowWindow)),
        ]
    );
}

#[test]
fn quit_and_hide_are_left_to_the_platform() {
    let mut state = state_with(None);
    open(&mut state, 1, Tree::new(1));
    let handler = DruidHandler::new_shared(wid(1));
    let mut shell = Shell::new();
    handler.handle_cmd(&mut state, to_window(1), plain(Selector::HideApplication), &mut shell);
    handler.handle_cmd(&mut state, to_window(1), plain(Selector::HideOthers), &mut shell);
    handler.handle_cmd(&mut state, to_window(1), plain(Selector::QuitApp), &mut shell);
    assert_eq!(
        state.take_effects(),
        vec![Effect::HideApplication, Effect::HideOthers, Effect::Quit]
    );
    handler.quit(&mut state);
    handler.hide_app(&mut state);
    handler.hide_others(&mut state);
    assert_eq!(
        state.take_effects(),
        vec![Effect::Quit, Effect::HideApplication, Effect::HideOthers]
    );
    assert!(tree_of(&state, 1).seen.is_empty());
}

#[test]
fn paste_brings_the_clipboard_to_the_window() {
    let mut state = state_with(None);
    open(&mut state, 1, Tree::new(1));
    open(&mut state, 2, Tree::new(2));
    let handler = DruidHandler::new_shared(wid(1));
    let mut shell = Shell::new();
    shell.clipboard = Clipboard { text: Some(String::from("pasted")) };
    handler.handle_cmd(&mut state, to_window(2), plain(Selector::Paste), &mut shell);
    assert_eq!(
        tree_of(&state, 2).events(),
        vec![Event::Paste(Clipboard { text: Some(String::from("pasted")) })]
    );
    assert!(tree_of(&state, 1).seen.is_empty());
}

#[test]
fn open_panel_dispatches_the_chosen_file_at_once() {
    let mut state = state_with(None);
    open(&mut state, 1, Tree::new(1));
    open(&mut state, 2, Tree::new(2));
    let handler = DruidHandler::new_shared(wid(1));
    let mut shell = Shell::new();
    let info = FileInfo { path: String::from("/tmp/chosen") };
    shell.open_answer = Some(info.clone());
    let options = FileDialogOptions { show_hidden: true, multi_selection: false };
    let command = Command::new(Selector::ShowOpenPanel, Payload::FileDialogOptions(options));
    state.submit_command(to_window(2), command);
    state.submit_command(to_window(2), custom(1));
    handler.process_commands(&mut state, &mut shell);
    assert_eq!(shell.open_asked, vec![options]);
    assert!(shell.save_asked.is_empty());
    assert_eq!(
        tree_of(&state, 2).events(),
        vec![
            Event::TargetedCommand(
                to_window(2),
                Command::new(Selector::OpenFile, Payload::FileInfo(info))
            ),
            Event::TargetedCommand(to_window(2), custom(1)),
        ]
    );
    assert!(tree_of(&state, 1).seen.is_empty());
}

#[test]
fn save_panel_dispatches_the_chosen_file() {
    let mut state = state_with(None);
    open(&mut state, 1, Tree::new(1));
    let handler = DruidHandler::new_shared(wid(1));
    let mut shell = Shell::new();
    let info = FileInfo { path: String::from("/tmp/saved") };
    shell.save_answer = Some(info.clone());
    handler.handle_cmd(&mut state, to_window(1), plain(Selector::ShowSavePanel), &mut shell);
    assert_eq!(
        shell.save_asked,
        vec![FileDialogOptions { show_hidden: false, multi_selection: false }]
    );
    assert!(shell.open_asked.is_empty());
    assert_eq!(
        tree_of(&state, 1).events(),
        vec![Event::TargetedCommand(
            to_window(1),
            Command::new(Selector::SaveFile, Payload::FileInfo(info))
        )]
    );
}

#[test]
fn panel_that_the_user_gives_up_changes_nothing() {
    let mut state = state_with(None);
    open(&mut state, 1, Tree::new(1));
    let handler = DruidHandler::new_shared(wid(1));
    let mut shell = Shell::new();
    handler.handle_cmd(&mut state, to_window(1), plain(Selector::ShowOpenPanel), &mut shell);
    handler.handle_cmd(&mut state, to_window(1), plain(Selector::ShowSavePanel), &mut shell);
    assert_eq!(shell.open_asked.len(), 1);
    assert_eq!(shell.save_asked.len(), 1);
    assert!(tree_of(&state, 1).seen.is_empty());
    assert!(state.take_effects().is_empty());
    DruidHandler::file_chosen(&mut state, wid(1), Selector::OpenFile, None);
    assert!(tree_of(&state, 1).seen.is_empty());
}

#[test]
fn other_window_commands_become_events_for_that_window() {
    let mut state = state_with(None);
    open(&mut state, 1, Tree::new(1));
    open(&mut state, 2, Tree::new(2));
    let handler = DruidHandler::new_shared(wid(1));
    let mut shell = Shell::new();
    handler.handle_cmd(&mut state, to_window(2), custom(6), &mut shell);
    handler.handle_cmd(&mut state, to_window(9), custom(7), &mut shell);
    assert!(tree_of(&state, 1).seen.is_empty());
    assert_eq!(
        tree_of(&state, 2).events(),
        vec![Event::TargetedCommand(to_window(2), custom(6))]
    );
}

#[test]
fn widget_commands_bypass_the_system_selectors() {
    let mut state = state_with(None);
    open(&mut state, 1, Tree::new(1));
    open(&mut state, 2, Tree::new(2).taking(Selector::QuitApp));
    open(&mut state, 3, Tree::new(3));
    let handler = DruidHandler::new_shared(wid(3));
    let mut shell = Shell::new();
    handler.handle_cmd(&mut state, to_widget(5), plain(Selector::QuitApp), &mut shell);
    let event = Event::TargetedCommand(to_widget(5), plain(Selector::QuitApp));
    assert_eq!(tree_of(&state, 1).events(), vec![event.clone()]);
    assert_eq!(tree_of(&state, 2).events(), vec![event]);
    assert!(tree_of(&state, 3).seen.is_empty());
    assert!(state.take_effects().is_empty());
}

#[test]
fn drain_handles_commands_enqueued_meanwhile() {
    let mut state = state_with(None);
    let mut tree = Tree::new(1);
    tree.on_command = vec![
        (Selector::Custom(1), to_window(1), custom(3)),
        (Selector::Custom(3), to_window(1), custom(4)),
    ];
    open(&mut state, 1, tree);
    let handler = DruidHandler::new_shared(wid(1));
    let mut shell = Shell::new();
    state.submit_command(to_window(1), custom(1));
    state.submit_command(to_window(1), custom(2));
    handler.process_commands(&mut state, &mut shell);
    assert_eq!(state.waiting_commands(), 0);
    assert_eq!(
        tree_of(&state, 1).events(),
        vec![
            Event::TargetedCommand(to_window(1), custom(1)),
            Event::TargetedCommand(to_window(1), custom(2)),
            Event::TargetedCommand(to_window(1), custom(3)),
            Event::TargetedCommand(to_window(1), custom(4)),
        ]
    );
}

#[test]
fn drain_of_an_empty_queue_does_nothing() {
    let mut state = state_with(None);
    open(&mut state, 1, Tree::new(1));
    let handler = DruidHandler::new_shared(wid(1));
    let mut shell = Shell::new();
    handler.process_commands(&mut state, &mut shell);
    assert!(tree_of(&state, 1).seen.is_empty());
    assert!(state.take_effects().is_empty());
}

#[test]
fn menu_choice_enqueues_the_command_and_drains() {
    let mut state = state_with(None);
    let mut tree = Tree::new(1);
    tree.menu = vec![(7, custom(70))];
    open(&mut state, 1, tree);
    let handler = DruidHandler::new_shared(wid(1));
    let mut shell = Shell::new();
    handler.command(&mut state, 7, &mut shell);
    assert_eq!(
        tree_of(&state, 1).events(),
        vec![Event::TargetedCommand(to_window(1), custom(70))]
    );
    assert_eq!(state.take_effects(), Vec::<Effect>::new());
    handler.handle_system_cmd(&mut state, 8, &mut shell);
    assert_eq!(tree_of(&state, 1).events().len(), 1);
    assert_eq!(
        state.take_effects(),
        vec![Effect::Log(Level::Warn, Notice::NoMenuCommand(8))]
    );
}

#[test]
fn external_command_wakes_the_waker_once_and_is_dispatched_once() {
    let mut state = state_with(None);
    open(&mut state, 1, Tree::new(1));
    open(&mut state, 2, Tree::new(2));
    state.take_effects();
    assert_eq!(state.submit_ext_event(None, custom(5)), Some(IdleHandle { raw: 101 }));
    assert_eq!(state.submit_ext_event(Some(to_window(2)), custom(6)), None);
    let handler = DruidHandler::new_shared(wid(1));
    let mut shell = Shell::new();
    handler.idle(&mut state, IdleToken::ext_event(), &mut shell);
    assert!(!state.has_ext_events());
    assert_eq!(
        tree_of(&state, 1).seen,
        vec![
            Seen::Event(Event::TargetedCommand(to_window(1), custom(5)), 0),
            Seen::Update(0),
            Seen::Settle,
        ]
    );
    assert_eq!(
        tree_of(&state, 2).seen,
        vec![
            Seen::Event(Event::TargetedCommand(to_window(2), custom(6)), 0),
            Seen::Update(0),
            Seen::Settle,
        ]
    );
    assert_eq!(
        state.take_effects(),
        vec![Effect::Invalidate(handle(1)), Effect::Invalidate(handle(2))]
    );
    assert_eq!(state.submit_ext_event(None, custom(7)), Some(IdleHandle { raw: 101 }));
    assert_eq!(state.recv_ext_event(), Some((None, custom(7))));
    assert_eq!(state.recv_ext_event(), None);
}

#[test]
fn external_commands_run_the_whole_cycle() {
    let mut state = state_with(None);
    let mut tree = Tree::new(1);
    tree.on_command = vec![(Selector::Custom(1), to_window(2), custom(2))];
    open(&mut state, 1, tree);
    open(&mut state, 2, Tree::new(2));
    open(&mut state, 3, Tree::new(3));
    state.submit_command(to_window(3), custom(0));
    state.submit_ext_event(None, custom(1));
    let handler = DruidHandler::new_shared(wid(1));
    let mut shell = Shell::new();
    handler.process_ext_events(&mut state, &mut shell);
    assert!(!state.has_ext_events());
    assert_eq!(state.waiting_commands(), 0);
    assert_eq!(
        tree_of(&state, 1).seen,
        vec![
            Seen::Event(Event::TargetedCommand(to_window(1), custom(1)), 0),
            Seen::Update(0),
            Seen::Settle,
        ]
    );
    assert_eq!(
        tree_of(&state, 2).seen,
        vec![
            Seen::Event(Event::TargetedCommand(to_window(2), custom(2)), 0),
            Seen::Update(0),
            Seen::Settle,
        ]
    );
    assert_eq!(
        tree_of(&state, 3).seen,
        vec![
            Seen::Event(Event::TargetedCommand(to_window(3), custom(0)), 0),
            Seen::Update(0),
            Seen::Settle,
        ]
    );
    assert_eq!(
        state.take_effects(),
        vec![
            Effect::Invalidate(handle(1)),
            Effect::Invalidate(handle(2)),
            Effect::Invalidate(handle(3)),
        ]
    );
}

#[test]
fn external_commands_without_any_waiting_still_update_the_windows() {
    let mut state = state_with(None);
    open(&mut state, 1, Tree::new(1));
    let handler = DruidHandler::new_shared(wid(1));
    let mut shell = Shell::new();
    handler.process_ext_events(&mut state, &mut shell);
    assert_eq!(tree_of(&state, 1).seen, vec![Seen::Update(0)]);
    assert!(state.take_effects().is_empty());
}

#[test]
fn idle_with_run_commands_token_drains_and_settles() {
    let mut state = state_with(None);
    open(&mut state, 1, Tree::new(1));
    state.submit_command(to_window(1), custom(1));
    let handler = DruidHandler::new_shared(wid(1));
    let mut shell = Shell::new();
    handler.idle(&mut state, IdleToken::run_commands(), &mut shell);
    assert_eq!(
        tree_of(&state, 1).seen,
        vec![Seen::Event(Event::TargetedCommand(to_window(1), custom(1)), 0), Seen::Settle]
    );
    assert_eq!(state.take_effects(), vec![Effect::Invalidate(handle(1))]);
}

#[test]
fn idle_with_unknown_token_logs_an_error() {
    let mut state = state_with(None);
    open(&mut state, 1, Tree::new(1));
    state.submit_command(to_window(1), custom(1));
    state.submit_ext_event(None, custom(2));
    let handler = DruidHandler::new_shared(wid(1));
    let mut shell = Shell::new();
    handler.idle(&mut state, IdleToken::new(3), &mut shell);
    assert_eq!(
        state.take_effects(),
        vec![Effect::Log(Level::Error, Notice::UnexpectedIdleToken(IdleToken::new(3)))]
    );
    assert!(tree_of(&state, 1).seen.is_empty());
    assert_eq!(state.waiting_commands(), 1);
    assert!(state.has_ext_events());
}

#[test]
fn callbacks_become_their_events() {
    let mut state = state_with(None);
    open(&mut state, 1, Tree::new(1));
    let handler = DruidHandler::new_shared(wid(1));
    let mut shell = Shell::new();
    let mods = KeyModifiers { shift: true, alt: false, ctrl: false, meta: false };
    let delta = Vec2 { x: Scalar { bits: 1 }, y: Scalar { bits: 2 } };
    handler.connected(&mut state, &mut shell);
    handler.size(&mut state, 640, 480, &mut shell);
    assert!(!handler.mouse_down(&mut state, &click(1, 1), &mut shell));
    assert!(!handler.mouse_up(&mut state, &click(1, 1), &mut shell));
    assert!(!handler.mouse_move(&mut state, &click(2, 2), &mut shell));
    assert!(!handler.key_down(&mut state, key(9), &mut shell));
    handler.key_up(&mut state, key(9), &mut shell);
    handler.wheel(&mut state, delta, mods, &mut shell);
    handler.zoom(&mut state, Scalar { bits: 4607182418800017408 }, &mut shell);
    handler.timer(&mut state, TimerToken { raw: 8 }, &mut shell);
    assert_eq!(
        tree_of(&state, 1).events(),
        vec![
            Event::WindowConnected,
            Event::Size(Size { width: 640, height: 480 }),
            Event::MouseDown(click(1, 1)),
            Event::MouseUp(click(1, 1)),
            Event::MouseMoved(click(2, 2)),
            Event::KeyDown(key(9)),
            Event::KeyUp(key(9)),
            Event::Wheel(WheelEvent { delta, mods }),
            Event::Zoom(Scalar { bits: 4607182418800017408 }),
            Event::Timer(TimerToken { raw: 8 }),
        ]
    );
    handler.got_focus(&mut state);
    assert_eq!(tree_of(&state, 1).seen.last(), Some(&Seen::AppMenu));
    let mut piet: Vec<u64> = Vec::new();
    assert!(!handler.paint(&mut state, &mut piet));
    assert_eq!(piet, vec![1]);
}

#[test]
fn mouse_and_key_callbacks_report_whether_the_event_was_handled() {
    let mut watcher = Watcher::new();
    watcher.swallows_keys = true;
    let mut state = state_with(Some(watcher));
    open(&mut state, 1, Tree::new(1));
    let handler = DruidHandler::new_shared(wid(1));
    let mut shell = Shell::new();
    assert!(handler.key_down(&mut state, key(1), &mut shell));
    assert!(!handler.mouse_down(&mut state, &click(0, 0), &mut shell));
    let other = DruidHandler::new_shared(wid(2));
    assert!(!other.mouse_down(&mut state, &click(0, 0), &mut shell));
    assert!(other.key_down(&mut state, key(1), &mut shell));
}

#[test]
fn second_settling_pass_asks_for_nothing() {
    let mut state = state_with(None);
    open(&mut state, 1, Tree::new(1));
    open(&mut state, 2, Tree::new(2));
    let handler = DruidHandler::new_shared(wid(1));
    let mut shell = Shell::new();
    handler.size(&mut state, 10, 10, &mut shell);
    assert_eq!(state.take_effects(), vec![Effect::Invalidate(handle(1))]);
    let settled_one = tree_of(&state, 1).clone();
    let settled_two = tree_of(&state, 2).clone();
    state.invalidate_and_finalize();
    state.invalidate_and_finalize();
    assert!(state.take_effects().is_empty());
    assert_eq!(state.waiting_commands(), 0);
    assert_eq!(*tree_of(&state, 1), settled_one);
    assert_eq!(*tree_of(&state, 2), settled_two);
}

#[test]
fn effects_are_handed_over_once() {
    let mut state = state_with(None);
    state.emit(Effect::Quit);
    state.log(Level::Warn, Notice::NoMenuCommand(1));
    let taken = state.take_effects();
    assert_eq!(taken, vec![Effect::Quit, Effect::Log(Level::Warn, Notice::NoMenuCommand(1))]);
    assert_eq!(logs(&taken), vec![(Level::Warn, Notice::NoMenuCommand(1))]);
    assert!(state.take_effects().is_empty());
}

#[test]
fn blank_window_handles_nothing() {
    let mut state: AppState<Blank, NoDelegate> = AppState::new((), (), None, ExtEventHost::new());
    let handler = DruidHandler::new_shared(wid(1));
    let mut shell = Shell::new();
    shell.window_answer = Ok(handle(1));
    let desc = WindowDesc { id: wid(1), layout: 0 };
    let command = Command::new(Selector::NewWindow, Payload::WindowDesc(desc));
    assert_eq!(handler.new_window(&mut state, command, &mut shell), Ok(()));
    assert_eq!(state.take_effects(), vec![Effect::Show(handle(1))]);
    assert!(!handler.key_down(&mut state, key(1), &mut shell));
    assert!(!state.do_event(wid(1), Event::TargetedCommand(to_widget(1), custom(1))));
    assert_eq!(state.get_menu_cmd(wid(1), 1), None);
    let mut piet = ();
    assert!(!handler.paint(&mut state, &mut piet));
    assert!(state.take_effects().is_empty());
    assert_eq!(state.waiting_commands(), 0);
    assert_eq!(state.window(wid(1)).unwrap().root, Blank);
}

#[test]
fn window_made_connects_or_reports() {
    let mut state = state_with(None);
    let desc = WindowDesc { id: wid(4), layout: 1 };
    state.add_window(wid(4), PendingWindow::new(Tree::new(1)));
    let failed = DruidHandler::window_made(&mut state, desc, Err(PlatformError { code: 3 }));
    assert_eq!(failed, Err(Notice::WindowCreationFailed(wid(4), PlatformError { code: 3 })));
    assert!(state.has_window(wid(4)) && !state.is_live(wid(4)));
    assert!(state.take_effects().is_empty());
    assert_eq!(DruidHandler::window_made(&mut state, desc, Ok(handle(4))), Ok(()));
    assert!(state.is_live(wid(4)));
    assert_eq!(state.take_effects(), vec![Effect::Show(handle(4))]);
}
