//! A window as this layer holds it: the platform's handle and the widget
//! tree. The tree is the application's; this layer knows it by what it
//! answers.

use vstd::prelude::*;
use crate::command::{Command, MenuDesc, Target, WindowDesc};
use crate::event::{Event, Point};
use crate::queue::CommandQueue;
use crate::shell::WindowHandle;

verus! {

/// What a tree does with an event.
pub ghost struct EventOutcome<W: WidgetTree> {
    /// The tree after the event.
    pub tree: W,
    /// The application data after the event.
    pub data: W::Data,
    /// Whether the tree says that it handled the event.
    pub handled: bool,
    /// The commands that the tree submitted, in their order.
    pub commands: Seq<(Target, Command)>,
}

/// What a tree does in the pass that settles it after events and updates.
pub ghost struct InvalidateOutcome<W: WidgetTree> {
    pub tree: W,
    /// Whether the window is to be painted again.
    pub redraw: bool,
    pub commands: Seq<(Target, Command)>,
}

/// What a tree does when it paints.
pub ghost struct PaintOutcome<W: WidgetTree> {
    pub tree: W,
    /// The drawing surface after the tree has drawn on it.
    pub piet: W::Piet,
    /// Whether the tree wants another frame for an animation.
    pub more_frames: bool,
    pub commands: Seq<(Target, Command)>,
}

/// The widget tree of one window. The application implements it.
///
/// Each method has a model beside it: a specification function that names
/// what the method does, given the tree and what the method is handed. The
/// contracts of this crate speak of a tree through these models alone. An
/// implementation that is verified gives each model its meaning; one that is
/// not leaves the models as they stand here, without meaning.
///
/// A method that can submit commands is handed an empty queue, and what it
/// leaves there is taken over behind the commands that wait already.
pub trait WidgetTree: Sized {
    /// The application data that all windows share.
    type Data;

    /// The shared configuration that the trees read.
    type Env;

    /// The surface that a tree paints on.
    type Piet;

    /// Model of [`WidgetTree::build`].
    open spec fn built(desc: WindowDesc) -> Self {
        arbitrary()
    }

    /// Model of [`WidgetTree::event`].
    open spec fn event_outcome(self, event: Event, data: Self::Data, env: Self::Env)
        -> EventOutcome<Self> {
        arbitrary()
    }

    /// Model of [`WidgetTree::update`].
    open spec fn updated(self, data: Self::Data, env: Self::Env) -> Self {
        arbitrary()
    }

    /// Model of [`WidgetTree::invalidate_and_finalize`].
    open spec fn invalidate_outcome(self, data: Self::Data, env: Self::Env) -> InvalidateOutcome<
        Self,
    > {
        arbitrary()
    }

    /// Model of [`WidgetTree::do_paint`].
    open spec fn paint_outcome(self, piet: Self::Piet, data: Self::Data, env: Self::Env)
        -> PaintOutcome<Self> {
        arbitrary()
    }

    /// Model of [`WidgetTree::set_menu`].
    open spec fn with_menu(self, menu: MenuDesc, data: Self::Data, env: Self::Env) -> Self {
        arbitrary()
    }

    /// Model of [`WidgetTree::show_context_menu`].
    open spec fn with_context_menu(
        self,
        menu: MenuDesc,
        location: Point,
        data: Self::Data,
        env: Self::Env,
    ) -> Self {
        arbitrary()
    }

    /// Model of [`WidgetTree::get_menu_cmd`].
    open spec fn menu_cmd(self, id: u32) -> Option<Command> {
        arbitrary()
    }

    /// Model of [`WidgetTree::update_app_menu`].
    open spec fn with_app_menu(self, data: Self::Data, env: Self::Env) -> Self {
        arbitrary()
    }

    /// Builds the tree that a window description asks for.
    fn build(desc: &WindowDesc) -> (tree: Self)
        ensures
            tree == Self::built(*desc),
    ;

    /// Hands an event to the tree. The result says whether the tree handled
    /// it.
    fn event(
        &mut self,
        queue: &mut CommandQueue,
        event: &Event,
        data: &mut Self::Data,
        env: &Self::Env,
    ) -> (handled: bool)
        requires
            old(queue)@.len() == 0,
        ensures
            ({
                let o = old(self).event_outcome(*event, *old(data), *env);
                &&& *final(self) == o.tree
                &&& *final(data) == o.data
                &&& handled == o.handled
                &&& final(queue)@ == o.commands
            }),
    ;

    /// Tells the tree that the data or the environment may have changed.
    fn update(&mut self, data: &Self::Data, env: &Self::Env)
        ensures
            *final(self) == old(self).updated(*data, *env),
    ;

    /// Lets the tree settle: it works out what has to be painted again and
    /// finishes what events and updates have left open. The result says
    /// whether the window is to be painted again.
    ///
    /// A tree that has settled stays settled: the same call, made again on
    /// the same data and environment, changes nothing, asks for no repaint
    /// and submits nothing.
    fn invalidate_and_finalize(
        &mut self,
        queue: &mut CommandQueue,
        data: &Self::Data,
        env: &Self::Env,
    ) -> (redraw: bool)
        requires
            old(queue)@.len() == 0,
        ensures
            ({
                let o = old(self).invalidate_outcome(*data, *env);
                &&& *final(self) == o.tree
                &&& redraw == o.redraw
                &&& final(queue)@ == o.commands
            }),
            ({
                let again = final(self).invalidate_outcome(*data, *env);
                &&& again.tree == *final(self)
                &&& !again.redraw
                &&& again.commands == Seq::<(Target, Command)>::empty()
            }),
    ;

    /// Paints the tree. The result says whether the tree wants another frame.
    fn do_paint(
        &mut self,
        piet: &mut Self::Piet,
        queue: &mut CommandQueue,
        data: &Self::Data,
        env: &Self::Env,
    ) -> (more_frames: bool)
        requires
            old(queue)@.len() == 0,
        ensures
            ({
                let o = old(self).paint_outcome(*old(piet), *data, *env);
                &&& *final(self) == o.tree
                &&& *final(piet) == o.piet
                &&& more_frames == o.more_frames
                &&& final(queue)@ == o.commands
            }),
    ;

    /// Replaces the window's menu.
    fn set_menu(&mut self, menu: MenuDesc, data: &Self::Data, env: &Self::Env)
        ensures
            *final(self) == old(self).with_menu(menu, *data, *env),
    ;

    /// Pops a context menu up at a place in the window.
    fn show_context_menu(
        &mut self,
        menu: MenuDesc,
        location: Point,
        data: &Self::Data,
        env: &Self::Env,
    )
        ensures
            *final(self) == old(self).with_context_menu(menu, location, *data, *env),
    ;

    /// The command that the window's menus hold under a platform menu id.
    fn get_menu_cmd(&self, id: u32) -> (command: Option<Command>)
        ensures
            command == self.menu_cmd(id),
    ;

    /// Brings the application-wide menu in line with this window, which has
    /// just got the focus. Where each window has a menu of its own there is
    /// nothing to do.
    fn update_app_menu(&mut self, data: &Self::Data, env: &Self::Env)
        ensures
            *final(self) == old(self).with_app_menu(*data, *env),
    ;
}

/// Whether a tree has settled on this data and environment: the settling pass
/// would leave it as it is, ask for no repaint and submit nothing.
pub open spec fn settled<W: WidgetTree>(tree: W, data: W::Data, env: W::Env) -> bool {
    let again = tree.invalidate_outcome(data, env);
    again.tree == tree && !again.redraw && again.commands == Seq::<(Target, Command)>::empty()
}

/// A window that waits for the platform to make it real.
pub struct PendingWindow<W> {
    pub root: W,
}

/// A live window: the platform's handle and the widget tree.
pub struct Window<W> {
    pub handle: WindowHandle,
    pub root: W,
}

impl<W> PendingWindow<W> {
    pub fn new(root: W) -> (pending: PendingWindow<W>)
        ensures
            pending.root == root,
    {
        PendingWindow { root }
    }

    /// The live window that this one becomes when the platform has a handle
    /// for it.
    pub open spec fn connected(self, handle: WindowHandle) -> Window<W> {
        Window { handle, root: self.root }
    }

    pub fn into_window(self, handle: WindowHandle) -> (window: Window<W>)
        ensures
            window == self.connected(handle),
    {
        Window { handle, root: self.root }
    }
}

impl<W> Window<W> {
    /// This window with another tree in place of its own.
    pub open spec fn with_root(self, root: W) -> Window<W> {
        Window { handle: self.handle, root }
    }
}

/// The tree of a window that shows nothing: it handles no event, submits no
/// command, has no menu and never needs to be painted again.
#[derive(Clone, Copy, Debug, PartialEq, Eq)]
pub struct Blank;

impl WidgetTree for Blank {
    type Data = ();

    type Env = ();

    type Piet = ();

    open spec fn built(desc: WindowDesc) -> Blank {
        Blank
    }

    open spec fn event_outcome(self, event: Event, data: (), env: ()) -> EventOutcome<Blank> {
        EventOutcome { tree: self, data, handled: false, commands: Seq::empty() }
    }

    open spec fn updated(self, data: (), env: ()) -> Blank {
        self
    }

    open spec fn invalidate_outcome(self, data: (), env: ()) -> InvalidateOutcome<Blank> {
        InvalidateOutcome { tree: self, redraw: false, commands: Seq::empty() }
    }

    open spec fn paint_outcome(self, piet: (), data: (), env: ()) -> PaintOutcome<Blank> {
        PaintOutcome { tree: self, piet, more_frames: false, commands: Seq::empty() }
    }

    open spec fn with_menu(self, menu: MenuDesc, data: (), env: ()) -> Blank {
        self
    }

    open spec fn with_context_menu(self, menu: MenuDesc, location: Point, data: (), env: ())
        -> Blank {
        self
    }

    open spec fn menu_cmd(self, id: u32) -> Option<Command> {
        None
    }

    open spec fn with_app_menu(self, data: (), env: ()) -> Blank {
        self
    }

    fn build(desc: &WindowDesc) -> (tree: Blank) {
        Blank
    }

    fn event(
        &mut self,
        queue: &mut CommandQueue,
        event: &Event,
        data: &mut (),
        env: &(),
    ) -> (handled: bool) {
        false
    }

    fn update(&mut self, data: &(), env: &()) {
    }

    fn invalidate_and_finalize(
        &mut self,
        queue: &mut CommandQueue,
        data: &(),
        env: &(),
    ) -> (redraw: bool) {
        false
    }

    fn do_paint(
        &mut self,
        piet: &mut (),
        queue: &mut CommandQueue,
        data: &(),
        env: &(),
    ) -> (more_frames: bool) {
        false
    }

    fn set_menu(&mut self, menu: MenuDesc, data: &(), env: &()) {
    }

    fn show_context_menu(&mut self, menu: MenuDesc, location: Point, data: &(), env: &()) {
    }

    fn get_menu_cmd(&self, id: u32) -> (command: Option<Command>) {
        None
    }

    fn update_app_menu(&mut self, data: &(), env: &()) {
    }
}

} // verus!
