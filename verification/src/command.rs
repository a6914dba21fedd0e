//! Commands: a selector that names the intent, and a payload that the
//! consumer recovers by the type it expects.

use vstd::prelude::*;
use crate::event::Point;
use crate::ids::{WidgetId, WindowId};

verus! {

/// Names what a command asks for. The system selectors are understood by this
/// layer; an application's own selectors are told apart by their number.
#[derive(Clone, Copy, Debug, PartialEq, Eq, Hash, Structural)]
pub enum Selector {
    /// Show the platform's dialog for opening a file.
    ShowOpenPanel,
    /// Show the platform's dialog for saving a file.
    ShowSavePanel,
    /// A file was chosen in the open dialog; the payload is its `FileInfo`.
    OpenFile,
    /// A file was chosen in the save dialog; the payload is its `FileInfo`.
    SaveFile,
    /// Create a window; the payload is its `WindowDesc`.
    NewWindow,
    /// Close a window; the payload may name it.
    CloseWindow,
    /// Bring a window to the front; the payload names it.
    ShowWindow,
    QuitApp,
    HideApplication,
    HideOthers,
    Paste,
    /// Replace a window's menu; the payload is a `MenuDesc`.
    SetMenu,
    /// Show a context menu; the payload is a `ContextMenu`.
    ShowContextMenu,
    /// A selector of the application's own.
    Custom(u64),
}

/// Where a command or an event is to go.
#[derive(Clone, Copy, Debug, PartialEq, Eq, Hash, Structural)]
pub enum Target {
    /// One window.
    Window(WindowId),
    /// One widget, in whichever window holds it.
    Widget(WidgetId),
}

impl Target {
    /// The target that an absent one stands for: the window at hand.
    pub open spec fn resolved(target: Option<Target>, current: WindowId) -> Target {
        match target {
            Some(t) => t,
            None => Target::Window(current),
        }
    }

    /// Resolves an optional target: an absent one means the window at hand.
    pub fn resolve(target: Option<Target>, current: WindowId) -> (t: Target)
        ensures
            t == Target::resolved(target, current),
    {
        match target {
            Some(t) => t,
            None => Target::Window(current),
        }
    }
}

/// A file that the user chose in a dialog.
#[derive(Clone, Debug, PartialEq, Eq)]
pub struct FileInfo {
    pub path: String,
}

/// How a file dialog is to behave.
#[derive(Clone, Copy, Debug, PartialEq, Eq, Structural)]
pub struct FileDialogOptions {
    pub show_hidden: bool,
    pub multi_selection: bool,
}

impl FileDialogOptions {
    /// The options of a plain dialog: hidden files stay hidden, one file is
    /// chosen.
    pub open spec fn plain() -> FileDialogOptions {
        FileDialogOptions { show_hidden: false, multi_selection: false }
    }

    pub fn new() -> (options: FileDialogOptions)
        ensures
            options == FileDialogOptions::plain(),
    {
        FileDialogOptions { show_hidden: false, multi_selection: false }
    }
}

impl Default for FileDialogOptions {
    fn default() -> (options: FileDialogOptions)
        ensures
            options == FileDialogOptions::plain(),
    {
        FileDialogOptions::new()
    }
}

/// Describes a window that is to be created: the id it will have, and which
/// widget tree it shows. The layout number is for the tree's builder to read.
#[derive(Clone, Copy, Debug, PartialEq, Eq, Structural)]
pub struct WindowDesc {
    pub id: WindowId,
    pub layout: u64,
}

/// Names a menu. What the menu holds is the window's business.
#[derive(Clone, Copy, Debug, PartialEq, Eq, Structural)]
pub struct MenuDesc {
    pub key: u64,
}

/// A menu to pop up at a place in the window.
#[derive(Clone, Copy, Debug, PartialEq, Eq, Structural)]
pub struct ContextMenu {
    pub menu: MenuDesc,
    pub location: Point,
}

/// What a command carries. The sender picks the variant; the consumer asks for
/// the one it expects and gets nothing when another is there.
#[derive(Clone, Debug, PartialEq, Eq)]
pub enum Payload {
    Empty,
    WindowDesc(WindowDesc),
    WindowId(WindowId),
    FileDialogOptions(FileDialogOptions),
    FileInfo(FileInfo),
    Menu(MenuDesc),
    ContextMenu(ContextMenu),
    /// A value of the application's own.
    Custom(u64),
}

/// A request that travels through the queue: what is asked, and with what.
#[derive(Clone, Debug, PartialEq, Eq)]
pub struct Command {
    pub selector: Selector,
    pub payload: Payload,
}

impl Command {
    pub fn new(selector: Selector, payload: Payload) -> (command: Command)
        ensures
            command == (Command { selector, payload }),
    {
        Command { selector, payload }
    }

    /// The window id in the payload, if that is what the payload is.
    pub open spec fn window_id(self) -> Option<WindowId> {
        match self.payload {
            Payload::WindowId(id) => Some(id),
            _ => None,
        }
    }

    /// The window description in the payload, if that is what the payload is.
    pub open spec fn window_desc(self) -> Option<WindowDesc> {
        match self.payload {
            Payload::WindowDesc(desc) => Some(desc),
            _ => None,
        }
    }

    /// The dialog options in the payload, if that is what the payload is.
    pub open spec fn file_dialog_options(self) -> Option<FileDialogOptions> {
        match self.payload {
            Payload::FileDialogOptions(options) => Some(options),
            _ => None,
        }
    }

    /// The menu in the payload, if that is what the payload is.
    pub open spec fn menu(self) -> Option<MenuDesc> {
        match self.payload {
            Payload::Menu(menu) => Some(menu),
            _ => None,
        }
    }

    /// The context menu in the payload, if that is what the payload is.
    pub open spec fn context_menu(self) -> Option<ContextMenu> {
        match self.payload {
            Payload::ContextMenu(menu) => Some(menu),
            _ => None,
        }
    }

    /// The options with which a file dialog opens for this command: those in
    /// the payload, or the plain ones when the payload holds none.
    pub open spec fn dialog_options(self) -> FileDialogOptions {
        match self.file_dialog_options() {
            Some(options) => options,
            None => FileDialogOptions::plain(),
        }
    }

    pub fn get_window_id(&self) -> (id: Option<WindowId>)
        ensures
            id == self.window_id(),
    {
        match &self.payload {
            Payload::WindowId(id) => Some(*id),
            _ => None,
        }
    }

    pub fn get_window_desc(&self) -> (desc: Option<WindowDesc>)
        ensures
            desc == self.window_desc(),
    {
        match &self.payload {
            Payload::WindowDesc(desc) => Some(*desc),
            _ => None,
        }
    }

    pub fn get_file_dialog_options(&self) -> (options: Option<FileDialogOptions>)
        ensures
            options == self.file_dialog_options(),
    {
        match &self.payload {
            Payload::FileDialogOptions(options) => Some(*options),
            _ => None,
        }
    }

    pub fn get_menu(&self) -> (menu: Option<MenuDesc>)
        ensures
            menu == self.menu(),
    {
        match &self.payload {
            Payload::Menu(menu) => Some(*menu),
            _ => None,
        }
    }

    pub fn get_context_menu(&self) -> (menu: Option<ContextMenu>)
        ensures
            menu == self.context_menu(),
    {
        match &self.payload {
            Payload::ContextMenu(menu) => Some(*menu),
            _ => None,
        }
    }

    /// The options to open a file dialog with. A payload of another kind is no
    /// error here: the dialog then opens plain.
    pub fn get_dialog_options(&self) -> (options: FileDialogOptions)
        ensures
            options == self.dialog_options(),
    {
        match self.get_file_dialog_options() {
            Some(options) => options,
            None => FileDialogOptions::new(),
        }
    }
}

} // verus!
