//! What this layer sees of the platform: the handles it is given, the
//! requests it leaves for the platform to carry out, and the questions it asks.

use vstd::prelude::*;
use crate::command::{FileDialogOptions, FileInfo, Selector, WindowDesc};
use crate::event::Clipboard;
use crate::ids::{IdleToken, WindowId};

verus! {

/// Lets the platform be asked to call a window back when the event loop is
/// idle.
#[derive(Clone, Copy, Debug, PartialEq, Eq, Structural)]
pub struct IdleHandle {
    pub raw: u64,
}

/// The platform's name for a window that it has made, and the idle handle
/// that the window offers, if it offers one.
#[derive(Clone, Copy, Debug, PartialEq, Eq)]
pub struct WindowHandle {
    pub raw: u64,
    pub idle: Option<IdleHandle>,
}

impl WindowHandle {
    pub fn new(raw: u64, idle: Option<IdleHandle>) -> (handle: WindowHandle)
        ensures
            handle == (WindowHandle { raw, idle }),
    {
        WindowHandle { raw, idle }
    }

    pub fn get_idle_handle(&self) -> (idle: Option<IdleHandle>)
        ensures
            idle == self.idle,
    {
        self.idle
    }
}

/// Why the platform could not do what was asked, in the platform's own code.
#[derive(Clone, Copy, Debug, PartialEq, Eq, Structural)]
pub struct PlatformError {
    pub code: i32,
}

#[derive(Clone, Copy, Debug, PartialEq, Eq, Structural)]
pub enum Level {
    Error,
    Warn,
}

/// Something that went wrong and is reported, never raised: the dispatch goes
/// on after each of these.
#[derive(Clone, Copy, Debug, PartialEq, Eq, Structural)]
pub enum Notice {
    /// The platform connected a handle for a window that was not waiting.
    NoPendingWindow(WindowId),
    /// A window was to be created under an id that is in use.
    DuplicateWindow(WindowId),
    /// The payload of a command with this selector was not of the kind that
    /// the selector calls for.
    BadPayload(Selector),
    /// The platform could not create the window.
    WindowCreationFailed(WindowId, PlatformError),
    /// The window's menu has no command under this id.
    NoMenuCommand(u32),
    /// An idle callback came with a token that means nothing here.
    UnexpectedIdleToken(IdleToken),
}

/// One thing that is left for the platform side to carry out. The effects of
/// a callback are to be carried out in their order once the callback is done.
#[derive(Clone, Copy, Debug, PartialEq, Eq)]
pub enum Effect {
    /// Ask the platform to close the window. The window stays in the registry
    /// until the platform reports that it is destroyed.
    Close(WindowHandle),
    BringToFrontAndFocus(WindowHandle),
    /// Make a newly created window visible.
    Show(WindowHandle),
    /// Ask the platform to repaint the window.
    Invalidate(WindowHandle),
    /// Ask for an idle callback with this token.
    ScheduleIdle(IdleHandle, IdleToken),
    Quit,
    HideApplication,
    HideOthers,
    /// Write a line to the log.
    Log(Level, Notice),
}

/// The questions that need an answer from the platform before the dispatch
/// can go on. Nothing is known of an answer before it is given.
pub trait WinCtx {
    /// Shows the dialog for opening a file and waits for the user; `None`
    /// when the user gave up.
    fn open_file_sync(&mut self, options: FileDialogOptions) -> (choice: Option<FileInfo>);

    /// Shows the dialog for saving a file and waits for the user; `None`
    /// when the user gave up.
    fn save_as_sync(&mut self, options: FileDialogOptions) -> (choice: Option<FileInfo>);

    /// Reads the clipboard.
    fn clipboard(&mut self) -> (contents: Clipboard);

    /// Creates the platform's window for a description.
    fn build_window(&mut self, desc: &WindowDesc) -> (made: Result<WindowHandle, PlatformError>);
}

/// The answers of the platform to whatever one command may ask of it. Each
/// command reads the answer to its own question and no other.
pub ghost struct ShellReply {
    pub file: Option<FileInfo>,
    pub clipboard: Clipboard,
    pub window: Result<WindowHandle, PlatformError>,
}

} // verus!
