//! The control layer between a windowing platform and the windows of an
//! application.
//!
//! A platform callback for a window comes in at the window's
//! [`DruidHandler`]. The handler turns it into an event and takes the shared
//! [`AppState`] through one cycle: the delegate gets the first refusal, the
//! event is routed to the windows, the commands that came out of it are
//! drained, every window is updated, and every window settles. What the
//! platform is to do as a result (close a window, repaint, quit, write a log
//! line) is left in a list of effects that the caller carries out when the
//! callback is done.
//!
//! The widget trees, the delegate and the platform are the application's:
//! this crate knows them as the traits [`window::WidgetTree`],
//! [`delegate::AppDelegate`] and [`shell::WinCtx`].
//!
//! The module `model` holds the state as plain mathematics and says what each
//! step makes of it; the contracts of the executable code are stated over it.
//! The module `laws` proves what holds of every dispatch.

pub mod app_state;
pub mod command;
pub mod delegate;
pub mod event;
pub mod ext_event;
pub mod handler;
pub mod ids;
pub mod laws;
pub mod model;
pub mod queue;
pub mod registry;
pub mod shell;
pub mod window;

pub use app_state::AppState;
pub use handler::DruidHandler;
pub use registry::Windows;
