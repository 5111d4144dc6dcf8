//! A read-only viewer for window-manager key bindings: the configuration
//! loader, the list viewer's state machine, and the frame it shows.

pub mod binding;
pub mod config;
pub mod input;
pub mod laws;
pub mod screen;
pub mod viewer;

pub use binding::{Binding, BindingView};
pub use config::{config_path, parse_bindings};
pub use input::{Event, KeyCode, KeyEvent, KeyEventKind};
pub use screen::{Screen, ScreenView, Span, SpanView, Style};
pub use viewer::{App, AppView};
