//! The Help submenu of an application's menu bar.
//!
//! The crate says what the submenu holds, which steps put it in the place
//! of the one that the toolkit supplies, and which address each of its
//! actions opens. It touches no menu bar itself: the steps are handed to
//! the caller, who carries them out and reports how they ended.

pub mod action;
pub mod event;
pub mod menu_bar;
pub mod setup;
pub mod submenu;
mod text;

pub use action::MenuAction;
pub use event::{handle_menu_event, MenuEvent, OpenUrl};
pub use setup::{setup_macos_menu, SetupReport, SetupRequest, SetupState};
pub use submenu::{help_submenu, MenuEntry, Submenu};
