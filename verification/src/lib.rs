//! The decisions of the Daily desktop shell, apart from the windows, the
//! tray and the files they are about.
//!
//! Daily shows a main window and a widget window, sits in the system tray,
//! listens to a global shortcut, and keeps its data, its configuration and
//! an event log as JSON files. This library holds what the shell decides:
//!
//! - [`window`] and [`address`]: the size of the widget window at a scale,
//!   what it is created with, and the address it loads;
//! - [`tray`]: the entries of the tray menu and the command behind each;
//! - [`shell`]: how the flags of the application change on an event, and
//!   the effects that follow, in order;
//! - [`layout`], [`storage`], [`replace`] and [`config`]: where the files
//!   lie, how a document is parsed and written, in which order its file is
//!   replaced, and how the configuration records the widget's visibility;
//! - [`journal`] and [`reports`]: the entries of the event log;
//! - [`json`], [`clock`] and [`text`]: what is taken on trust from
//!   `serde_json` and the standard library. What [`address`] and
//!   [`layout`] take on trust from `url` and `std::path` stands at their
//!   head.
//!
//! Nothing here opens a window or touches a file: the caller does, as the
//! effects and steps returned here tell it.

pub mod address;
pub mod clock;
pub mod config;
pub mod journal;
pub mod json;
pub mod layout;
pub mod replace;
pub mod reports;
pub mod shell;
pub mod storage;
pub mod text;
pub mod tray;
pub mod window;
