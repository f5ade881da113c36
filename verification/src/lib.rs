//! Decision logic of a notification-area CPU monitor for Windows: UTF-16 and
//! decimal text, the icon and tooltip caches, the order of shell calls that
//! registers and refreshes the tray icon, and the window-message dispatcher.
//! The platform calls themselves are made by the application around it.

pub mod app;
pub mod console;
pub mod cpu;
pub mod icon;
pub mod protocol;
pub mod text;
pub mod tray;
