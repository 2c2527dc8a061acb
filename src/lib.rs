//! Tray menu layout and event routing for a desktop application that lives
//! in the system tray: `show`, `hide` and `quit` menu commands, and a close
//! request that hides the main window instead of ending the process.

pub mod laws;
pub mod menu;
pub mod router;
