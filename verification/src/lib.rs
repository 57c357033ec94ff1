//! Application shell of the Lapce editor: theme colours and the styling
//! environment, the registry of window states, the channel that carries UI
//! commands to the GUI thread, and the deadlock watchdog's report.

pub mod color;
pub mod command;
pub mod environment;
pub mod registry;
pub mod state;
pub mod theme;
pub mod watchdog;
pub mod window;
