//! Interactive output router: decides where command output goes (terminal
//! streams or an external pager), how it is styled, whether progress feedback
//! is shown, and how interactive input is solicited.

pub mod choice;
pub mod config;
pub mod pagination;
pub mod progress;
pub mod prompt;
pub mod router;
