//! Server-side state machine of the xdg shell protocol family: popup
//! positioners, the shell-surface role with its configure/acknowledge
//! handshake, and the tables that reconcile the unstable v6 wire revision with
//! the stable one.
pub mod configure;
pub mod placement;
pub mod positioner;
pub mod role;
pub mod shell;
