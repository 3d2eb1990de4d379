//! The two event sources: kernel link updates and per-interface error frames.

pub mod error_frame;
pub mod netlink;

pub use error_frame::{monitor_interface_errors, CanErrorKind, ErrorMonitorAction, SocketOutcome};
pub use netlink::{monitor_netlink, LinkUpdate, NetlinkAction, NetlinkOutcome, WatchList};
