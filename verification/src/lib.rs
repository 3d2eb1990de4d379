//! Bus-off supervision for CAN interfaces: the rules by which bus events are
//! recognised and by which restarts are scheduled, deduplicated and cancelled.

pub mod config;
pub mod events;
pub mod interface;
pub mod monitoring;
pub mod restart;
pub mod startup;

pub use config::Config;
pub use events::{BusEvent, BusEventSource, BusEventType, CanState, ErrorFrame};
pub use interface::{CanInterfaceInfo, LookupError};
pub use monitoring::{monitor_interface_errors, monitor_netlink};
pub use restart::{RestartManager, RestartTimer};
