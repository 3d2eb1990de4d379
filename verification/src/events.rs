//! The one event model both monitors report in.

use crate::interface::CanInterfaceInfo;
use vstd::prelude::*;

verus! {

/// What happened to the bus.
#[derive(Debug, Clone, Copy, PartialEq, Eq, Structural)]
pub enum BusEventType {
    /// The controller went bus-off and needs a restart.
    BusOff,
    /// The controller was restarted and is active again.
    Restart,
    /// The interface was taken down.
    Stopped,
}

/// Operating state of a CAN controller, as the kernel reports it in a link
/// update.
#[derive(Debug, Clone, Copy, PartialEq, Eq, Structural)]
pub enum CanState {
    /// Error counters below the warning level.
    ErrorActive,
    /// Error counters at the warning level.
    ErrorWarning,
    /// Error counters at the passive level.
    ErrorPassive,
    /// Too many errors: the controller no longer takes part in the bus.
    BusOff,
    /// The device is stopped.
    Stopped,
    /// The device is asleep.
    Sleeping,
}

/// A CAN error frame as it came off the socket: the identifier word with its
/// flag bits, and the eight data bytes.
#[derive(Debug, Clone, Copy, PartialEq, Eq)]
pub struct ErrorFrame {
    /// Identifier word, flags included.
    pub id_word: u32,
    /// Payload; error frames always carry eight bytes.
    pub data: [u8; 8],
}

/// Where an event was observed. Kept for diagnostics; no decision reads it.
#[derive(Debug, Clone, Copy, PartialEq, Eq)]
pub enum BusEventSource {
    /// An error frame read from the interface's own socket.
    ErrorFrame(ErrorFrame),
    /// A controller state carried by a kernel link update.
    StateUpdate(CanState),
}

/// One change of bus state on one interface.
#[derive(Debug)]
pub struct BusEvent {
    /// The interface concerned.
    pub interface: CanInterfaceInfo,
    /// What happened.
    pub event_type: BusEventType,
    /// Where it was observed.
    pub event_source: BusEventSource,
}

impl BusEvent {
    /// A bus-off event for `interface`.
    pub fn bus_off(interface: CanInterfaceInfo, event_source: BusEventSource) -> (event: Self)
        ensures
            event == (BusEvent { interface, event_type: BusEventType::BusOff, event_source }),
    {
        Self { interface, event_type: BusEventType::BusOff, event_source }
    }

    /// A restart event for `interface`.
    pub fn restart(interface: CanInterfaceInfo, event_source: BusEventSource) -> (event: Self)
        ensures
            event == (BusEvent { interface, event_type: BusEventType::Restart, event_source }),
    {
        Self { interface, event_type: BusEventType::Restart, event_source }
    }

    /// A stopped event for `interface`.
    pub fn stopped(interface: CanInterfaceInfo, event_source: BusEventSource) -> (event: Self)
        ensures
            event == (BusEvent { interface, event_type: BusEventType::Stopped, event_source }),
    {
        Self { interface, event_type: BusEventType::Stopped, event_source }
    }

    /// Whether this is a bus-off event.
    pub fn is_bus_off(&self) -> (yes: bool)
        ensures
            yes == (self.event_type == BusEventType::BusOff),
    {
        matches!(self.event_type, BusEventType::BusOff)
    }

    /// Whether this is a restart event.
    pub fn is_restart(&self) -> (yes: bool)
        ensures
            yes == (self.event_type == BusEventType::Restart),
    {
        matches!(self.event_type, BusEventType::Restart)
    }

    /// Whether this is a stopped event.
    pub fn is_stopped(&self) -> (yes: bool)
        ensures
            yes == (self.event_type == BusEventType::Stopped),
    {
        matches!(self.event_type, BusEventType::Stopped)
    }
}

impl Clone for BusEvent {
    /// The copy equals the event it was taken from.
    fn clone(&self) -> (copy: Self)
        ensures
            copy == *self,
    {
        Self {
            interface: self.interface.clone(),
            event_type: self.event_type,
            event_source: self.event_source,
        }
    }
}

} // verus!
