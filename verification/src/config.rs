//! Settings the supervisor is started with.

use std::time::Duration;
use vstd::prelude::*;

verus! {

/// What to watch, and how long to wait before restarting a bus-off interface.
#[derive(Debug)]
pub struct Config {
    /// Delay between a bus-off notification and the restart it triggers.
    pub bus_off_delay: Duration,
    /// Names of the CAN interfaces to monitor, in the order they were given.
    pub interface_names: Vec<String>,
}

impl Config {
    /// Bundles the two settings unchanged.
    pub fn new(bus_off_delay: Duration, interface_names: Vec<String>) -> (config: Self)
        ensures
            config.bus_off_delay == bus_off_delay,
            config.interface_names == interface_names,
    {
        Self { bus_off_delay, interface_names }
    }
}

impl Clone for Config {
    /// The copy has the same delay and the same names in the same order.
    fn clone(&self) -> (copy: Self)
        ensures
            copy.bus_off_delay == self.bus_off_delay,
            copy.interface_names@ == self.interface_names@,
    {
        let names = self.interface_names.clone();
        assert(names@ =~= self.interface_names@);
        Self { bus_off_delay: self.bus_off_delay, interface_names: names }
    }
}

} // verus!
