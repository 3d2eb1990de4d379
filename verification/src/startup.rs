//! What has to hold of the configured interfaces before monitoring starts.

use crate::interface::{CanInterfaceInfo, LookupError};
use vstd::prelude::*;

verus! {

/// Why monitoring cannot start.
#[derive(Debug, Clone, Copy, PartialEq, Eq, Structural)]
pub enum StartupError {
    /// No interface was named.
    NoInterfaces,
    /// A named interface does not exist, and missing ones are not ignored.
    UnknownInterface,
    /// Missing interfaces are ignored, and none of the named ones exists.
    NoValidInterfaces,
}

/// The interfaces among `lookups` that were found, in their order.
pub open spec fn found(lookups: Seq<Result<CanInterfaceInfo, LookupError>>) -> Seq<CanInterfaceInfo>
    decreases lookups.len(),
{
    if lookups.len() == 0 {
        Seq::empty()
    } else {
        match lookups.last() {
            Ok(interface) => found(lookups.drop_last()).push(interface),
            Err(_) => found(lookups.drop_last()),
        }
    }
}

/// Whether every lookup in `lookups` found its interface.
pub open spec fn all_found(lookups: Seq<Result<CanInterfaceInfo, LookupError>>) -> bool {
    forall|k: int| 0 <= k < lookups.len() ==> (#[trigger] lookups[k]) is Ok
}

/// The interfaces to monitor, or the reason there are none.
///
/// At least one interface has to be named. A name that does not resolve is
/// an error unless `ignore_invalid` is set; with it set, the names that do
/// resolve are monitored, and there has to be at least one.
pub open spec fn selection(
    lookups: Seq<Result<CanInterfaceInfo, LookupError>>,
    ignore_invalid: bool,
) -> Result<Seq<CanInterfaceInfo>, StartupError> {
    if lookups.len() == 0 {
        Err(StartupError::NoInterfaces)
    } else if !ignore_invalid && !all_found(lookups) {
        Err(StartupError::UnknownInterface)
    } else if found(lookups).len() == 0 {
        Err(StartupError::NoValidInterfaces)
    } else {
        Ok(found(lookups))
    }
}

/// Decides from the lookups of the configured names, one per name and in
/// their order, which interfaces are monitored.
pub fn select_interfaces(
    lookups: Vec<Result<CanInterfaceInfo, LookupError>>,
    ignore_invalid: bool,
) -> (selected: Result<Vec<CanInterfaceInfo>, StartupError>)
    ensures
        match selection(lookups@, ignore_invalid) {
            Ok(interfaces) => selected matches Ok(chosen) && chosen@ == interfaces,
            Err(reason) => selected == Err::<Vec<CanInterfaceInfo>, StartupError>(reason),
        },
{
    if lookups.len() == 0 {
        return Err(StartupError::NoInterfaces);
    }
    let mut interfaces: Vec<CanInterfaceInfo> = Vec::new();
    let mut complete = true;
    let mut n: usize = 0;
    while n < lookups.len()
        invariant
            n <= lookups.len(),
            interfaces@ == found(lookups@.take(n as int)),
            complete == all_found(lookups@.take(n as int)),
        decreases lookups.len() - n,
    {
        let ghost seen = lookups@.take(n as int);
        let ghost now = lookups@.take(n + 1);
        assert(now.drop_last() == seen);
        assert(now.last() == lookups[n as int]);
        match &lookups[n] {
            Ok(interface) => {
                interfaces.push(interface.clone());
                assert(all_found(now) == all_found(seen)) by {
                    if all_found(seen) {
                        assert forall|k: int| 0 <= k < now.len() implies (#[trigger] now[k]) is Ok by {
                            if k < n {
                                assert(seen[k] is Ok);
                            }
                        }
                    } else {
                        let k = choose|k: int| 0 <= k < seen.len() && !((#[trigger] seen[k]) is Ok);
                        assert(now[k] == seen[k]);
                    }
                }
            },
            Err(_) => {
                complete = false;
                assert(!(now[n as int] is Ok));
            },
        }
        n += 1;
    }
    assert(lookups@.take(n as int) == lookups@);
    if !ignore_invalid && !complete {
        return Err(StartupError::UnknownInterface);
    }
    if interfaces.len() == 0 {
        return Err(StartupError::NoValidInterfaces);
    }
    Ok(interfaces)
}

} // verus!
