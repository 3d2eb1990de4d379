//! Link-state monitoring: which kernel link updates become bus events.

use crate::events::{BusEvent, BusEventSource, BusEventType, CanState};
use crate::interface::CanInterfaceInfo;
use neli::consts::rtnl::Ifla;
use neli::rtnl::Rtattr;
use neli::types::Buffer;
use socketcan::InterfaceCanParams;
use vstd::prelude::*;

verus! {

/// Hardware type the kernel gives CAN devices (`ARPHRD_CAN`).
pub const ARPHRD_CAN: u16 = 280;

/// Whether `s` never decreases from one position to a later one.
pub open spec fn ascending(s: Seq<u32>) -> bool {
    forall|i: int, j: int| 0 <= i <= j < s.len() ==> s[i] <= s[j]
}

/// The set of kernel indices of `interfaces`.
pub open spec fn indices_of(interfaces: Seq<CanInterfaceInfo>) -> Set<u32> {
    Set::new(|idx: u32| exists|k: int| 0 <= k < interfaces.len() && interfaces[k].idx == idx)
}

/// Puts `idx` into the ascending list `indices`, before the first entry that
/// is larger, and returns the position it took.
fn insert_ascending(indices: &mut Vec<u32>, idx: u32) -> (at: usize)
    requires
        ascending(old(indices)@),
    ensures
        at <= old(indices)@.len(),
        final(indices)@ == old(indices)@.insert(at as int, idx),
        ascending(final(indices)@),
{
    let mut at: usize = 0;
    while at < indices.len() && indices[at] <= idx
        invariant
            at <= indices.len(),
            forall|k: int| 0 <= k < at ==> indices[k] <= idx,
        decreases indices.len() - at,
    {
        at += 1;
    }
    indices.insert(at, idx);
    at
}

/// The interfaces whose link updates are listened to: either every
/// interface, or those with one of a fixed set of kernel indices.
///
/// The indices are kept in ascending order so that a lookup halves the list
/// at each step.
pub struct WatchList {
    everything: bool,
    indices: Vec<u32>,
}

impl View for WatchList {
    type V = Set<u32>;

    /// The indices that are watched.
    closed spec fn view(&self) -> Set<u32> {
        if self.everything {
            Set::full()
        } else {
            self.indices@.to_set()
        }
    }
}

impl WatchList {
    #[verifier::type_invariant]
    spec fn well_formed(&self) -> bool {
        ascending(self.indices@)
    }

    /// Watches every interface.
    pub fn all() -> (watch: Self)
        ensures
            watch@ == Set::<u32>::full(),
    {
        WatchList { everything: true, indices: Vec::new() }
    }

    /// Watches exactly the given interfaces, told apart by kernel index.
    pub fn only(interfaces: &Vec<CanInterfaceInfo>) -> (watch: Self)
        ensures
            watch@ == indices_of(interfaces@),
    {
        let mut indices: Vec<u32> = Vec::new();
        let mut n: usize = 0;
        while n < interfaces.len()
            invariant
                n <= interfaces.len(),
                ascending(indices@),
                indices@.to_set() == indices_of(interfaces@.take(n as int)),
            decreases interfaces.len() - n,
        {
            let ghost before = indices@;
            let at = insert_ascending(&mut indices, interfaces[n].idx);
            proof {
                let idx = interfaces[n as int].idx;
                let seen = interfaces@.take(n as int);
                let now = interfaces@.take(n + 1);
                assert(now == seen.push(interfaces[n as int]));
                assert forall|i: u32| indices@.to_set().contains(i) <==> indices_of(now).contains(i) by {
                    if indices@.contains(i) {
                        let k = choose|k: int| 0 <= k < indices@.len() && indices@[k] == i;
                        if k == at {
                            assert(now[n as int].idx == i);
                        } else {
                            let j = if k < at { k } else { k - 1 };
                            assert(before[j] == i);
                            assert(before.to_set().contains(i));
                            let m = choose|m: int| 0 <= m < seen.len() && seen[m].idx == i;
                            assert(now[m].idx == i);
                        }
                    }
                    if indices_of(now).contains(i) {
                        let m = choose|m: int| 0 <= m < now.len() && now[m].idx == i;
                        if m == n {
                            assert(indices@[at as int] == i);
                        } else {
                            assert(seen[m].idx == i);
                            assert(before.to_set().contains(i));
                            let j = choose|j: int| 0 <= j < before.len() && before[j] == i;
                            let k = if j < at { j } else { j + 1 };
                            assert(indices@[k] == i);
                        }
                    }
                }
            }
            n += 1;
        }
        assert(interfaces@.take(n as int) == interfaces@);
        WatchList { everything: false, indices }
    }

    /// Whether updates of the interface with kernel index `idx` are listened
    /// to.
    pub fn contains(&self, idx: u32) -> (watched: bool)
        ensures
            watched == self@.contains(idx),
    {
        proof {
            use_type_invariant(self);
        }
        if self.everything {
            return true;
        }
        let mut low: usize = 0;
        let mut high: usize = self.indices.len();
        while low < high
            invariant
                low <= high <= self.indices.len(),
                ascending(self.indices@),
                forall|k: int| 0 <= k < low ==> self.indices[k] < idx,
                forall|k: int| high <= k < self.indices.len() ==> self.indices[k] > idx,
            decreases high - low,
        {
            let mid = low + (high - low) / 2;
            let probe = self.indices[mid];
            if probe == idx {
                assert(self.indices@.contains(idx));
                return true;
            } else if probe < idx {
                low = mid + 1;
            } else {
                high = mid;
            }
        }
        assert(!self.indices@.contains(idx));
        false
    }

    /// Whether `update` is listened to: it is of a CAN device, and the
    /// device's index is watched.
    pub fn accepts(&self, update: &LinkUpdate) -> (accepted: bool)
        ensures
            accepted == is_watched_can_link(self@, *update),
    {
        let index: u32 = #[verifier::truncate] (update.index as u32);
        update.hardware_type == ARPHRD_CAN && self.contains(index)
    }
}

/// What one kernel link update says, as plain values.
#[derive(Debug)]
pub struct LinkUpdate {
    /// Hardware type of the device (`ifi_type`).
    pub hardware_type: u16,
    /// Kernel index of the interface (`ifi_index`), as the kernel's signed
    /// integer.
    pub index: i32,
    /// Interface name, where the update carried one that could be read.
    pub name: Option<String>,
    /// Payload of the update's link-info attribute, where it had one.
    pub link_info: Option<Vec<u8>>,
}

/// The kernel index of an update as the unsigned number interfaces are told
/// apart by: the same 32 bits, read without a sign.
pub open spec fn link_index(index: i32) -> u32 {
    index as u32
}

/// The name an update's interface goes by: the one it carried, or `Unknown`.
pub open spec fn link_name(name: Option<String>) -> Seq<char> {
    match name {
        Some(given) => given@,
        None => "Unknown"@,
    }
}

/// The event a reported controller state stands for. Only bus-off and
/// stopped are reported on; a link update never yields a restart event.
pub open spec fn event_for_state(interface: CanInterfaceInfo, state: Option<CanState>) -> Option<BusEvent> {
    match state {
        Some(CanState::BusOff) => Some(
            BusEvent {
                interface,
                event_type: BusEventType::BusOff,
                event_source: BusEventSource::StateUpdate(CanState::BusOff),
            },
        ),
        Some(CanState::Stopped) => Some(
            BusEvent {
                interface,
                event_type: BusEventType::Stopped,
                event_source: BusEventSource::StateUpdate(CanState::Stopped),
            },
        ),
        _ => None,
    }
}

/// Whether `update` is of a CAN device whose index is among `watching`.
pub open spec fn is_watched_can_link(watching: Set<u32>, update: LinkUpdate) -> bool {
    update.hardware_type == ARPHRD_CAN && watching.contains(link_index(update.index))
}

/// Whether `event` is what `update` means when the controller state it
/// reports is `state`: the event of that state, for the interface with the
/// update's index and name, and no event where the state has none.
pub open spec fn is_update_event(update: LinkUpdate, state: Option<CanState>, event: Option<BusEvent>) -> bool {
    match event {
        Some(e) => {
            &&& e.interface.idx == link_index(update.index)
            &&& e.interface.name@ == link_name(update.name)
            &&& event == event_for_state(e.interface, state)
        },
        None => state != Some(CanState::BusOff) && state != Some(CanState::Stopped),
    }
}

/// What `link_event` may return for `update` when `watching` is the set of
/// watched indices.
///
/// No event is the only answer for a device that is not CAN and for an index
/// that is not watched. Otherwise the controller state inside the link info
/// decides, where an update without link info reports no state: the answer
/// is what the update means for some such state.
pub open spec fn link_event_allowed(watching: Set<u32>, update: LinkUpdate, event: Option<BusEvent>) -> bool {
    if is_watched_can_link(watching, update) {
        exists|state: Option<CanState>|
            (update.link_info is None ==> state is None) && #[trigger] is_update_event(
                update,
                state,
                event,
            )
    } else {
        event is None
    }
}

/// Reads the controller state out of the payload of a link-info attribute,
/// with socketcan's `InterfaceCanParams::try_from`.
///
/// socketcan walks the nested attributes with `neli`, which reads lengths and
/// numbers in the byte order of the machine, as the kernel wrote them. What
/// comes back therefore is not fixed by the bytes alone, and nothing is
/// claimed of it. Only the payload is handed over; the length field of the
/// attribute built around it is not read.
#[verifier::external_body]
fn decode_link_state(link_info: &Vec<u8>) -> (state: Option<CanState>) {
    let attr = Rtattr { rta_len: 0, rta_type: Ifla::Linkinfo, rta_payload: Buffer::from(link_info.as_slice()) };
    match InterfaceCanParams::try_from(&attr).ok()?.state? {
        socketcan::nl::CanState::ErrorActive => Some(CanState::ErrorActive),
        socketcan::nl::CanState::ErrorWarning => Some(CanState::ErrorWarning),
        socketcan::nl::CanState::ErrorPassive => Some(CanState::ErrorPassive),
        socketcan::nl::CanState::BusOff => Some(CanState::BusOff),
        socketcan::nl::CanState::Stopped => Some(CanState::Stopped),
        socketcan::nl::CanState::Sleeping => Some(CanState::Sleeping),
    }
}

/// The controller state an update reports: none without link info, otherwise
/// whatever state the link info holds.
pub fn link_state(link_info: &Option<Vec<u8>>) -> (state: Option<CanState>)
    ensures
        link_info is None ==> state is None,
{
    match link_info {
        Some(payload) => decode_link_state(payload),
        None => None,
    }
}

/// The event that a controller state reported for `interface` stands for.
pub fn state_event(interface: CanInterfaceInfo, state: Option<CanState>) -> (event: Option<BusEvent>)
    ensures
        event == event_for_state(interface, state),
{
    match state {
        Some(CanState::BusOff) => Some(
            BusEvent::bus_off(interface, BusEventSource::StateUpdate(CanState::BusOff)),
        ),
        Some(CanState::Stopped) => Some(
            BusEvent::stopped(interface, BusEventSource::StateUpdate(CanState::Stopped)),
        ),
        _ => None,
    }
}

/// What an update of a watched CAN device means, given the controller state
/// it reports: the event of that state, for the interface the update names.
/// An update without a name is of the interface `Unknown`.
pub fn update_event(update: LinkUpdate, state: Option<CanState>) -> (event: Option<BusEvent>)
    ensures
        is_update_event(update, state, event),
{
    let index: u32 = #[verifier::truncate] (update.index as u32);
    let name = match update.name {
        Some(given) => given,
        None => "Unknown".to_owned(),
    };
    state_event(CanInterfaceInfo { idx: index, name }, state)
}

/// Decides what one link update means for the watched interfaces.
///
/// Updates of devices that are not CAN, or whose index is not watched, are
/// dropped before anything else of them is read. For the rest the controller
/// state in the link info decides: bus-off and stopped become events, every
/// other state, and a missing one, becomes nothing.
pub fn link_event(watch: &WatchList, update: LinkUpdate) -> (event: Option<BusEvent>)
    ensures
        link_event_allowed(watch@, update, event),
{
    if !watch.accepts(&update) {
        return None;
    }
    let state = link_state(&update.link_info);
    update_event(update, state)
}

/// What the link monitor asks its driver to do next.
#[derive(Debug)]
pub enum NetlinkAction {
    /// Subscribe to the kernel's link notifications.
    Connect,
    /// Wait for the next link update.
    Receive,
    /// Put this event on the event channel.
    Emit(BusEvent),
    /// Monitoring is over.
    Stop,
}

/// What the driver reports back after carrying out an action.
#[derive(Debug)]
pub enum NetlinkOutcome {
    /// The subscription is open.
    Connected,
    /// The subscription could not be opened.
    ConnectFailed,
    /// An update arrived; this is what `link_event` made of it.
    Update(Option<BusEvent>),
    /// A message arrived that could not be read as a link update.
    Malformed,
    /// Receiving failed.
    ReceiveFailed,
    /// The event channel took the event.
    Delivered,
    /// The event channel is closed.
    ChannelClosed,
}

/// The link monitor's rules.
///
/// A subscription that cannot be opened ends monitoring at once: there is no
/// retry at this level. Updates are taken one by one; one that yields an
/// event has it sent before the next is received, one that yields none, or
/// cannot be read, is skipped. A failed receive ends monitoring, and so does
/// a closed channel. An outcome that does not answer the action in flight
/// leaves that action in flight.
pub open spec fn netlink_next(pending: NetlinkAction, outcome: NetlinkOutcome) -> NetlinkAction {
    match (pending, outcome) {
        (NetlinkAction::Connect, NetlinkOutcome::Connected) => NetlinkAction::Receive,
        (NetlinkAction::Connect, NetlinkOutcome::ConnectFailed) => NetlinkAction::Stop,
        (NetlinkAction::Receive, NetlinkOutcome::Update(Some(event))) => NetlinkAction::Emit(event),
        (NetlinkAction::Receive, NetlinkOutcome::Update(None)) => NetlinkAction::Receive,
        (NetlinkAction::Receive, NetlinkOutcome::Malformed) => NetlinkAction::Receive,
        (NetlinkAction::Receive, NetlinkOutcome::ReceiveFailed) => NetlinkAction::Stop,
        (NetlinkAction::Emit(_), NetlinkOutcome::Delivered) => NetlinkAction::Receive,
        (NetlinkAction::Emit(_), NetlinkOutcome::ChannelClosed) => NetlinkAction::Stop,
        (pending, _) => pending,
    }
}

/// Advances the link monitor by one outcome: given the action in flight and
/// what came of it, the action to carry out next.
///
/// A driver starts with `NetlinkAction::Connect`, carries out each action,
/// and ends when it is handed `NetlinkAction::Stop`.
pub fn monitor_netlink(pending: NetlinkAction, outcome: NetlinkOutcome) -> (next: NetlinkAction)
    ensures
        next == netlink_next(pending, outcome),
{
    match (pending, outcome) {
        (NetlinkAction::Connect, NetlinkOutcome::Connected) => NetlinkAction::Receive,
        (NetlinkAction::Connect, NetlinkOutcome::ConnectFailed) => NetlinkAction::Stop,
        (NetlinkAction::Receive, NetlinkOutcome::Update(Some(event))) => NetlinkAction::Emit(event),
        (NetlinkAction::Receive, NetlinkOutcome::Update(None)) => NetlinkAction::Receive,
        (NetlinkAction::Receive, NetlinkOutcome::Malformed) => NetlinkAction::Receive,
        (NetlinkAction::Receive, NetlinkOutcome::ReceiveFailed) => NetlinkAction::Stop,
        (NetlinkAction::Emit(_), NetlinkOutcome::Delivered) => NetlinkAction::Receive,
        (NetlinkAction::Emit(_), NetlinkOutcome::ChannelClosed) => NetlinkAction::Stop,
        (pending, _) => pending,
    }
}

/// The action in flight after the driver has reported all of `outcomes`,
/// first to last, starting from `start`.
pub open spec fn netlink_run(start: NetlinkAction, outcomes: Seq<NetlinkOutcome>) -> NetlinkAction
    decreases outcomes.len(),
{
    if outcomes.len() == 0 {
        start
    } else {
        netlink_next(netlink_run(start, outcomes.drop_last()), outcomes.last())
    }
}

/// Link updates are not trusted with restarts: whatever state an update
/// reports, the event made of it is a bus-off or a stopped event, never a
/// restart, and it carries the state it was made of.
pub proof fn lemma_link_state_never_restart(interface: CanInterfaceInfo, state: Option<CanState>)
    ensures
        event_for_state(interface, state) matches Some(e) ==> {
            &&& e.event_type != BusEventType::Restart
            &&& e.interface == interface
            &&& state matches Some(reported)
            &&& e.event_source == BusEventSource::StateUpdate(reported)
            &&& (e.event_type == BusEventType::BusOff <==> reported == CanState::BusOff)
            &&& (e.event_type == BusEventType::Stopped <==> reported == CanState::Stopped)
        },
        event_for_state(interface, state) is Some <==> state == Some(CanState::BusOff) || state
            == Some(CanState::Stopped),
{
}

/// Whatever `link_event` returns for an update, it is no restart event.
pub proof fn lemma_link_event_never_restart(watching: Set<u32>, update: LinkUpdate, event: Option<BusEvent>)
    requires
        link_event_allowed(watching, update, event),
    ensures
        event matches Some(e) ==> e.event_type != BusEventType::Restart,
{
}

/// Only CAN devices are listened to: an update of a device with any other
/// hardware type yields no event, whatever else it says. The same holds for
/// an index that is not watched.
pub proof fn lemma_other_links_are_silent(watching: Set<u32>, update: LinkUpdate, event: Option<BusEvent>)
    requires
        link_event_allowed(watching, update, event),
        update.hardware_type != ARPHRD_CAN || !watching.contains(link_index(update.index)),
    ensures
        event is None,
{
}

/// An update without link info reports no controller state and so yields no
/// event.
pub proof fn lemma_no_state_no_event(watching: Set<u32>, update: LinkUpdate, event: Option<BusEvent>)
    requires
        link_event_allowed(watching, update, event),
        update.link_info is None,
    ensures
        event is None,
{
}

/// The link monitor stops for three reasons only: the subscription could
/// not be opened, receiving failed, or the event channel is closed.
pub proof fn lemma_link_monitor_stops_on_failure(start: NetlinkAction, outcomes: Seq<NetlinkOutcome>)
    requires
        !(start is Stop),
        netlink_run(start, outcomes) is Stop,
    ensures
        outcomes.contains(NetlinkOutcome::ConnectFailed) || outcomes.contains(
            NetlinkOutcome::ReceiveFailed,
        ) || outcomes.contains(NetlinkOutcome::ChannelClosed),
    decreases outcomes.len(),
{
    if outcomes.len() > 0 {
        let earlier = outcomes.drop_last();
        if netlink_run(start, earlier) is Stop {
            lemma_link_monitor_stops_on_failure(start, earlier);
            if earlier.contains(NetlinkOutcome::ConnectFailed) {
                let k = choose|k: int| 0 <= k < earlier.len() && earlier[k] == NetlinkOutcome::ConnectFailed;
                assert(outcomes[k] == NetlinkOutcome::ConnectFailed);
            } else if earlier.contains(NetlinkOutcome::ReceiveFailed) {
                let k = choose|k: int| 0 <= k < earlier.len() && earlier[k] == NetlinkOutcome::ReceiveFailed;
                assert(outcomes[k] == NetlinkOutcome::ReceiveFailed);
            } else {
                let k = choose|k: int| 0 <= k < earlier.len() && earlier[k] == NetlinkOutcome::ChannelClosed;
                assert(outcomes[k] == NetlinkOutcome::ChannelClosed);
            }
        } else {
            let last = outcomes[outcomes.len() - 1];
            assert(last == NetlinkOutcome::ConnectFailed || last == NetlinkOutcome::ReceiveFailed
                || last == NetlinkOutcome::ChannelClosed);
        }
    }
}

} // verus!
