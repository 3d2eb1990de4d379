//! Restart coordination: at most one pending restart per interface.
//!
//! A bus-off event starts a timer unless one is already running for that
//! interface. A restart or stopped event withdraws the pending restart of its
//! interface: this coordinator cancels, it does not let pending restarts ride
//! out. When a timer runs out, its entry leaves the table first and the
//! controller is restarted after that, so that whatever the kernel reports
//! because of the restart finds no entry and counts as a new event.

use crate::events::{BusEvent, BusEventType};
use crate::interface::CanInterfaceInfo;
use std::collections::HashMap;
use std::time::Duration;
use vstd::prelude::*;

verus! {

broadcast use vstd::std_specs::hash::group_hash_axioms;

/// The ticket issued after `ticket`: the next number, starting over at zero
/// after the largest.
pub open spec fn ticket_after(ticket: u64) -> u64 {
    if ticket == u64::MAX {
        0
    } else {
        (ticket + 1) as u64
    }
}

/// The ticket issued `n` timers after `ticket`.
pub open spec fn ticket_later(ticket: u64, n: nat) -> u64
    decreases n,
{
    if n == 0 {
        ticket
    } else {
        ticket_after(ticket_later(ticket, (n - 1) as nat))
    }
}

/// The table of pending restarts as a mathematical value: for each interface
/// index with a pending restart the ticket of its timer, and the ticket the
/// next timer will get.
#[verifier::ext_equal]
pub struct PendingTable {
    /// Ticket of the running timer, by interface index.
    pub tickets: Map<u32, u64>,
    /// Ticket that the next timer will be started with.
    pub next_ticket: u64,
}

impl PendingTable {
    /// The table of a coordinator that has seen nothing yet.
    pub open spec fn empty() -> Self {
        PendingTable { tickets: Map::empty(), next_ticket: 0 }
    }

    /// Whether a restart is pending for the interface with index `idx`.
    pub open spec fn is_pending(self, idx: u32) -> bool {
        self.tickets.contains_key(idx)
    }

    /// Whether the timer with `ticket` is the one running for `idx`.
    pub open spec fn is_due(self, idx: u32, ticket: u64) -> bool {
        self.is_pending(idx) && self.tickets[idx] == ticket
    }

    /// The table after a bus-off event for `idx`: unchanged if a restart is
    /// pending, else with a new entry under the next ticket.
    pub open spec fn schedule(self, idx: u32) -> Self {
        if self.is_pending(idx) {
            self
        } else {
            PendingTable {
                tickets: self.tickets.insert(idx, self.next_ticket),
                next_ticket: ticket_after(self.next_ticket),
            }
        }
    }

    /// The table after the pending restart of `idx`, if any, is withdrawn.
    pub open spec fn cancel(self, idx: u32) -> Self {
        PendingTable { tickets: self.tickets.remove(idx), next_ticket: self.next_ticket }
    }

    /// The table after the timer with `ticket` ran out for `idx`: the entry
    /// is gone if that timer was the one running, else nothing changed.
    pub open spec fn claim(self, idx: u32, ticket: u64) -> Self {
        if self.is_due(idx, ticket) {
            self.cancel(idx)
        } else {
            self
        }
    }
}

/// One thing that happens to the table of pending restarts.
pub enum TableOp {
    /// A bus-off event for the interface with this index.
    BusOff(u32),
    /// A restart or stopped event for the interface with this index.
    Recovered(u32),
    /// The timer with this ticket ran out for the interface with this index.
    TimerElapsed(u32, u64),
}

impl PendingTable {
    /// The table after `op`.
    pub open spec fn apply(self, op: TableOp) -> Self {
        match op {
            TableOp::BusOff(idx) => self.schedule(idx),
            TableOp::Recovered(idx) => self.cancel(idx),
            TableOp::TimerElapsed(idx, ticket) => self.claim(idx, ticket),
        }
    }

    /// The table after all of `ops`, first to last.
    pub open spec fn run(self, ops: Seq<TableOp>) -> Self
        decreases ops.len(),
    {
        if ops.len() == 0 {
            self
        } else {
            self.run(ops.drop_last()).apply(ops.last())
        }
    }

    /// Whether `op` starts a timer for `idx`: a bus-off event that finds no
    /// restart pending.
    pub open spec fn starts(self, op: TableOp, idx: u32) -> bool {
        op == TableOp::BusOff(idx) && !self.is_pending(idx)
    }

    /// Whether `op` withdraws a pending restart of `idx`.
    pub open spec fn withdraws(self, op: TableOp, idx: u32) -> bool {
        op == TableOp::Recovered(idx) && self.is_pending(idx)
    }

    /// Whether `op` has the controller of `idx` restarted: the running timer
    /// of `idx` ran out.
    pub open spec fn fires(self, op: TableOp, idx: u32) -> bool {
        op matches TableOp::TimerElapsed(i, ticket) && i == idx && self.is_due(idx, ticket)
    }

    /// How many timers `ops` start for `idx`.
    pub open spec fn started(self, ops: Seq<TableOp>, idx: u32) -> nat
        decreases ops.len(),
    {
        if ops.len() == 0 {
            0
        } else {
            self.started(ops.drop_last(), idx) + if self.run(ops.drop_last()).starts(ops.last(), idx) {
                1nat
            } else {
                0nat
            }
        }
    }

    /// How many pending restarts of `idx` are withdrawn in the course of
    /// `ops`.
    pub open spec fn withdrawn(self, ops: Seq<TableOp>, idx: u32) -> nat
        decreases ops.len(),
    {
        if ops.len() == 0 {
            0
        } else {
            self.withdrawn(ops.drop_last(), idx) + if self.run(ops.drop_last()).withdraws(
                ops.last(),
                idx,
            ) {
                1nat
            } else {
                0nat
            }
        }
    }

    /// How many times the controller of `idx` is restarted in the course of
    /// `ops`.
    pub open spec fn restarted(self, ops: Seq<TableOp>, idx: u32) -> nat
        decreases ops.len(),
    {
        if ops.len() == 0 {
            0
        } else {
            self.restarted(ops.drop_last(), idx) + if self.run(ops.drop_last()).fires(ops.last(), idx) {
                1nat
            } else {
                0nat
            }
        }
    }

    /// How many timers `ops` start, for whichever interface.
    pub open spec fn timers_started(self, ops: Seq<TableOp>) -> nat
        decreases ops.len(),
    {
        if ops.len() == 0 {
            0
        } else {
            self.timers_started(ops.drop_last()) + if ops.last() matches TableOp::BusOff(idx)
                && self.run(ops.drop_last()).starts(ops.last(), idx) {
                1nat
            } else {
                0nat
            }
        }
    }

    /// One if a restart is pending for `idx`, else zero.
    pub open spec fn pending_for(self, idx: u32) -> nat {
        if self.is_pending(idx) {
            1
        } else {
            0
        }
    }
}

/// Whether none of `ops` can end a pending restart of `idx`: no restart or
/// stopped event for it, and none of its timers running out.
pub open spec fn leaves_pending(ops: Seq<TableOp>, idx: u32) -> bool {
    forall|k: int|
        0 <= k < ops.len() ==> ops[k] != TableOp::Recovered(idx) && !(#[trigger] ops[k] matches TableOp::TimerElapsed(
            i,
            _,
        ) && i == idx)
}

/// Timers never pile up: over any sequence of events and timers running out,
/// the timers started for an interface, less those withdrawn and those that
/// led to a restart, are the one that is pending at the end, or none. For a
/// coordinator that starts empty this number is the number of table entries
/// of the interface, and it is never more than one.
pub proof fn lemma_at_most_one_pending(table: PendingTable, ops: Seq<TableOp>, idx: u32)
    ensures
        table.pending_for(idx) + table.started(ops, idx) == table.run(ops).pending_for(idx)
            + table.withdrawn(ops, idx) + table.restarted(ops, idx),
        table == PendingTable::empty() ==> table.started(ops, idx) - table.withdrawn(ops, idx)
            - table.restarted(ops, idx) == table.run(ops).pending_for(idx) <= 1,
    decreases ops.len(),
{
    if ops.len() > 0 {
        lemma_at_most_one_pending(table, ops.drop_last(), idx);
    }
}

/// A second bus-off event for an interface whose restart is pending changes
/// nothing and starts nothing: only the first is honoured.
pub proof fn lemma_duplicate_bus_off_ignored(table: PendingTable, idx: u32)
    ensures
        table.schedule(idx).is_pending(idx),
        table.schedule(idx).schedule(idx) == table.schedule(idx),
        !table.schedule(idx).starts(TableOp::BusOff(idx), idx),
{
}

/// While nothing ends the pending restart of an interface, bus-off events
/// for it start no further timer, whatever happens to other interfaces in
/// between. An entry that is there stays, with its ticket, and no timer is
/// started; where there is none, the first bus-off event for the interface
/// starts the only one.
pub proof fn lemma_one_timer_per_window(table: PendingTable, ops: Seq<TableOp>, idx: u32)
    requires
        leaves_pending(ops, idx),
    ensures
        table.restarted(ops, idx) == 0,
        table.withdrawn(ops, idx) == 0,
        table.is_pending(idx) ==> table.started(ops, idx) == 0 && table.run(ops).is_due(
            idx,
            table.tickets[idx],
        ),
        !table.is_pending(idx) ==> table.started(ops, idx) == table.run(ops).pending_for(idx),
        ops.contains(TableOp::BusOff(idx)) ==> table.run(ops).is_pending(idx),
    decreases ops.len(),
{
    if ops.len() > 0 {
        let before = ops.drop_last();
        assert forall|k: int| 0 <= k < before.len() implies before[k] != TableOp::Recovered(idx)
            && !(#[trigger] before[k] matches TableOp::TimerElapsed(i, _) && i == idx) by {
            assert(before[k] == ops[k]);
        }
        lemma_one_timer_per_window(table, before, idx);
        let last = ops.last();
        assert(last == ops[ops.len() - 1]);
        if ops.contains(TableOp::BusOff(idx)) {
            let k = choose|k: int| 0 <= k < ops.len() && ops[k] == TableOp::BusOff(idx);
            if k < ops.len() - 1 {
                assert(before[k] == TableOp::BusOff(idx));
                assert(before.contains(TableOp::BusOff(idx)));
            }
        }
    }
}

/// The entry is gone before the controller is restarted. When a timer is
/// told to go ahead, the table no longer holds an entry for its interface;
/// so a bus-off event that arrives while the restart is under way is taken
/// as a new one and starts a new timer, a restart or stopped event that
/// arrives then withdraws nothing, and the timer cannot fire a second time.
pub proof fn lemma_entry_removed_before_restart(table: PendingTable, idx: u32, ticket: u64)
    requires
        table.is_due(idx, ticket),
    ensures
        !table.claim(idx, ticket).is_pending(idx),
        table.claim(idx, ticket).starts(TableOp::BusOff(idx), idx),
        table.claim(idx, ticket).schedule(idx).is_pending(idx),
        !table.claim(idx, ticket).withdraws(TableOp::Recovered(idx), idx),
        table.claim(idx, ticket).cancel(idx) == table.claim(idx, ticket),
        !table.claim(idx, ticket).is_due(idx, ticket),
{
}

/// A withdrawn restart never happens: once a restart or stopped event has
/// withdrawn the pending restart of an interface, its timer running out has
/// no effect, whichever ticket it shows.
pub proof fn lemma_withdrawn_timer_does_nothing(table: PendingTable, idx: u32, ticket: u64)
    ensures
        !table.cancel(idx).is_due(idx, ticket),
        table.cancel(idx).claim(idx, ticket) == table.cancel(idx),
{
}

/// Tickets are issued in sequence: after any sequence of events and timers
/// running out, the next ticket is as many steps after the first one as
/// timers were started.
pub proof fn lemma_tickets_in_sequence(table: PendingTable, ops: Seq<TableOp>)
    ensures
        table.run(ops).next_ticket == ticket_later(table.next_ticket, table.timers_started(ops)),
    decreases ops.len(),
{
    if ops.len() > 0 {
        lemma_tickets_in_sequence(table, ops.drop_last());
    }
}

/// A ticket comes up again only after 2^64 timers: the ticket issued `n`
/// timers after another differs from it for every `n` from one up to
/// 2^64 - 1. Within that span a timer that was withdrawn or has fired can
/// never be taken for a later one.
pub proof fn lemma_tickets_differ(ticket: u64, n: nat)
    requires
        0 < n < 0x1_0000_0000_0000_0000,
    ensures
        ticket_later(ticket, n) != ticket,
{
    let m: int = 0x1_0000_0000_0000_0000int;
    lemma_ticket_later_wraps(ticket, n);
    if ticket + n < m {
        vstd::arithmetic::div_mod::lemma_small_mod((ticket + n) as nat, m as nat);
    } else {
        vstd::arithmetic::div_mod::lemma_small_mod((ticket + n - m) as nat, m as nat);
        vstd::arithmetic::div_mod::lemma_mod_add_multiples_vanish(ticket + n - m, m);
    }
}

/// Counting tickets on is addition modulo 2^64.
proof fn lemma_ticket_later_wraps(ticket: u64, n: nat)
    ensures
        ticket_later(ticket, n) == (ticket + n) % 0x1_0000_0000_0000_0000int,
    decreases n,
{
    let m: int = 0x1_0000_0000_0000_0000int;
    if n > 0 {
        lemma_ticket_later_wraps(ticket, (n - 1) as nat);
        let before: int = ticket + n - 1;
        let held: int = before % m;
        assert(0 <= held < m && (held + 1) % m == (before + 1) % m) by (nonlinear_arith)
            requires
                held == before % m,
                m == 0x1_0000_0000_0000_0000int,
        ;
        if held == m - 1 {
            assert(m % m == 0) by (nonlinear_arith)
                requires
                    m == 0x1_0000_0000_0000_0000int,
            ;
        } else {
            vstd::arithmetic::div_mod::lemma_small_mod((held + 1) as nat, m as nat);
        }
    } else {
        vstd::arithmetic::div_mod::lemma_small_mod(ticket as nat, m as nat);
    }
}

/// What happens to one interface leaves the others alone.
pub proof fn lemma_interfaces_independent(table: PendingTable, op: TableOp, other: u32)
    requires
        op != TableOp::BusOff(other),
        op != TableOp::Recovered(other),
        !(op matches TableOp::TimerElapsed(i, _) && i == other),
    ensures
        table.apply(op).is_pending(other) == table.is_pending(other),
        table.is_pending(other) ==> table.apply(op).tickets[other] == table.tickets[other],
{
}

/// A delayed restart that was scheduled: what the timer is for, how long it
/// runs, and the ticket it has to show when it has run out.
#[derive(Debug)]
pub struct RestartTimer {
    /// The interface to restart.
    pub interface: CanInterfaceInfo,
    /// How long to wait before restarting.
    pub delay: Duration,
    /// Identity of this timer in the table of pending restarts.
    pub ticket: u64,
}

/// What the coordinator wants done about an event.
#[derive(Debug)]
pub enum RestartAction {
    /// Start this timer, and call `begin_restart` when it has run out.
    StartTimer(RestartTimer),
    /// The bus-off event is a duplicate: a restart is pending already.
    Duplicate,
    /// The pending restart is withdrawn; its timer had this ticket.
    Withdrawn(u64),
    /// There was nothing to withdraw.
    Nothing,
}

/// What an event does to the table: a bus-off event schedules, a restart or
/// stopped event withdraws.
pub open spec fn event_op(event: BusEvent) -> TableOp {
    match event.event_type {
        BusEventType::BusOff => TableOp::BusOff(event.interface.idx),
        BusEventType::Restart => TableOp::Recovered(event.interface.idx),
        BusEventType::Stopped => TableOp::Recovered(event.interface.idx),
    }
}

/// What the coordinator wants done about `event` when `table` is its table
/// and `delay` the configured delay.
pub open spec fn action_for(table: PendingTable, event: BusEvent, delay: Duration) -> RestartAction {
    match event.event_type {
        BusEventType::BusOff => if table.is_pending(event.interface.idx) {
            RestartAction::Duplicate
        } else {
            RestartAction::StartTimer(
                RestartTimer { interface: event.interface, delay, ticket: table.next_ticket },
            )
        },
        _ => if table.is_pending(event.interface.idx) {
            RestartAction::Withdrawn(table.tickets[event.interface.idx])
        } else {
            RestartAction::Nothing
        },
    }
}

/// Keeps the table of pending restarts.
#[derive(Debug)]
pub struct RestartManager {
    pending: HashMap<u32, u64>,
    next_ticket: u64,
}

impl View for RestartManager {
    type V = PendingTable;

    closed spec fn view(&self) -> PendingTable {
        PendingTable { tickets: self.pending@, next_ticket: self.next_ticket }
    }
}

impl RestartManager {
    /// A coordinator with no restart pending.
    pub fn new() -> (manager: Self)
        ensures
            manager@ == PendingTable::empty(),
    {
        RestartManager { pending: HashMap::new(), next_ticket: 0 }
    }

    /// Whether a restart is pending for the interface with index `idx`.
    ///
    /// This only looks. `schedule_restart` checks again on its own, so its
    /// answer does not depend on an earlier look still being true.
    pub fn is_pending(&self, idx: u32) -> (pending: bool)
        ensures
            pending == self@.is_pending(idx),
    {
        self.pending.contains_key(&idx)
    }

    /// Handles a bus-off event for `interface`.
    ///
    /// While a restart is pending for the interface the event is a
    /// duplicate: nothing is returned and the table stays as it is.
    /// Otherwise the interface gets an entry under a new ticket, and the
    /// timer to start is returned.
    pub fn schedule_restart(&mut self, interface: CanInterfaceInfo, delay: Duration) -> (timer: Option<
        RestartTimer,
    >)
        ensures
            final(self)@ == old(self)@.schedule(interface.idx),
            timer == if old(self)@.is_pending(interface.idx) {
                None
            } else {
                Some(RestartTimer { interface, delay, ticket: old(self)@.next_ticket })
            },
    {
        if self.pending.contains_key(&interface.idx) {
            return None;
        }
        let ticket = self.next_ticket;
        self.next_ticket = if ticket == u64::MAX {
            0
        } else {
            ticket + 1
        };
        self.pending.insert(interface.idx, ticket);
        Some(RestartTimer { interface, delay, ticket })
    }

    /// Withdraws the pending restart of `interface`, if there is one, and
    /// returns the ticket of the timer that no longer counts.
    pub fn cancel_restart(&mut self, interface: &CanInterfaceInfo) -> (cancelled: Option<u64>)
        ensures
            final(self)@ == old(self)@.cancel(interface.idx),
            cancelled == if old(self)@.is_pending(interface.idx) {
                Some(old(self)@.tickets[interface.idx])
            } else {
                None
            },
    {
        self.pending.remove(&interface.idx)
    }

    /// Called when the timer with `ticket` has run out for the interface with
    /// index `idx`, before the controller is restarted.
    ///
    /// If that timer is the one the table holds for the interface, its entry
    /// is removed and the answer is yes: restart now. A timer that was
    /// cancelled, or replaced, gets a no and changes nothing.
    pub fn begin_restart(&mut self, idx: u32, ticket: u64) -> (due: bool)
        ensures
            due == old(self)@.is_due(idx, ticket),
            final(self)@ == old(self)@.claim(idx, ticket),
    {
        let due = match self.pending.get(&idx) {
            Some(held) => *held == ticket,
            None => false,
        };
        if due {
            self.pending.remove(&idx);
        }
        due
    }

    /// Handles one event off the event channel: a bus-off event schedules a
    /// restart after `delay`, a restart or stopped event withdraws the
    /// pending one.
    pub fn handle_event(&mut self, event: BusEvent, delay: Duration) -> (action: RestartAction)
        ensures
            final(self)@ == old(self)@.apply(event_op(event)),
            action == action_for(old(self)@, event, delay),
    {
        match event.event_type {
            BusEventType::BusOff => match self.schedule_restart(event.interface, delay) {
                Some(timer) => RestartAction::StartTimer(timer),
                None => RestartAction::Duplicate,
            },
            _ => match self.cancel_restart(&event.interface) {
                Some(ticket) => RestartAction::Withdrawn(ticket),
                None => RestartAction::Nothing,
            },
        }
    }

    /// How many restarts are pending.
    pub fn pending_count(&self) -> (count: usize)
        ensures
            count == self@.tickets.len(),
            self@.tickets.dom().finite(),
    {
        self.pending.len()
    }
}

impl Default for RestartManager {
    /// A coordinator with no restart pending.
    fn default() -> (manager: Self)
        ensures
            manager@ == PendingTable::empty(),
    {
        Self::new()
    }
}

} // verus!
