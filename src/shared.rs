//! The cell that the BLE callbacks and the alarm interrupt handler share.
//!
//! Each method takes the cell by exclusive reference, which is what holding
//! the critical section grants: a method runs whole, without interleaving.
use vstd::prelude::*;
use crate::slot::{AlarmSlot, edge_spec};
use crate::wire::{PAYLOAD_LEN, be32_value, be32_bytes, decode_be32, encode_be32};

verus! {

/// What the cell holds: the comparator and the tick that it was last armed for.
pub type Cell = Option<(AlarmSlot, u64)>;

/// Tick at which an alarm armed at `now` for `secs` seconds fires; a sum past
/// the range of the tick counter saturates at its largest value.
pub open spec fn arm_target(now: u64, secs: nat, tps: u64) -> u64 {
    if now + secs * tps > u64::MAX {
        u64::MAX
    } else {
        (now + secs * tps) as u64
    }
}

/// Ticks from `now` until `target`, zero once `target` has been reached.
pub open spec fn remaining_ticks(target: u64, now: u64) -> nat {
    if target > now {
        (target - now) as nat
    } else {
        0
    }
}

/// Whole seconds left before the alarm, as the characteristic reports them:
/// `None` before the cell is installed; a count past `u32::MAX` is reported as
/// `u32::MAX`.
pub open spec fn remaining_secs_spec(cell: Cell, now: u64, tps: u64) -> Option<u32> {
    match cell {
        None => None,
        Some((_, target)) => {
            let secs = remaining_ticks(target, now) / (tps as nat);
            Some(if secs > u32::MAX { u32::MAX } else { secs as u32 })
        },
    }
}

/// The cell after the comparator is installed at boot: interrupt masked,
/// target zero.
pub open spec fn install_spec(slot: AlarmSlot) -> Cell {
    Some((AlarmSlot { target: 0, armed: true, interrupt_enabled: false, ..slot }, 0))
}

/// The cell after a peer writes `data` at tick `now`. A payload of any length
/// but four leaves the cell as it was. Otherwise the comparator is re-armed
/// for the new target with its interrupt enabled; an edge latched for an
/// earlier target is discarded, so only the last write fires.
pub open spec fn write_spec(cell: Cell, now: u64, tps: u64, data: Seq<u8>) -> Cell {
    if data.len() != 4 {
        cell
    } else {
        match cell {
            None => None,
            Some((slot, _)) => {
                let t = arm_target(now, be32_value(data), tps);
                Some((AlarmSlot { target: t, armed: true, interrupt_enabled: true, pending: false }, t))
            },
        }
    }
}

/// The cell after the alarm interrupt handler runs: interrupt masked, pending
/// bit clear, target kept. An empty cell is left alone.
pub open spec fn interrupt_spec(cell: Cell) -> Cell {
    match cell {
        None => None,
        Some((slot, target)) => Some(
            (AlarmSlot { interrupt_enabled: false, pending: false, ..slot }, target),
        ),
    }
}

/// The cell after one edge of the tick counter at `now`.
pub open spec fn counter_edge_spec(cell: Cell, now: u64) -> Cell {
    match cell {
        None => None,
        Some((slot, target)) => Some((edge_spec(slot, now), target)),
    }
}

/// Whether the alarm interrupt is being requested of the CPU.
pub open spec fn requested_spec(cell: Cell) -> bool {
    match cell {
        None => false,
        Some((slot, _)) => slot.pending && slot.interrupt_enabled,
    }
}

/// The cell's invariant: the comparator holds the stored target, and while the
/// interrupt is enabled the alarm is either still ahead or has fired and
/// awaits its handler.
pub open spec fn cell_inv(cell: Cell) -> bool {
    match cell {
        None => true,
        Some((slot, target)) => slot.target == target && (slot.interrupt_enabled ==> slot.armed
            || slot.pending),
    }
}

/// The process-wide alarm cell, with the tick rate of the counter.
pub struct SharedAlarmState {
    cell: Cell,
    ticks_per_second: u64,
}

impl SharedAlarmState {
    /// What the cell holds.
    pub closed spec fn cell(&self) -> Cell {
        self.cell
    }

    /// Ticks of the counter per second.
    pub closed spec fn tps(&self) -> u64 {
        self.ticks_per_second
    }

    /// A usable state: a nonzero tick rate and a consistent cell.
    pub open spec fn wf(&self) -> bool {
        self.tps() > 0 && cell_inv(self.cell())
    }

    /// An empty cell for a counter of `ticks_per_second` ticks per second.
    pub fn new(ticks_per_second: u64) -> (r: SharedAlarmState)
        requires
            ticks_per_second > 0,
        ensures
            r.cell() == None::<(AlarmSlot, u64)>,
            r.tps() == ticks_per_second,
            r.wf(),
    {
        SharedAlarmState { cell: None, ticks_per_second }
    }

    /// Ticks of the counter per second.
    pub fn ticks_per_second(&self) -> (r: u64)
        ensures
            r == self.tps(),
    {
        self.ticks_per_second
    }

    /// The tick the alarm was last armed for, if the cell is installed.
    pub fn target_tick(&self) -> (r: Option<u64>)
        ensures
            r == (match self.cell() {
                None => None,
                Some((_, t)) => Some(t),
            }),
    {
        match &self.cell {
            None => None,
            Some((_, t)) => Some(*t),
        }
    }

    /// The comparator's registers, if the cell is installed.
    pub fn slot(&self) -> (r: Option<AlarmSlot>)
        ensures
            r == (match self.cell() {
                None => None,
                Some((s, _)) => Some(s),
            }),
    {
        match &self.cell {
            None => None,
            Some((s, _)) => Some(*s),
        }
    }

    /// Boot-time installation of the comparator: its interrupt is masked, its
    /// target set to zero, and it is moved into the cell, which owns it from
    /// then on.
    pub fn install(&mut self, slot: AlarmSlot)
        requires
            old(self).wf(),
        ensures
            final(self).cell() == install_spec(slot),
            final(self).tps() == old(self).tps(),
            final(self).wf(),
    {
        let mut slot = slot;
        slot.enable_interrupt(false);
        slot.set_target(0);
        self.cell = Some((slot, 0));
    }

    /// Write callback of the characteristic: `data` is the payload a peer
    /// wrote and `now` the counter read on entry to the critical section.
    /// A four-byte payload arms the alarm `be32_value(data)` seconds from
    /// `now`; any other length changes nothing. The offset is not used.
    pub fn ble_receive_write(&mut self, _offset: usize, data: &[u8], now: u64)
        requires
            old(self).wf(),
        ensures
            final(self).cell() == write_spec(old(self).cell(), now, old(self).tps(), data@),
            final(self).tps() == old(self).tps(),
            final(self).wf(),
    {
        let secs = match decode_be32(data) {
            None => return ,
            Some(v) => v,
        };
        let tps = self.ticks_per_second;
        match &mut self.cell {
            None => {},
            Some((slot, target)) => {
                let t = match (secs as u64).checked_mul(tps) {
                    Some(p) => now.saturating_add(p),
                    None => u64::MAX,
                };
                proof {
                    if (secs as u64) * tps > u64::MAX {
                        assert(now + (secs as nat) * tps > u64::MAX);
                    }
                }
                *target = t;
                slot.set_target(t);
                slot.clear_pending();
                slot.enable_interrupt(true);
            },
        }
    }

    /// Whole seconds left before the alarm at tick `now`; `None` before the
    /// cell is installed.
    pub fn remaining_secs(&self, now: u64) -> (r: Option<u32>)
        requires
            self.wf(),
        ensures
            r == remaining_secs_spec(self.cell(), now, self.tps()),
    {
        match &self.cell {
            None => None,
            Some((_, target)) => {
                let secs = target.saturating_sub(now) / self.ticks_per_second;
                if secs > u32::MAX as u64 {
                    Some(u32::MAX)
                } else {
                    Some(secs as u32)
                }
            },
        }
    }

    /// Read callback of the characteristic at tick `now`. With the cell
    /// installed and `offset` zero, the remaining seconds go big-endian into
    /// `out[0..4]` and 4 is returned; otherwise nothing is written and 0 is
    /// returned.
    pub fn ble_receive_read(&self, offset: usize, out: &mut [u8], now: u64) -> (n: usize)
        requires
            self.wf(),
            old(out)@.len() >= 4,
        ensures
            final(out)@.len() == old(out)@.len(),
            offset != 0 || self.cell() is None ==> n == 0 && final(out)@ == old(out)@,
            offset == 0 && self.cell() is Some ==> n == 4 && final(out)@ == be32_bytes(
                remaining_secs_spec(self.cell(), now, self.tps())->Some_0,
            ) + old(out)@.subrange(4, old(out)@.len() as int),
    {
        if offset != 0 {
            return 0;
        }
        let secs = match self.remaining_secs(now) {
            None => return 0,
            Some(s) => s,
        };
        let bytes = encode_be32(secs);
        let mut i: usize = 0;
        while i < PAYLOAD_LEN
            invariant
                i <= 4,
                out@.len() == old(out)@.len(),
                old(out)@.len() >= 4,
                bytes@ == be32_bytes(secs),
                forall|j: int| 0 <= j < i ==> out@[j] == bytes@[j],
                forall|j: int| i <= j < out@.len() ==> out@[j] == old(out)@[j],
            decreases 4 - i,
        {
            out[i] = bytes[i];
            i = i + 1;
        }
        assert(out@ =~= be32_bytes(secs) + old(out)@.subrange(4, old(out)@.len() as int));
        PAYLOAD_LEN
    }

    /// Body of the alarm interrupt handler: masks the alarm interrupt and
    /// clears its pending bit, keeping the target so that reads show zero
    /// remaining. An empty cell is left alone.
    pub fn alarm_handler(&mut self)
        requires
            old(self).wf(),
        ensures
            final(self).cell() == interrupt_spec(old(self).cell()),
            final(self).tps() == old(self).tps(),
            final(self).wf(),
    {
        match &mut self.cell {
            None => {},
            Some((slot, _)) => {
                slot.enable_interrupt(false);
                slot.clear_pending();
            },
        }
    }

    /// One edge of the tick counter at `now`, as the comparator sees it.
    pub fn counter_edge(&mut self, now: u64)
        requires
            old(self).wf(),
        ensures
            final(self).cell() == counter_edge_spec(old(self).cell(), now),
            final(self).tps() == old(self).tps(),
            final(self).wf(),
    {
        match &mut self.cell {
            None => {},
            Some((slot, _)) => slot.edge(now),
        }
    }

    /// Whether the alarm interrupt is being requested of the CPU.
    pub fn alarm_requested(&self) -> (r: bool)
        ensures
            r == requested_spec(self.cell()),
    {
        match &self.cell {
            None => false,
            Some((slot, _)) => slot.interrupt_requested(),
        }
    }
}

/// One step that either context can take on the cell under the critical
/// section.
pub enum AlarmEvent {
    /// A peer writes `data` to the characteristic at tick `now`.
    Write { now: u64, data: Vec<u8> },
    /// A peer reads the characteristic at tick `now`.
    Read { now: u64 },
    /// The alarm interrupt handler runs.
    Interrupt,
    /// The tick counter reaches `now`.
    Edge { now: u64 },
}

/// The cell after one event.
pub open spec fn step_spec(cell: Cell, tps: u64, e: AlarmEvent) -> Cell {
    match e {
        AlarmEvent::Write { now, data } => write_spec(cell, now, tps, data@),
        AlarmEvent::Read { .. } => cell,
        AlarmEvent::Interrupt => interrupt_spec(cell),
        AlarmEvent::Edge { now } => counter_edge_spec(cell, now),
    }
}

/// The cell after a sequence of events, in order.
pub open spec fn run_spec(cell: Cell, tps: u64, events: Seq<AlarmEvent>) -> Cell
    decreases events.len(),
{
    if events.len() == 0 {
        cell
    } else {
        run_spec(step_spec(cell, tps, events[0]), tps, events.drop_first())
    }
}

/// Every way of interleaving writes, reads, interrupt handler runs and
/// counter edges keeps the cell's invariant, starting from the installed
/// cell or from any cell that holds it; after each handler run the interrupt
/// is masked, nothing is pending and the target is unchanged.
pub proof fn lemma_interleavings_keep_invariant(
    cell: Cell,
    tps: u64,
    events: Seq<AlarmEvent>,
    slot: AlarmSlot,
)
    requires
        cell_inv(cell),
    ensures
        cell_inv(install_spec(slot)),
        cell_inv(run_spec(cell, tps, events)),
        interrupt_spec(cell) matches Some((s, t)) ==> (!s.interrupt_enabled && !s.pending && t
            == cell->Some_0.1),
    decreases events.len(),
{
    if events.len() > 0 {
        lemma_interleavings_keep_invariant(step_spec(cell, tps, events[0]), tps, events.drop_first(), slot);
    }
}

/// Arming the alarm for `s` seconds and reading it back at most one second
/// later reports `s` or `s - 1`, as long as the target fits the counter.
pub proof fn lemma_write_then_read(cell: Cell, tps: u64, s: u32, t_write: u64, t_read: u64)
    requires
        cell is Some,
        tps > 0,
        t_write <= t_read <= t_write + tps,
        t_write + s * tps <= u64::MAX,
    ensures
        ({
            let r = remaining_secs_spec(write_spec(cell, t_write, tps, be32_bytes(s)), t_read, tps);
            r == Some(s) || r == Some((s - 1) as u32)
        }),
{
    crate::wire::lemma_decode_encode(s);
    let si = s as int;
    let ti = tps as int;
    let target = t_write + si * ti;
    let d = t_read - t_write;
    let rem = remaining_ticks(target as u64, t_read) as int;
    assert(rem == if si * ti > d { si * ti - d } else { 0 });
    let q = rem / ti;
    if si * ti > d {
        if d == 0 {
            vstd::arithmetic::div_mod::lemma_div_by_multiple(si, ti);
            assert(q == si);
        } else {
            assert((si - 1) * ti <= rem < si * ti) by (nonlinear_arith)
                requires
                    rem == si * ti - d,
                    0 < d <= ti,
            ;
            vstd::arithmetic::div_mod::lemma_div_is_ordered((si - 1) * ti, rem, ti);
            vstd::arithmetic::div_mod::lemma_div_by_multiple(si - 1, ti);
            vstd::arithmetic::div_mod::lemma_fundamental_div_mod(rem, ti);
            assert(q < si) by (nonlinear_arith)
                requires
                    rem == ti * q + rem % ti,
                    0 <= rem % ti,
                    rem < si * ti,
                    ti > 0,
            ;
            assert(q == si || q == si - 1);
        }
    } else {
        assert(si <= 1) by (nonlinear_arith)
            requires
                si * ti <= d,
                d <= ti,
                si >= 0,
                ti > 0,
        ;
        assert(q == 0);
    }
}

/// Between two reads with no write in between, the reported count never
/// grows: reading later gives at most what reading earlier gave, and neither
/// the interrupt handler nor a counter edge changes what a read reports.
pub proof fn lemma_countdown_monotone(cell: Cell, tps: u64, t1: u64, t2: u64, edge_at: u64)
    requires
        cell is Some,
        tps > 0,
        t1 <= t2,
    ensures
        remaining_secs_spec(cell, t2, tps)->Some_0 <= remaining_secs_spec(cell, t1, tps)->Some_0,
        remaining_secs_spec(interrupt_spec(cell), t2, tps) == remaining_secs_spec(cell, t2, tps),
        remaining_secs_spec(counter_edge_spec(cell, edge_at), t2, tps) == remaining_secs_spec(
            cell,
            t2,
            tps,
        ),
{
    let target = cell->Some_0.1;
    vstd::arithmetic::div_mod::lemma_div_is_ordered(
        remaining_ticks(target, t2) as int,
        remaining_ticks(target, t1) as int,
        tps as int,
    );
}

/// Once the counter has passed the target, every read reports zero until the
/// next write, whatever the interrupt handler and the counter do meanwhile.
pub proof fn lemma_zero_after_target(cell: Cell, tps: u64, now: u64, edge_at: u64)
    requires
        cell matches Some((_, t)) && t <= now,
        tps > 0,
    ensures
        remaining_secs_spec(cell, now, tps) == Some(0u32),
        remaining_secs_spec(interrupt_spec(cell), now, tps) == Some(0u32),
        remaining_secs_spec(counter_edge_spec(cell, edge_at), now, tps) == Some(0u32),
{
}

/// The last write wins: after two valid writes the cell is what the second
/// write alone makes of it, also when anything else (`between`, any installed
/// cell) happened before the second write; its target is `t2 + s2 * tps` when that fits the
/// counter, and the interrupt is requested exactly at counter edges at or
/// past that target.
pub proof fn lemma_last_write_wins(
    cell: Cell,
    tps: u64,
    t1: u64,
    d1: Seq<u8>,
    t2: u64,
    d2: Seq<u8>,
    edge_at: u64,
    between: Cell,
)
    requires
        cell is Some,
        between is Some,
        d1.len() == 4,
        d2.len() == 4,
    ensures
        ({
            let c = write_spec(write_spec(cell, t1, tps, d1), t2, tps, d2);
            let target = arm_target(t2, be32_value(d2), tps);
            &&& c == write_spec(cell, t2, tps, d2)
            &&& c == write_spec(between, t2, tps, d2)
            &&& c matches Some((_, t)) && t == target
            &&& t2 + be32_value(d2) * tps <= u64::MAX ==> target == t2 + be32_value(d2) * tps
            &&& !requested_spec(c)
            &&& requested_spec(counter_edge_spec(c, edge_at)) == (target <= edge_at)
        }),
{
}

} // verus!
