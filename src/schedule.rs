//! Periodic polling. The drift-corrected schedule keeps its deadlines on a
//! fixed grid, `origin + k * period`, whatever each cycle costs; a cycle that
//! overruns its deadline is followed by no sleep at all. The plain variant
//! sleeps a fixed pause: the period less the settle delays of the cycle.
use vstd::prelude::*;
use crate::command::Command;
use crate::{sgp30, si7021};

verus! {

/// How long to sleep at `now` to wake at `deadline`: never negative.
pub open spec fn sleep_until(deadline: int, now: int) -> int {
    if now >= deadline {
        0
    } else {
        deadline - now
    }
}

/// The deadline of a cycle of a drift-corrected schedule, and the grid it
/// stays on.
pub struct PollSchedule {
    origin: u64,
    period: u64,
    deadline: u64,
    cycles: Ghost<nat>,
}

impl PollSchedule {
    /// The instant the schedule was started at.
    pub closed spec fn spec_origin(&self) -> int {
        self.origin as int
    }

    /// The nominal period.
    pub closed spec fn spec_period(&self) -> int {
        self.period as int
    }

    /// The deadline of the cycle under way.
    pub closed spec fn spec_deadline(&self) -> int {
        self.deadline as int
    }

    /// How many cycles have been completed.
    pub closed spec fn spec_cycles(&self) -> nat {
        self.cycles@
    }

    /// The deadline is the end of the current cycle on the grid.
    pub closed spec fn wf(&self) -> bool {
        self.deadline as int == self.origin as int + (self.cycles@ + 1) * self.period as int
    }

    /// Starts sampling at `now`: the first deadline is one period away.
    pub fn start(now: u64, period: u64) -> (r: PollSchedule)
        requires
            now + period <= u64::MAX,
        ensures
            r.wf(),
            r.spec_origin() == now,
            r.spec_period() == period,
            r.spec_deadline() == now + period,
            r.spec_cycles() == 0,
    {
        let r = PollSchedule { origin: now, period, deadline: now + period, cycles: Ghost(0) };
        assert(r.cycles@ == 0);
        assert((r.cycles@ + 1) * (period as int) == period as int) by (nonlinear_arith)
            requires
                r.cycles@ == 0,
        ;
        r
    }

    pub fn origin(&self) -> (r: u64)
        ensures
            r == self.spec_origin(),
    {
        self.origin
    }

    pub fn period(&self) -> (r: u64)
        ensures
            r == self.spec_period(),
    {
        self.period
    }

    pub fn deadline(&self) -> (r: u64)
        ensures
            r == self.spec_deadline(),
    {
        self.deadline
    }

    /// Whether another cycle can be scheduled without the clock overflowing.
    pub fn can_advance(&self) -> (r: bool)
        ensures
            r == (self.spec_deadline() + self.spec_period() <= u64::MAX),
    {
        self.deadline <= u64::MAX - self.period
    }

    /// Ends the cycle under way at `now`: returns how long to sleep until
    /// its deadline (zero if the cycle overran it) and moves the deadline
    /// one period on from the old deadline, not from `now`.
    pub fn finish_cycle(&mut self, now: u64) -> (r: u64)
        requires
            old(self).wf(),
            old(self).spec_deadline() + old(self).spec_period() <= u64::MAX,
        ensures
            final(self).wf(),
            r as int == sleep_until(old(self).spec_deadline(), now as int),
            final(self).spec_deadline() == old(self).spec_deadline() + old(self).spec_period(),
            final(self).spec_period() == old(self).spec_period(),
            final(self).spec_origin() == old(self).spec_origin(),
            final(self).spec_cycles() == old(self).spec_cycles() + 1,
    {
        let sleep: u64 = if now >= self.deadline {
            0
        } else {
            self.deadline - now
        };
        let ghost k: nat = self.cycles@;
        let ghost p: int = self.period as int;
        assert((k + 1 + 1) * p == (k + 1) * p + p) by (nonlinear_arith);
        self.deadline = self.deadline + self.period;
        self.cycles = Ghost(k + 1);
        sleep
    }
}

/// The deadlines stay on the grid: after any number of cycles, however long
/// each took, the deadline is the origin plus a whole number of periods.
pub proof fn lemma_deadline_on_grid(s: PollSchedule)
    requires
        s.wf(),
    ensures
        s.spec_deadline() == s.spec_origin() + (s.spec_cycles() + 1) * s.spec_period(),
{
}

/// A cycle that ends on or after its deadline sleeps not at all.
pub proof fn lemma_overrun_sleeps_zero(deadline: int, now: int)
    requires
        now >= deadline,
    ensures
        sleep_until(deadline, now) == 0,
{
}

/// A cycle that ends before its deadline wakes exactly at it.
pub proof fn lemma_wakes_on_deadline(deadline: int, now: int)
    requires
        now < deadline,
    ensures
        now + sleep_until(deadline, now) == deadline,
        sleep_until(deadline, now) > 0,
{
}

/// The sum of the settle delays of a sequence of commands.
pub open spec fn total_settle(cmds: Seq<Command>) -> int
    decreases cmds.len(),
{
    if cmds.len() == 0 {
        0
    } else {
        total_settle(cmds.drop_last()) + cmds.last().settle_ms
    }
}

/// The pause of the plain schedule: the period less the settle delays of
/// the cycle's commands, or zero if those fill the period.
pub fn fixed_pause_ms(period_ms: u64, cycle: &Vec<Command>) -> (r: u64)
    ensures
        r as int == if total_settle(cycle@) >= period_ms {
            0
        } else {
            period_ms - total_settle(cycle@)
        },
{
    let mut pause: u64 = period_ms;
    let mut i: usize = 0;
    while i < cycle.len()
        invariant
            0 <= i <= cycle@.len(),
            pause as int == if total_settle(cycle@.subrange(0, i as int)) >= period_ms {
                0
            } else {
                period_ms - total_settle(cycle@.subrange(0, i as int))
            },
        decreases cycle@.len() - i,
    {
        assert(cycle@.subrange(0, i + 1).drop_last() =~= cycle@.subrange(0, i as int));
        let s: u64 = cycle[i].settle_ms;
        pause = if pause > s {
            pause - s
        } else {
            0
        };
        i = i + 1;
    }
    assert(cycle@.subrange(0, i as int) =~= cycle@);
    pause
}

/// One cycle of the gas-sensor program: air quality, then baseline.
pub fn gas_cycle() -> (r: Vec<Command>)
    ensures
        r@.len() == 2,
        r@[0].bytes@ == seq![0x20u8, 0x08u8] && r@[0].response_len == 6 && r@[0].settle_ms == 12,
        r@[1].bytes@ == seq![0x20u8, 0x15u8] && r@[1].response_len == 6 && r@[1].settle_ms == 10,
        total_settle(r@) == 22,
{
    let r = vec![sgp30::measure_air_quality(), sgp30::get_baseline()];
    let ghost s = r@;
    assert(s.drop_last().drop_last() =~= Seq::<Command>::empty());
    assert(total_settle(s.drop_last().drop_last()) == 0);
    assert(s.drop_last().last() == s[0]);
    assert(total_settle(s.drop_last()) == 12);
    r
}

/// One cycle of the combined program: air quality, baseline, then relative
/// humidity and the temperature taken with it.
pub fn combined_cycle() -> (r: Vec<Command>)
    ensures
        r@.len() == 4,
        r@[0].bytes@ == seq![0x20u8, 0x08u8] && r@[0].response_len == 6 && r@[0].settle_ms == 12,
        r@[1].bytes@ == seq![0x20u8, 0x15u8] && r@[1].response_len == 6 && r@[1].settle_ms == 10,
        r@[2].bytes@ == seq![0xF5u8] && r@[2].response_len == 3 && r@[2].settle_ms == 25,
        r@[3].bytes@ == seq![0xE0u8] && r@[3].response_len == 3 && r@[3].settle_ms == 25,
        total_settle(r@) == 72,
{
    let r = vec![
        sgp30::measure_air_quality(),
        sgp30::get_baseline(),
        si7021::measure_rh(),
        si7021::measure_temp_after_rh(),
    ];
    let ghost s = r@;
    assert(s.drop_last().drop_last().drop_last().drop_last() =~= Seq::<Command>::empty());
    assert(total_settle(s.drop_last().drop_last().drop_last().drop_last()) == 0);
    assert(s.drop_last().drop_last().drop_last().last() == s[0]);
    assert(s.drop_last().drop_last().last() == s[1]);
    assert(s.drop_last().last() == s[2]);
    assert(total_settle(s.drop_last().drop_last().drop_last()) == 12);
    assert(total_settle(s.drop_last().drop_last()) == 22);
    assert(total_settle(s.drop_last()) == 47);
    r
}

} // verus!
