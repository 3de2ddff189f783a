// CIA 6526: the two interval timers and the interrupt control register
use vstd::prelude::*;

verus! {

/// Action a CIA register access asks of the CPU.
#[allow(non_camel_case_types)]
#[derive(PartialEq, Eq, Structural, Clone, Copy, Debug)]
pub enum CIACallbackAction {
    CIA_NONE,
}

/// States of a CIA timer.
#[allow(non_camel_case_types)]
#[derive(PartialEq, Eq, Structural, Clone, Copy, Debug)]
pub enum TimerState {
    STOP,
    WAIT_COUNT,
    LOAD_STOP,
    LOAD_COUNT,
    LOAD_WAIT_COUNT,
    COUNT,
    COUNT_STOP,
}

/// Timer A or B of a CIA.
#[derive(PartialEq, Eq, Structural, Clone, Copy, Debug)]
pub struct CIATimer {
    pub state: TimerState,
    pub is_ta: bool,
    pub value: u16,
    pub latch: u16,
    pub ctrl: u8,
    pub new_ctrl: u8,
    pub has_new_ctrl: bool,
    pub is_cnt_phi2: bool,
    pub irq_next_cycle: bool,
    pub underflow: bool,
    pub cnt_ta_underflow: bool,
}

/// A stopped timer with value $FFFF and latch 1.
pub open spec fn timer_initial(is_ta: bool) -> CIATimer {
    CIATimer {
        state: TimerState::STOP,
        is_ta,
        value: 0xFFFF,
        latch: 1,
        ctrl: 0,
        new_ctrl: 0,
        has_new_ctrl: false,
        is_cnt_phi2: false,
        irq_next_cycle: false,
        underflow: false,
        cnt_ta_underflow: false,
    }
}

/// The interrupt flag bit a timer sets: bit 0 for timer A, bit 1 for timer B.
pub open spec fn timer_icr_bit(is_ta: bool) -> u8 {
    if is_ta { 1u8 } else { 2u8 }
}

/// Timer underflow: reload from the latch, flag the interrupt and stop in one-shot mode.
pub open spec fn timer_after_irq(t: CIATimer, icr: u8) -> (CIATimer, u8) {
    let icr2 = icr | timer_icr_bit(t.is_ta);
    if (t.ctrl & 8) != 0 {
        (CIATimer {
            value: t.latch,
            irq_next_cycle: true,
            ctrl: t.ctrl & 0xFE,
            new_ctrl: t.new_ctrl & 0xFE,
            state: TimerState::LOAD_STOP,
            ..t
        }, icr2)
    } else {
        (CIATimer { value: t.latch, irq_next_cycle: true, state: TimerState::LOAD_COUNT, ..t }, icr2)
    }
}

/// The value after counting down one step (the counter wraps at zero).
pub open spec fn timer_dec(v: u16) -> u16 {
    if v == 0 { 0xFFFFu16 } else { (v - 1) as u16 }
}

/// One counting step when the timer counts phi2 or, when chained, timer A underflows.
pub open spec fn timer_after_count(t: CIATimer, icr: u8, ta_underflow: bool) -> (CIATimer, u8) {
    if t.is_cnt_phi2 || (t.cnt_ta_underflow && ta_underflow) {
        let t1 = CIATimer { value: timer_dec(t.value), ..t };
        if t.value == 0 || t1.value == 0 {
            if t1.state == TimerState::STOP {
                (CIATimer { underflow: true, ..t1 }, icr)
            } else {
                let (t2, icr2) = timer_after_irq(t1, icr);
                (CIATimer { underflow: true, ..t2 }, icr2)
            }
        } else {
            (t1, icr)
        }
    } else {
        (t, icr)
    }
}

/// The state a pending control register write moves the timer to.
pub open spec fn timer_idle_state(s: TimerState, nc: u8) -> TimerState {
    match s {
        TimerState::STOP | TimerState::LOAD_STOP => {
            if (nc & 1) != 0 {
                if (nc & 0x10) != 0 { TimerState::LOAD_WAIT_COUNT } else { TimerState::WAIT_COUNT }
            } else {
                if (nc & 0x10) != 0 { TimerState::LOAD_STOP } else { s }
            }
        },
        TimerState::WAIT_COUNT | TimerState::LOAD_COUNT => {
            if (nc & 1) != 0 {
                if (nc & 8) != 0 {
                    TimerState::STOP
                } else if (nc & 0x10) != 0 {
                    TimerState::LOAD_WAIT_COUNT
                } else {
                    s
                }
            } else {
                TimerState::STOP
            }
        },
        TimerState::COUNT => {
            if (nc & 1) != 0 {
                if (nc & 0x10) != 0 { TimerState::LOAD_WAIT_COUNT } else { s }
            } else {
                if (nc & 0x10) != 0 { TimerState::LOAD_STOP } else { TimerState::COUNT_STOP }
            }
        },
        _ => s,
    }
}

/// Applies a pending control register write; the force-load bit is not stored, and a
/// one-shot start while waiting clears the start bit.
pub open spec fn timer_after_idle(t: CIATimer) -> CIATimer {
    if t.has_new_ctrl {
        let waiting = t.state == TimerState::WAIT_COUNT || t.state == TimerState::LOAD_COUNT;
        let nc = if waiting && (t.new_ctrl & 1) != 0 && (t.new_ctrl & 8) != 0 {
            t.new_ctrl & 0xFE
        } else {
            t.new_ctrl
        };
        CIATimer {
            state: timer_idle_state(t.state, t.new_ctrl),
            new_ctrl: nc,
            ctrl: nc & 0xEF,
            has_new_ctrl: false,
            ..t
        }
    } else {
        t
    }
}

/// One clock step of the timer state machine followed by the control register update.
pub open spec fn timer_after_update(t: CIATimer, icr: u8, ta_underflow: bool) -> (CIATimer, u8) {
    let (t1, icr1) = match t.state {
        TimerState::STOP => (t, icr),
        TimerState::WAIT_COUNT => (CIATimer { state: TimerState::COUNT, ..t }, icr),
        TimerState::LOAD_STOP => (CIATimer { state: TimerState::STOP, value: t.latch, ..t }, icr),
        TimerState::LOAD_COUNT => (CIATimer { state: TimerState::COUNT, value: t.latch, ..t }, icr),
        TimerState::LOAD_WAIT_COUNT => {
            let w = CIATimer { state: TimerState::WAIT_COUNT, ..t };
            if t.value == 1 {
                timer_after_irq(w, icr)
            } else {
                (CIATimer { value: t.latch, ..w }, icr)
            }
        },
        TimerState::COUNT => timer_after_count(t, icr, ta_underflow),
        TimerState::COUNT_STOP => timer_after_count(
            CIATimer { state: TimerState::STOP, ..t },
            icr,
            ta_underflow,
        ),
    };
    (timer_after_idle(t1), icr1)
}

impl CIATimer {
    pub fn new(is_ta: bool) -> (t: CIATimer)
        ensures
            t == timer_initial(is_ta),
    {
        CIATimer {
            state: TimerState::STOP,
            is_ta: is_ta,
            value: 0xFFFF,
            latch: 1,
            ctrl: 0,
            new_ctrl: 0,
            has_new_ctrl: false,
            is_cnt_phi2: false,
            irq_next_cycle: false,
            underflow: false,
            cnt_ta_underflow: false,
        }
    }

    /// Returns the timer to its power-up state (it stays timer A or B).
    pub fn reset(&mut self)
        ensures
            *final(self) == timer_initial(old(self).is_ta),
    {
        self.state = TimerState::STOP;
        self.value = 0xFFFF;
        self.latch = 1;
        self.ctrl = 0;
        self.new_ctrl = 0;
        self.has_new_ctrl = false;
        self.is_cnt_phi2 = false;
        self.irq_next_cycle = false;
        self.underflow = false;
        self.cnt_ta_underflow = false;
    }

    /// Advances the timer by one cycle; `cia_icr` collects the interrupt flags.
    pub fn update(&mut self, cia_icr: &mut u8, ta_underflow: bool)
        ensures
            (*final(self), *final(cia_icr)) == timer_after_update(*old(self), *old(cia_icr), ta_underflow),
    {
        match self.state {
            TimerState::STOP => {},
            TimerState::WAIT_COUNT => {
                self.state = TimerState::COUNT;
            },
            TimerState::LOAD_STOP => {
                self.state = TimerState::STOP;
                self.value = self.latch;
            },
            TimerState::LOAD_COUNT => {
                self.state = TimerState::COUNT;
                self.value = self.latch;
            },
            TimerState::LOAD_WAIT_COUNT => {
                self.state = TimerState::WAIT_COUNT;
                if self.value == 1 {
                    self.irq(cia_icr);
                } else {
                    self.value = self.latch;
                }
            },
            TimerState::COUNT => {
                self.count(cia_icr, ta_underflow);
            },
            TimerState::COUNT_STOP => {
                self.state = TimerState::STOP;
                self.count(cia_icr, ta_underflow);
            },
        }
        self.idle();
    }

    /// Applies a pending control register write to the timer state.
    pub fn idle(&mut self)
        ensures
            *final(self) == timer_after_idle(*old(self)),
    {
        if self.has_new_ctrl {
            match self.state {
                TimerState::STOP | TimerState::LOAD_STOP => {
                    if (self.new_ctrl & 1) != 0 {
                        if (self.new_ctrl & 0x10) != 0 {
                            self.state = TimerState::LOAD_WAIT_COUNT;
                        } else {
                            self.state = TimerState::WAIT_COUNT;
                        }
                    } else {
                        if (self.new_ctrl & 0x10) != 0 {
                            self.state = TimerState::LOAD_STOP;
                        }
                    }
                },
                TimerState::WAIT_COUNT | TimerState::LOAD_COUNT => {
                    if (self.new_ctrl & 1) != 0 {
                        if (self.new_ctrl & 8) != 0 {
                            self.new_ctrl &= 0xFE;
                            self.state = TimerState::STOP;
                        } else {
                            if (self.new_ctrl & 0x10) != 0 {
                                self.state = TimerState::LOAD_WAIT_COUNT;
                            }
                        }
                    } else {
                        self.state = TimerState::STOP;
                    }
                },
                TimerState::COUNT => {
                    if (self.new_ctrl & 1) != 0 {
                        if (self.new_ctrl & 0x10) != 0 {
                            self.state = TimerState::LOAD_WAIT_COUNT;
                        }
                    } else {
                        if (self.new_ctrl & 0x10) != 0 {
                            self.state = TimerState::LOAD_STOP;
                        } else {
                            self.state = TimerState::COUNT_STOP;
                        }
                    }
                },
                _ => {},
            }
            self.ctrl = self.new_ctrl & 0xEF;
            self.has_new_ctrl = false;
        }
    }

    /// Underflow handling: reload, flag the interrupt, stop in one-shot mode.
    pub fn irq(&mut self, cia_icr: &mut u8)
        ensures
            (*final(self), *final(cia_icr)) == timer_after_irq(*old(self), *old(cia_icr)),
    {
        self.value = self.latch;
        self.irq_next_cycle = true;
        *cia_icr |= if self.is_ta { 1 } else { 2 };
        if (self.ctrl & 8) != 0 {
            self.ctrl &= 0xFE;
            self.new_ctrl &= 0xFE;
            self.state = TimerState::LOAD_STOP;
        } else {
            self.state = TimerState::LOAD_COUNT;
        }
    }

    /// Counts down one step if the timer's clock source ticked.
    pub fn count(&mut self, cia_icr: &mut u8, ta_underflow: bool)
        ensures
            (*final(self), *final(cia_icr)) == timer_after_count(*old(self), *old(cia_icr), ta_underflow),
    {
        if self.is_cnt_phi2 || (self.cnt_ta_underflow && ta_underflow) {
            let curr_val = self.value;
            self.value = self.value.wrapping_sub(1);
            if (curr_val == 0) || (self.value == 0) {
                match self.state {
                    TimerState::STOP => {},
                    _ => self.irq(cia_icr),
                }
                self.underflow = true;
            }
        }
    }
}

/// A CIA with its two timers and interrupt control register.
pub struct CIA {
    pub timer_a: CIATimer,
    pub timer_b: CIATimer,
    pub icr: u8,
    /// Keyboard matrix by row: a cleared bit is a pressed key.
    pub key_matrix: [u8; 8],
    /// The same matrix by column.
    pub rev_matrix: [u8; 8],
}

/// One cycle of a CIA's timers: timer A counts (its underflow flag telling whether it
/// underflowed in this cycle), then timer B, which may count those underflows; the
/// keyboard matrices stay.
pub open spec fn cia_cycle(o: CIA, n: CIA) -> bool {
    let (ta, icr1) = timer_after_update(CIATimer { underflow: false, ..o.timer_a }, o.icr, false);
    let (tb, icr2) = timer_after_update(o.timer_b, icr1, ta.underflow);
    &&& n.timer_a == ta
    &&& n.timer_b == tb
    &&& n.icr == icr2
    &&& n.key_matrix == o.key_matrix
    &&& n.rev_matrix == o.rev_matrix
}

impl CIA {
    /// A CIA with both timers in their power-up state and no key pressed.
    pub fn new_shared() -> (c: CIA)
        ensures
            c.timer_a == timer_initial(true),
            c.timer_b == timer_initial(false),
            c.icr == 0,
            forall|i: int| 0 <= i < 8 ==> c.key_matrix[i] == 0xFF && c.rev_matrix[i] == 0xFF,
    {
        CIA {
            timer_a: CIATimer::new(true),
            timer_b: CIATimer::new(false),
            icr: 0,
            key_matrix: [0xFFu8; 8],
            rev_matrix: [0xFFu8; 8],
        }
    }

    pub fn reset(&mut self)
        ensures
            final(self).timer_a == timer_initial(old(self).timer_a.is_ta),
            final(self).timer_b == timer_initial(old(self).timer_b.is_ta),
            final(self).icr == 0,
            final(self).key_matrix == old(self).key_matrix,
            final(self).rev_matrix == old(self).rev_matrix,
    {
        self.timer_a.reset();
        self.timer_b.reset();
        self.icr = 0;
    }

    /// Register reads are not emulated yet: every register reads as 0.
    pub fn read_register(&self, addr: u16) -> (v: u8)
        ensures
            v == 0,
    {
        0
    }

    /// Register writes are not emulated yet: the write is accepted and nothing changes.
    pub fn write_register(&mut self, addr: u16, value: u8, on_cia_write: &mut CIACallbackAction) -> (ok: bool)
        ensures
            ok,
            *final(self) == *old(self),
            *final(on_cia_write) == *old(on_cia_write),
    {
        true
    }

    /// Advances timer A, then timer B. Timer A's underflow flag is cleared first, so that
    /// afterwards it tells whether timer A underflowed in this cycle; a timer B set to count
    /// timer A's underflows counts only in such a cycle.
    pub fn update(&mut self)
        ensures
            cia_cycle(*old(self), *final(self)),
    {
        self.timer_a.underflow = false;
        self.timer_a.update(&mut self.icr, false);
        let ta_underflow = self.timer_a.underflow;
        self.timer_b.update(&mut self.icr, ta_underflow);
    }
}

/// Law: a one-shot timer (control bit 3) counting clock cycles, with no control write
/// pending, that reaches zero flags its interrupt and drops its start bit; the next update
/// leaves it stopped with the latch value reloaded, and further updates leave it alone
/// until the control register is written again.
pub proof fn lemma_one_shot_stops(t: CIATimer, icr: u8, u1: bool, u2: bool, u3: bool)
    requires
        t.state == TimerState::COUNT,
        t.is_cnt_phi2,
        !t.has_new_ctrl,
        (t.ctrl & 8) != 0,
        t.value == 1,
    ensures
        ({
            let (t1, icr1) = timer_after_update(t, icr, u1);
            let (t2, icr2) = timer_after_update(t1, icr1, u2);
            &&& t1.underflow
            &&& icr1 == icr | timer_icr_bit(t.is_ta)
            &&& (t1.ctrl & 1) == 0
            &&& t2.state == TimerState::STOP
            &&& t2.value == t.latch
            &&& timer_after_update(t2, icr2, u3) == (t2, icr2)
        }),
{
    let c = t.ctrl;
    assert((c & 0xFE) & 1 == 0) by (bit_vector);
}

/// Law: a continuous timer (control bit 3 clear) counting clock cycles, with no control
/// write pending, that reaches zero flags its interrupt, keeps its start bit, and on the
/// next update is counting again from the latch value.
pub proof fn lemma_continuous_reloads(t: CIATimer, icr: u8, u1: bool, u2: bool)
    requires
        t.state == TimerState::COUNT,
        t.is_cnt_phi2,
        !t.has_new_ctrl,
        (t.ctrl & 8) == 0,
        t.value == 1,
    ensures
        ({
            let (t1, icr1) = timer_after_update(t, icr, u1);
            let (t2, icr2) = timer_after_update(t1, icr1, u2);
            &&& t1.underflow
            &&& icr1 == icr | timer_icr_bit(t.is_ta)
            &&& t1.ctrl == t.ctrl
            &&& t2.state == TimerState::COUNT
            &&& t2.value == t.latch
        }),
{
}

/// Law: a stopped timer without a pending control write stays exactly as it is.
pub proof fn lemma_stopped_timer_is_still(t: CIATimer, icr: u8, ta_underflow: bool)
    requires
        t.state == TimerState::STOP,
        !t.has_new_ctrl,
    ensures
        timer_after_update(t, icr, ta_underflow) == (t, icr),
{
}

/// Law: the interrupt register only ever gains bits from a timer update.
pub proof fn lemma_update_keeps_icr_bits(t: CIATimer, icr: u8, ta_underflow: bool)
    ensures
        timer_after_update(t, icr, ta_underflow).1 & icr == icr,
{
    let r = timer_after_update(t, icr, ta_underflow).1;
    assert(forall|b: u8| #![auto] (icr | b) & icr == icr) by (bit_vector);
    assert(icr & icr == icr) by (bit_vector);
}

} // verus!
