//! Interrupt configuration for the user button: line EXTI0, fed from PA0.
//!
//! The register fields that concern the line are modelled by
//! `LineRegisters`; arming the line is a fixed sequence of writes to them,
//! chosen by the trigger mode.

use vstd::prelude::*;

verus! {

/// Which edges of the button signal raise the interrupt.
#[derive(Clone, Copy, Debug, PartialEq, Eq, Structural)]
pub enum TriggerMode {
    Rising,
    Falling,
    Both,
}

impl TriggerMode {
    /// The mode arms the rising-edge detector.
    pub open spec fn arms_rising(self) -> bool {
        self != TriggerMode::Falling
    }

    /// The mode arms the falling-edge detector.
    pub open spec fn arms_falling(self) -> bool {
        self != TriggerMode::Rising
    }
}

/// Value of the EXTI0 field of SYSCFG_EXTICR1 that routes port A to the line.
pub const PORT_A_CONFIG: u8 = 0;

/// The register fields of the button's interrupt line.
#[derive(Clone, Copy, Debug, PartialEq, Eq, Structural)]
pub struct LineRegisters {
    /// EXTI_IMR1.MR0: the line may raise its interrupt.
    pub interrupt_mask: bool,
    /// EXTI_RTSR1.TR0: a rising edge sets the pending bit.
    pub rising_trigger: bool,
    /// EXTI_FTSR1.TR0: a falling edge sets the pending bit.
    pub falling_trigger: bool,
    /// EXTI_PR1.PR0: an edge has been seen and not yet cleared.
    pub pending: bool,
    /// SYSCFG_EXTICR1.EXTI0: the GPIO port routed to the line.
    pub port_config: u8,
    /// The EXTI0 vector is unmasked in the NVIC.
    pub vector_unmasked: bool,
}

/// One write to the fields of the button's interrupt line.
#[derive(Clone, Copy, Debug, PartialEq, Eq, Structural)]
pub enum RegisterWrite {
    /// Set EXTI_IMR1.MR0.
    UnmaskLine,
    /// Route PA0 to the line through SYSCFG_EXTICR1.
    RoutePortA,
    /// Set EXTI_RTSR1.TR0.
    ArmRising,
    /// Set EXTI_FTSR1.TR0.
    ArmFalling,
    /// Unmask the EXTI0 vector in the NVIC.
    UnmaskVector,
    /// Write 1 to EXTI_PR1.PR0, which clears it.
    ClearPending,
}

impl LineRegisters {
    /// The fields after the write `w`; a write touches its own field only.
    pub open spec fn after(self, w: RegisterWrite) -> LineRegisters {
        match w {
            RegisterWrite::UnmaskLine => LineRegisters { interrupt_mask: true, ..self },
            RegisterWrite::RoutePortA => LineRegisters { port_config: PORT_A_CONFIG, ..self },
            RegisterWrite::ArmRising => LineRegisters { rising_trigger: true, ..self },
            RegisterWrite::ArmFalling => LineRegisters { falling_trigger: true, ..self },
            RegisterWrite::UnmaskVector => LineRegisters { vector_unmasked: true, ..self },
            RegisterWrite::ClearPending => LineRegisters { pending: false, ..self },
        }
    }

    /// The fields after the writes `ws`, in order.
    pub open spec fn after_all(self, ws: Seq<RegisterWrite>) -> LineRegisters
        decreases ws.len(),
    {
        if ws.len() == 0 {
            self
        } else {
            self.after(ws[0]).after_all(ws.drop_first())
        }
    }

    /// The fields once the line is armed in `mode`: the line and its vector
    /// are unmasked, PA0 is routed to it, the detectors of `mode` are armed,
    /// and every other field is as before.
    pub open spec fn armed(self, mode: TriggerMode) -> LineRegisters {
        LineRegisters {
            interrupt_mask: true,
            rising_trigger: self.rising_trigger || mode.arms_rising(),
            falling_trigger: self.falling_trigger || mode.arms_falling(),
            pending: self.pending,
            port_config: PORT_A_CONFIG,
            vector_unmasked: true,
        }
    }

    /// Performs one write.
    pub fn apply(&mut self, w: RegisterWrite)
        ensures
            *final(self) == old(self).after(w),
    {
        match w {
            RegisterWrite::UnmaskLine => self.interrupt_mask = true,
            RegisterWrite::RoutePortA => self.port_config = PORT_A_CONFIG,
            RegisterWrite::ArmRising => self.rising_trigger = true,
            RegisterWrite::ArmFalling => self.falling_trigger = true,
            RegisterWrite::UnmaskVector => self.vector_unmasked = true,
            RegisterWrite::ClearPending => self.pending = false,
        }
    }
}

/// The writes that arm the line, in order: unmask the line, route PA0 to it,
/// arm the detectors of `mode`, then unmask its vector.
pub open spec fn enable_sequence(mode: TriggerMode) -> Seq<RegisterWrite> {
    let arm = match mode {
        TriggerMode::Rising => seq![RegisterWrite::ArmRising],
        TriggerMode::Falling => seq![RegisterWrite::ArmFalling],
        TriggerMode::Both => seq![RegisterWrite::ArmRising, RegisterWrite::ArmFalling],
    };
    seq![RegisterWrite::UnmaskLine, RegisterWrite::RoutePortA] + arm + seq![
        RegisterWrite::UnmaskVector,
    ]
}

/// Lists the writes that arm the button's interrupt line in `mode`.
pub fn enable_writes(mode: TriggerMode) -> (r: Vec<RegisterWrite>)
    ensures
        r@ == enable_sequence(mode),
{
    let mut r: Vec<RegisterWrite> = Vec::new();
    r.push(RegisterWrite::UnmaskLine);
    r.push(RegisterWrite::RoutePortA);
    match mode {
        TriggerMode::Rising => r.push(RegisterWrite::ArmRising),
        TriggerMode::Falling => r.push(RegisterWrite::ArmFalling),
        TriggerMode::Both => {
            r.push(RegisterWrite::ArmRising);
            r.push(RegisterWrite::ArmFalling);
        },
    }
    r.push(RegisterWrite::UnmaskVector);
    assert(r@ =~= enable_sequence(mode));
    r
}

/// Configures and enables the interrupt of the button's line in `mode`.
pub fn enable(registers: &mut LineRegisters, mode: TriggerMode)
    ensures
        *final(registers) == old(registers).armed(mode),
{
    let writes = enable_writes(mode);
    let mut i: usize = 0;
    proof {
        lemma_enable_sequence_arms(*registers, mode);
        assert(writes@.subrange(0, writes@.len() as int) =~= writes@);
    }
    while i < writes.len()
        invariant
            0 <= i <= writes@.len(),
            writes@ == enable_sequence(mode),
            registers.after_all(writes@.subrange(i as int, writes@.len() as int))
                == old(registers).armed(mode),
        decreases writes@.len() - i,
    {
        registers.apply(writes[i]);
        proof {
            let tail = writes@.subrange(i as int, writes@.len() as int);
            assert(tail.drop_first() =~= writes@.subrange(i + 1, writes@.len() as int));
        }
        i = i + 1;
    }
    proof {
        assert(writes@.subrange(i as int, writes@.len() as int) =~= Seq::<RegisterWrite>::empty());
    }
}

/// Clears the pending bit of the button's line; the interrupt handler must
/// do so before it returns, or the interrupt fires again.
pub fn clear(registers: &mut LineRegisters)
    ensures
        *final(registers) == (LineRegisters { pending: false, ..*old(registers) }),
{
    registers.apply(RegisterWrite::ClearPending);
}

/// The sequence of writes of `enable_sequence` arms the line as `armed`
/// describes: only the detectors that the mode names are armed, the others
/// are left as they were.
pub proof fn lemma_enable_sequence_arms(registers: LineRegisters, mode: TriggerMode)
    ensures
        registers.after_all(enable_sequence(mode)) == registers.armed(mode),
{
    let ws = enable_sequence(mode);
    reveal_with_fuel(LineRegisters::after_all, 6);
    match mode {
        TriggerMode::Rising => {
            assert(ws.drop_first().drop_first().drop_first().drop_first() =~= Seq::<
                RegisterWrite,
            >::empty());
        },
        TriggerMode::Falling => {
            assert(ws.drop_first().drop_first().drop_first().drop_first() =~= Seq::<
                RegisterWrite,
            >::empty());
        },
        TriggerMode::Both => {
            assert(ws.drop_first().drop_first().drop_first().drop_first().drop_first() =~= Seq::<
                RegisterWrite,
            >::empty());
        },
    }
}

/// Arming the line a second time in the same mode changes nothing.
pub proof fn lemma_enable_idempotent(registers: LineRegisters, mode: TriggerMode)
    ensures
        registers.armed(mode).armed(mode) == registers.armed(mode),
{
}

/// An operation on the flag that the button's interrupt handler shares with
/// the main loop. The handler raises it; the main loop polls it by swapping
/// in false and reading the value swapped out. Each is one atomic operation,
/// so any run of the two contexts is a sequence of these.
#[derive(Clone, Copy, Debug, PartialEq, Eq, Structural)]
pub enum FlagEvent {
    Raise,
    Poll,
}

/// The flag after one operation.
pub open spec fn flag_after(flag: bool, e: FlagEvent) -> bool {
    match e {
        FlagEvent::Raise => true,
        FlagEvent::Poll => false,
    }
}

/// The flag just before the operation `events[j]`, starting from `flag`;
/// a poll at `j` reads this value.
pub open spec fn flag_before(flag: bool, events: Seq<FlagEvent>, j: int) -> bool
    decreases j,
{
    if j <= 0 {
        flag
    } else {
        flag_after(flag_before(flag, events, j - 1), events[j - 1])
    }
}

/// With an atomic swap-and-clear, a button edge is seen exactly once: the
/// first poll after the edge reads true, and every later poll reads false
/// until the next edge.
pub proof fn lemma_each_edge_seen_once(flag: bool, events: Seq<FlagEvent>, i: int, j: int)
    requires
        0 <= i < j < events.len(),
        events[i] == FlagEvent::Raise,
        events[j] == FlagEvent::Poll,
        forall|k: int| i < k < j ==> events[k] == FlagEvent::Raise,
    ensures
        flag_before(flag, events, j),
        forall|k: int|
            j < k < events.len() && (forall|m: int| j < m < k ==> events[m] == FlagEvent::Poll)
                ==> !#[trigger] flag_before(flag, events, k),
{
    assert(events[j - 1] == FlagEvent::Raise);
    assert forall|k: int|
        j < k < events.len() && (forall|m: int| j < m < k ==> events[m] == FlagEvent::Poll)
            implies !#[trigger] flag_before(flag, events, k) by {
        assert(events[k - 1] == FlagEvent::Poll);
    }
}

} // verus!
