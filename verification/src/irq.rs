use vstd::prelude::*;

use crate::backend::lemma_reads_only_push_read;
use crate::backend::lemma_reads_only_refl;
use crate::backend::lemma_reads_only_trans;
use crate::backend::reads_only_extension;
use crate::backend::RegOp;
use crate::backend::RegRw;
use crate::device::Rfm22Regs;
use crate::error::RfmError;
use crate::regs::InterruptEnable1;
use crate::regs::InterruptEnable2;
use crate::regs::InterruptStatus1;
use crate::regs::Rfm22Reg;
use crate::regs::RfmReg;
use crate::regs::IPKSENT;
use crate::regs::ITXFFAEM;

verus! {

/// The status bits a dummy-mode poll synthesizes, so a hardware-less run
/// can always make forward progress.
pub const DUMMY_POLL_BITS: u8 = ITXFFAEM | IPKSENT;

/// How one poll updates the accumulated pending set: union with the freshly
/// observed hardware bits, then masked to the currently enabled bits.
pub open spec fn poll_accumulate(pending: u8, enabled: u8, observed: u8) -> u8 {
    (pending | observed) & enabled
}

/// What one poll reports honours the enabled mask: every bit that was
/// pending or freshly observed stays reported while it is enabled, and no
/// disabled bit is ever reported. In particular, after enabling only one
/// source, a poll that observes both that source and another reports the
/// first and masks the second out.
pub proof fn lemma_poll_accumulate_masks(pending: u8, enabled: u8, observed: u8)
    by (bit_vector)
    ensures
        poll_accumulate(pending, enabled, observed) & !enabled == 0,
        poll_accumulate(pending, enabled, observed) & (observed & enabled) == observed & enabled,
        poll_accumulate(pending, enabled, observed) & (pending & enabled) == pending & enabled,
{
}

/// How many polls one bounded wait will make at most, however fast the
/// waiter reports change: a backstop so the wait provably terminates even
/// over an unverified waiter.
pub const MAX_WAIT_POLLS: u32 = 1000000;

/// A source of bounded blocking between polls: a deadline armed at the
/// start of each wait, a check whether it has passed, and a block until
/// the pending set may have changed. A wall-clock implementation arms a
/// one-second deadline and blocks on an interrupt edge or a short sleep.
/// Implementations are platform code and promise nothing; the wait loop
/// bounds its own iteration count besides asking `timed_out`.
pub trait Waiter: Sized {
    /// Start a fresh deadline: called once at the start of each bounded
    /// wait, before any blocking.
    fn arm(&mut self);

    /// Whether the deadline has passed.
    fn timed_out(&mut self) -> bool;

    /// Block until the pending set may have changed.
    fn wait_for_change(&mut self);
}

/// A waiter that never blocks and expires after a fixed number of turns:
/// the stand-in used when no interrupt line is available.
pub struct DummyWaiter {
    turns: u32,
    remaining: u32,
}

impl DummyWaiter {
    pub fn new(turns: u32) -> Self {
        DummyWaiter { turns, remaining: turns }
    }
}

impl Waiter for DummyWaiter {
    fn arm(&mut self) {
        self.remaining = self.turns;
    }

    fn timed_out(&mut self) -> bool {
        self.remaining == 0
    }

    fn wait_for_change(&mut self) {
        if self.remaining > 0 {
            self.remaining = self.remaining - 1;
        }
    }
}

/// The interrupt controller: accumulates and masks pending interrupt bits
/// across polls and offers a bounded wait-for-bits operation. The pending
/// set is mutated only by `poll`, `handled`, `clear` and `set_enable`.
pub struct Rfm22IRQs<W: Waiter> {
    pending: InterruptStatus1,
    enabled: InterruptEnable1,
    waiter: W,
    dummy: bool,
}

impl<W: Waiter> Rfm22IRQs<W> {
    /// The locally accumulated pending interrupt bits.
    pub closed spec fn spec_pending(&self) -> u8 {
        self.pending.spec_bits()
    }

    /// The bits currently enabled in the primary interrupt bank.
    pub closed spec fn spec_enabled(&self) -> u8 {
        self.enabled.spec_bits()
    }

    /// Whether polls synthesize status instead of touching hardware.
    pub closed spec fn spec_dummy(&self) -> bool {
        self.dummy
    }

    pub closed spec fn spec_waiter(&self) -> W {
        self.waiter
    }

    pub fn new(waiter: W) -> (r: Self)
        ensures
            r.spec_pending() == 0,
            r.spec_enabled() == 0,
            !r.spec_dummy(),
            r.spec_waiter() == waiter,
    {
        Rfm22IRQs {
            pending: InterruptStatus1::empty(),
            enabled: InterruptEnable1::empty(),
            waiter,
            dummy: false,
        }
    }

    /// Returns all interrupts currently pending. Reading the hardware
    /// status register clears asserted bits in hardware, so the observed
    /// bits are added to the locally accumulated pending set until they are
    /// marked as handled; the set is then masked to the currently enabled
    /// bits, dropping stale bits from sources disabled since they were
    /// observed. In dummy mode the hardware is left untouched and
    /// `DUMMY_POLL_BITS` is synthesized instead.
    pub fn poll<B: RegRw>(&mut self, regs: &mut Rfm22Regs<B>) -> (r: Result<
        InterruptStatus1,
        RfmError,
    >)
        ensures
            final(self).spec_enabled() == old(self).spec_enabled(),
            final(self).spec_dummy() == old(self).spec_dummy(),
            final(self).spec_waiter() == old(self).spec_waiter(),
            reads_only_extension(old(regs).ops(), final(regs).ops()),
            old(self).spec_dummy() ==> (r matches Ok(s) && s.spec_bits() == DUMMY_POLL_BITS
                && final(self).spec_pending() == old(self).spec_pending() && final(regs).ops()
                == old(regs).ops()),
            !old(self).spec_dummy() ==> match r {
                Ok(s) => {
                    &&& exists|v: u8| #![auto]
                        final(regs).ops() == old(regs).ops().push(RegOp::Read { reg: 0x03, val: v })
                            && final(self).spec_pending() == poll_accumulate(
                            old(self).spec_pending(),
                            old(self).spec_enabled(),
                            v,
                        )
                    &&& s.spec_bits() == final(self).spec_pending()
                },
                Err(e) => {
                    &&& (e == RfmError::Io || e == RfmError::Decode)
                    &&& final(self).spec_pending() == old(self).spec_pending()
                },
            },
    {
        if self.dummy {
            proof {
                lemma_reads_only_refl(regs.ops());
            }
            return Ok(InterruptStatus1::of(DUMMY_POLL_BITS));
        }
        let st: InterruptStatus1 = match regs.read() {
            Ok(v) => v,
            Err(e) => {
                proof {
                    if e == RfmError::Io {
                        lemma_reads_only_refl(regs.ops());
                    } else {
                        let b = choose|b: u8|
                            regs.ops() == old(regs).ops().push(
                                RegOp::Read { reg: InterruptStatus1::spec_regval(), val: b },
                            ) && b & !InterruptStatus1::spec_mask() != 0;
                        lemma_reads_only_push_read(old(regs).ops(), 0x03, b);
                    }
                }
                return Err(e);
            },
        };
        proof {
            lemma_reads_only_push_read(old(regs).ops(), 0x03, st.spec_bits());
        }
        self.pending.insert(st);
        self.pending.mask_to(InterruptStatus1::from(self.enabled));
        proof {
            assert(regs.ops() == old(regs).ops().push(
                RegOp::Read { reg: 0x03, val: st.spec_bits() },
            ) && self.spec_pending() == poll_accumulate(
                old(self).spec_pending(),
                old(self).spec_enabled(),
                st.spec_bits(),
            ));
        }
        Ok(self.pending)
    }

    /// Remove `irqs` from the pending set only; no hardware effect. Call
    /// after acting on a reported condition.
    pub fn handled(&mut self, irqs: InterruptStatus1)
        ensures
            final(self).spec_pending() == old(self).spec_pending() & !irqs.spec_bits(),
            final(self).spec_enabled() == old(self).spec_enabled(),
            final(self).spec_dummy() == old(self).spec_dummy(),
            final(self).spec_waiter() == old(self).spec_waiter(),
    {
        self.pending.remove(irqs);
    }

    /// Poll once and mark everything observed as handled, draining stale
    /// state before a new transmission.
    pub fn clear<B: RegRw>(&mut self, regs: &mut Rfm22Regs<B>) -> (r: Result<(), RfmError>)
        ensures
            final(self).spec_enabled() == old(self).spec_enabled(),
            final(self).spec_dummy() == old(self).spec_dummy(),
            final(self).spec_waiter() == old(self).spec_waiter(),
            reads_only_extension(old(regs).ops(), final(regs).ops()),
            (r matches Ok(_) && !old(self).spec_dummy()) ==> final(self).spec_pending() == 0,
            (r matches Ok(_) && old(self).spec_dummy()) ==> final(self).spec_pending()
                == old(self).spec_pending() & !DUMMY_POLL_BITS,
            r matches Err(e) ==> (e == RfmError::Io || e == RfmError::Decode)
                && final(self).spec_pending() == old(self).spec_pending(),
    {
        match self.poll(regs) {
            Ok(pnd) => {
                let ghost y: u8 = self.spec_pending();
                self.handled(pnd);
                proof {
                    assert(y & !y == 0) by (bit_vector);
                }
                Ok(())
            },
            Err(e) => Err(e),
        }
    }

    /// Write `irqs` as the sole enabled primary interrupt set (verified
    /// write), disable the secondary interrupt bank entirely, and drop from
    /// the pending set any bit not in the new enabled set, so a wait cannot
    /// be satisfied by a stale, since-disabled source.
    pub fn set_enable<B: RegRw>(&mut self, regs: &mut Rfm22Regs<B>, irqs: InterruptEnable1) -> (r:
        Result<(), RfmError>)
        ensures
            final(self).spec_enabled() == irqs.spec_bits(),
            final(self).spec_pending() == old(self).spec_pending() & irqs.spec_bits(),
            final(self).spec_dummy() == old(self).spec_dummy(),
            final(self).spec_waiter() == old(self).spec_waiter(),
            r matches Ok(_) ==> final(regs).ops() == old(regs).ops().push(
                RegOp::Write { reg: 0x05, val: irqs.spec_bits() },
            ).push(RegOp::Read { reg: 0x05, val: irqs.spec_bits() }).push(
                RegOp::Write { reg: 0x06, val: 0 },
            ).push(RegOp::Read { reg: 0x06, val: 0 }),
            r matches Err(e) ==> (e == RfmError::Io || e == RfmError::Decode
                || e == RfmError::VerifyMismatch),
    {
        self.enabled = irqs;
        self.pending.mask_to(InterruptStatus1::from(irqs));
        match regs.write_validate(irqs) {
            Ok(_) => {},
            Err(e) => {
                return Err(e);
            },
        }
        regs.write_validate(InterruptEnable2::empty())
    }

    /// Wait until every bit of `irqs` is pending, polling and blocking on
    /// the waiter in turn. Fails with a timeout once the waiter's budget is
    /// exhausted; a satisfied wait reports exactly the requested bits.
    #[verifier::loop_isolation(false)]
    pub fn wait<B: RegRw>(&mut self, regs: &mut Rfm22Regs<B>, irqs: InterruptStatus1) -> (r: Result<
        InterruptStatus1,
        RfmError,
    >)
        ensures
            final(self).spec_enabled() == old(self).spec_enabled(),
            final(self).spec_dummy() == old(self).spec_dummy(),
            reads_only_extension(old(regs).ops(), final(regs).ops()),
            r matches Ok(s) ==> s == irqs,
            (r matches Ok(_) && !old(self).spec_dummy()) ==> final(self).spec_pending()
                & irqs.spec_bits() == irqs.spec_bits(),
            old(self).spec_dummy() ==> final(self).spec_pending() == old(self).spec_pending(),
            (old(self).spec_dummy() && DUMMY_POLL_BITS & irqs.spec_bits() == irqs.spec_bits())
                ==> r matches Ok(_),
            r matches Err(e) ==> (e == RfmError::TimedOut || e == RfmError::Io
                || e == RfmError::Decode),
    {
        self.waiter.arm();
        let ghost pre_ops = regs.ops();
        let mut pnd = match self.poll(regs) {
            Ok(p) => p,
            Err(e) => {
                return Err(e);
            },
        };
        let mut polls_left: u32 = MAX_WAIT_POLLS;
        loop
            invariant
                self.spec_enabled() == old(self).spec_enabled(),
                self.spec_dummy() == old(self).spec_dummy(),
                reads_only_extension(pre_ops, regs.ops()),
                old(self).spec_dummy() ==> pnd.spec_bits() == DUMMY_POLL_BITS
                    && self.spec_pending() == old(self).spec_pending(),
                !old(self).spec_dummy() ==> pnd.spec_bits() == self.spec_pending(),
            decreases polls_left,
        {
            if pnd.contains(irqs) {
                return Ok(irqs);
            }
            if polls_left == 0 {
                return Err(RfmError::TimedOut);
            }
            if self.waiter.timed_out() {
                return Err(RfmError::TimedOut);
            }
            self.waiter.wait_for_change();
            polls_left = polls_left - 1;
            let ghost mid_ops = regs.ops();
            pnd = match self.poll(regs) {
                Ok(p) => p,
                Err(e) => {
                    proof {
                        lemma_reads_only_trans(pre_ops, mid_ops, regs.ops());
                    }
                    return Err(e);
                },
            };
            proof {
                lemma_reads_only_trans(pre_ops, mid_ops, regs.ops());
            }
        }
    }
}

impl Rfm22IRQs<DummyWaiter> {
    /// A controller in dummy mode: polls synthesize status and never touch
    /// hardware.
    pub fn dummy() -> (r: Self)
        ensures
            r.spec_pending() == 0,
            r.spec_enabled() == 0,
            r.spec_dummy(),
    {
        Rfm22IRQs {
            pending: InterruptStatus1::empty(),
            enabled: InterruptEnable1::empty(),
            waiter: DummyWaiter::new(1000),
            dummy: true,
        }
    }
}

} // verus!
