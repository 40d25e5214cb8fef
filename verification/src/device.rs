use vstd::prelude::*;

use crate::backend::FakeRegs;
use crate::backend::RegLogger;
use crate::backend::RegOp;
use crate::backend::RegRw;
use crate::error::RfmError;
use crate::regs::Rfm22Reg;
use crate::regs::Rfm22RegVal;
use crate::regs::RfmReg;

verus! {

/// `post` is `pre` with one read-modify-write appended at register `reg`:
/// a read of some byte `v0`, then a write of `(v0 & !clear) | set`.
pub open spec fn modify_ops(pre: Seq<RegOp>, post: Seq<RegOp>, reg: u8, clear: u8, set: u8) -> bool {
    exists|v0: u8| #![auto]
        post == pre.push(RegOp::Read { reg, val: v0 }).push(
            RegOp::Write { reg, val: (v0 & !clear) | set },
        )
}

/// `post` is `pre` with one verified read-modify-write appended at register
/// `reg`: a read of some byte `v0`, a write of `w == (v0 & !clear) | set`,
/// and a readback that returned exactly `w`.
pub open spec fn modify_verify_ops(
    pre: Seq<RegOp>,
    post: Seq<RegOp>,
    reg: u8,
    clear: u8,
    set: u8,
) -> bool {
    exists|v0: u8| #![auto]
        post == pre.push(RegOp::Read { reg, val: v0 }).push(
            RegOp::Write { reg, val: (v0 & !clear) | set },
        ).push(RegOp::Read { reg, val: (v0 & !clear) | set })
}

/// `post` is `pre` with one verified write appended at register `reg`: a
/// write of `val` and a readback that returned exactly `val`.
pub open spec fn write_validate_ops(pre: Seq<RegOp>, post: Seq<RegOp>, reg: u8, val: u8) -> bool {
    post == pre.push(RegOp::Write { reg, val }).push(RegOp::Read { reg, val })
}

/// Any byte lies within a full eight-bit field mask.
pub proof fn lemma_full_mask(x: u8)
    by (bit_vector)
    ensures
        x & !0xffu8 == 0,
{
}

proof fn lemma_masked_update(a: u8, c: u8, s: u8, m: u8)
    by (bit_vector)
    requires
        a & !m == 0,
        s & !m == 0,
    ensures
        ((a & !c) | s) & !m == 0,
{
}

/// The typed register model: maps field-decomposed register values to
/// backend byte addresses, always through a diagnostic logger, and offers
/// read-modify-write and write-with-verification on top of the raw bus.
pub struct Rfm22Regs<B: RegRw> {
    pub regs: RegLogger<B>,
}

impl<B: RegRw> Rfm22Regs<B> {
    /// The trace of bus transactions performed so far.
    pub open spec fn ops(&self) -> Seq<RegOp> {
        self.regs.ops()
    }

    pub fn new(backend: B) -> (r: Self)
        ensures
            r.ops() == Seq::<RegOp>::empty(),
            r.regs.inner == backend,
            r.regs.log() == Seq::<RegOp>::empty(),
    {
        Rfm22Regs { regs: RegLogger::new(backend) }
    }

    /// Read register `R` and decode it into its bit-field representation.
    /// A byte with a bit outside `R`'s defined field set is a fatal decode
    /// error, signalling a model/hardware mismatch.
    pub fn read<R: Rfm22Reg>(&mut self) -> (r: Result<R, RfmError>)
        ensures
            r matches Ok(v) ==> final(self).ops() == old(self).ops().push(
                RegOp::Read { reg: R::spec_regval(), val: v.spec_bits() },
            ) && v.spec_bits() & !R::spec_mask() == 0,
            r matches Err(e) ==> (e == RfmError::Io || e == RfmError::Decode),
            (r matches Err(e) && e == RfmError::Io) ==> final(self).ops() == old(self).ops(),
            (r matches Err(e) && e == RfmError::Decode) ==> exists|b: u8| #![auto]
                final(self).ops() == old(self).ops().push(
                    RegOp::Read { reg: R::spec_regval(), val: b },
                ) && b & !R::spec_mask() != 0,
    {
        let addr = R::regval();
        match self.regs.read(addr) {
            Ok(b) => match R::from_bits(b) {
                Some(v) => Ok(v),
                None => Err(RfmError::Decode),
            },
            Err(_) => Err(RfmError::Io),
        }
    }

    /// Encode `val`'s bit fields and write them to `R`'s address.
    pub fn write<R: Rfm22Reg>(&mut self, val: R) -> (r: Result<(), RfmError>)
        ensures
            r matches Ok(_) ==> final(self).ops() == old(self).ops().push(
                RegOp::Write { reg: R::spec_regval(), val: val.spec_bits() },
            ),
            r matches Err(e) ==> final(self).ops() == old(self).ops() && e == RfmError::Io,
    {
        let addr = R::regval();
        match self.regs.write(addr, val.bits()) {
            Ok(_) => Ok(()),
            Err(_) => Err(RfmError::Io),
        }
    }

    /// Write `val`, read the same register back, and require equality.
    /// A mismatch is a fatal configuration fault: it signals miswiring or
    /// an unresponsive device.
    pub fn write_validate<R: Rfm22Reg>(&mut self, val: R) -> (r: Result<(), RfmError>)
        ensures
            r matches Ok(_) ==> write_validate_ops(
                old(self).ops(),
                final(self).ops(),
                R::spec_regval(),
                val.spec_bits(),
            ),
            r matches Err(e) ==> (e == RfmError::Io || e == RfmError::Decode
                || e == RfmError::VerifyMismatch),
            (r matches Err(e) && e == RfmError::VerifyMismatch) ==> exists|b: u8| #![auto]
                b & !R::spec_mask() == 0 && b != val.spec_bits() && final(self).ops() == old(
                    self,
                ).ops().push(RegOp::Write { reg: R::spec_regval(), val: val.spec_bits() }).push(
                    RegOp::Read { reg: R::spec_regval(), val: b },
                ),
    {
        match self.write(val) {
            Ok(_) => {},
            Err(e) => {
                return Err(e);
            },
        }
        match self.read::<R>() {
            Ok(rv) => {
                if rv.bits() == val.bits() {
                    Ok(())
                } else {
                    Err(RfmError::VerifyMismatch)
                }
            },
            Err(e) => Err(e),
        }
    }

    /// Read-modify-write without verification, for the streaming hot path.
    pub fn modify<R: Rfm22Reg, F: FnOnce(R) -> R>(&mut self, f: F) -> (r: Result<(), RfmError>)
        requires
            forall|v: R| v.spec_bits() & !R::spec_mask() == 0 ==> call_requires(f, (v,)),
        ensures
            r matches Ok(_) ==> exists|v0: R, v1: R| #![auto]
                {
                    &&& v0.spec_bits() & !R::spec_mask() == 0
                    &&& call_ensures(f, (v0,), v1)
                    &&& final(self).ops() == old(self).ops().push(
                        RegOp::Read { reg: R::spec_regval(), val: v0.spec_bits() },
                    ).push(RegOp::Write { reg: R::spec_regval(), val: v1.spec_bits() })
                },
            r matches Err(e) ==> (e == RfmError::Io || e == RfmError::Decode),
    {
        let v0 = match self.read::<R>() {
            Ok(v) => v,
            Err(e) => {
                return Err(e);
            },
        };
        let v1 = f(v0);
        self.write(v1)
    }

    /// Read-modify-write followed by the verify-read.
    pub fn modify_verify<R: Rfm22Reg, F: FnOnce(R) -> R>(&mut self, f: F) -> (r: Result<
        (),
        RfmError,
    >)
        requires
            forall|v: R| v.spec_bits() & !R::spec_mask() == 0 ==> call_requires(f, (v,)),
        ensures
            r matches Ok(_) ==> exists|v0: R, v1: R| #![auto]
                {
                    &&& v0.spec_bits() & !R::spec_mask() == 0
                    &&& call_ensures(f, (v0,), v1)
                    &&& final(self).ops() == old(self).ops().push(
                        RegOp::Read { reg: R::spec_regval(), val: v0.spec_bits() },
                    ).push(RegOp::Write { reg: R::spec_regval(), val: v1.spec_bits() }).push(
                        RegOp::Read { reg: R::spec_regval(), val: v1.spec_bits() },
                    )
                },
            r matches Err(e) ==> (e == RfmError::Io || e == RfmError::Decode
                || e == RfmError::VerifyMismatch),
    {
        let v0 = match self.read::<R>() {
            Ok(v) => v,
            Err(e) => {
                return Err(e);
            },
        };
        let v1 = f(v0);
        self.write_validate(v1)
    }

    /// Read-modify-write that clears the bits of `clear` and sets the bits
    /// of `set`, without verification.
    pub fn modify_bits<R: Rfm22Reg>(&mut self, clear: u8, set: u8) -> (r: Result<(), RfmError>)
        requires
            set & !R::spec_mask() == 0,
        ensures
            r matches Ok(_) ==> modify_ops(
                old(self).ops(),
                final(self).ops(),
                R::spec_regval(),
                clear,
                set,
            ),
            r matches Err(e) ==> (e == RfmError::Io || e == RfmError::Decode),
    {
        let v0: R = match self.read::<R>() {
            Ok(v) => v,
            Err(e) => {
                return Err(e);
            },
        };
        let newbits: u8 = (v0.bits() & !clear) | set;
        proof {
            lemma_masked_update(v0.spec_bits(), clear, set, R::spec_mask());
        }
        match R::from_bits(newbits) {
            Some(v1) => self.write(v1),
            None => Err(RfmError::Decode),
        }
    }

    /// Read-modify-write that clears the bits of `clear` and sets the bits
    /// of `set`, followed by the verify-read.
    pub fn modify_verify_bits<R: Rfm22Reg>(&mut self, clear: u8, set: u8) -> (r: Result<
        (),
        RfmError,
    >)
        requires
            set & !R::spec_mask() == 0,
        ensures
            r matches Ok(_) ==> modify_verify_ops(
                old(self).ops(),
                final(self).ops(),
                R::spec_regval(),
                clear,
                set,
            ),
            r matches Err(e) ==> (e == RfmError::Io || e == RfmError::Decode
                || e == RfmError::VerifyMismatch),
    {
        let v0: R = match self.read::<R>() {
            Ok(v) => v,
            Err(e) => {
                return Err(e);
            },
        };
        let newbits: u8 = (v0.bits() & !clear) | set;
        proof {
            lemma_masked_update(v0.spec_bits(), clear, set, R::spec_mask());
        }
        match R::from_bits(newbits) {
            Some(v1) => self.write_validate(v1),
            None => Err(RfmError::Decode),
        }
    }

    /// Pass a burst write through to the backend, used only for FIFO
    /// payload injection.
    pub fn burst_write(&mut self, reg: Rfm22RegVal, buf: &Vec<u8>) -> (r: Result<(), RfmError>)
        ensures
            r matches Ok(_) ==> final(self).ops() == old(self).ops().push(
                RegOp::Burst { reg: reg.spec_addr(), data: buf@ },
            ),
            r matches Err(e) ==> final(self).ops() == old(self).ops() && e == RfmError::Io,
    {
        let addr = reg.addr();
        match self.regs.burst_write(addr, buf) {
            Ok(_) => Ok(()),
            Err(_) => Err(RfmError::Io),
        }
    }
}

impl Rfm22Regs<FakeRegs> {
    /// A register model over the in-memory fake backend, for hardware-less
    /// operation.
    pub fn dummy() -> (r: Self)
        ensures
            r.ops() == Seq::<RegOp>::empty(),
    {
        Rfm22Regs::new(FakeRegs::new())
    }
}

} // verus!
