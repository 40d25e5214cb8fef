use vstd::prelude::*;

use crate::error::RfmError;

verus! {

/// One bus transaction, as the mathematical trace of a backend records it.
/// A `Read` keeps the byte that came back, so contracts over the trace can
/// speak about observed values as well as issued ones.
pub enum RegOp {
    Read { reg: u8, val: u8 },
    Write { reg: u8, val: u8 },
    Burst { reg: u8, data: Seq<u8> },
}

/// `post` extends `pre` and every appended transaction is a plain register
/// read: nothing was written and no burst was issued.
pub open spec fn reads_only_extension(pre: Seq<RegOp>, post: Seq<RegOp>) -> bool {
    &&& pre.len() <= post.len()
    &&& pre == post.take(pre.len() as int)
    &&& forall|i: int|
        pre.len() <= i < post.len() ==> (#[trigger] post[i]) matches RegOp::Read { .. }
}

pub proof fn lemma_reads_only_refl(a: Seq<RegOp>)
    ensures
        reads_only_extension(a, a),
{
    assert(a.take(a.len() as int) =~= a);
}

pub proof fn lemma_reads_only_push_read(a: Seq<RegOp>, reg: u8, val: u8)
    ensures
        reads_only_extension(a, a.push(RegOp::Read { reg, val })),
{
    let b = a.push(RegOp::Read { reg, val });
    assert(b.take(a.len() as int) =~= a);
}

pub proof fn lemma_reads_only_trans(a: Seq<RegOp>, b: Seq<RegOp>, c: Seq<RegOp>)
    requires
        reads_only_extension(a, b),
        reads_only_extension(b, c),
    ensures
        reads_only_extension(a, c),
{
    assert forall|i: int| 0 <= i < a.len() implies c.take(a.len() as int)[i] == a[i] by {
        assert(b[i] == c.take(b.len() as int)[i]);
        assert(a[i] == b.take(a.len() as int)[i]);
    }
    assert(c.take(a.len() as int) =~= a);
    assert forall|i: int| a.len() <= i < c.len() implies (#[trigger] c[i]) matches RegOp::Read {
        ..
    } by {
        if i < b.len() {
            assert(b[i] == c.take(b.len() as int)[i]);
            assert(b[i] matches RegOp::Read { .. });
        }
    }
}

/// Byte-level access to the device's register space: one register read,
/// one register write, and a fixed-address burst write. What a read
/// returns is the backend's business: the real bus answers with the
/// hardware's value, the fake backend with its stored byte. A failed bus
/// transaction is reported as an error; implementations promise nothing
/// else, so every driver guarantee above this trait is proved without
/// assuming anything about the hardware's answers.
pub trait RegRw: Sized {
    fn read(&mut self, reg: u8) -> Result<u8, RfmError>
        requires
            reg < 0x80,
    ;

    fn write(&mut self, reg: u8, val: u8) -> Result<(), RfmError>
        requires
            reg < 0x80,
    ;

    fn burst_write(&mut self, reg: u8, data: &Vec<u8>) -> Result<(), RfmError>
        requires
            reg < 0x80,
    ;
}

/// The memory a fake burst write leaves behind: the write address advances
/// by one per byte, except at the FIFO register 0x7f, which is a fixed
/// target and never advances.
pub open spec fn fake_burst_mem(mem: Seq<u8>, reg: int, data: Seq<u8>) -> Seq<u8>
    decreases data.len(),
{
    if data.len() == 0 {
        mem
    } else {
        fake_burst_mem(
            mem.update(reg, data[0]),
            if reg < 0x7f {
                reg + 1
            } else {
                reg
            },
            data.subrange(1, data.len() as int),
        )
    }
}

/// An in-memory register file standing in for the hardware, for
/// hardware-less operation. 128 byte-addressed cells; burst writes
/// auto-increment except at the FIFO register, exactly as the device does.
pub struct FakeRegs {
    mem: Vec<u8>,
}

impl FakeRegs {
    #[verifier::type_invariant]
    spec fn wf(self) -> bool {
        self.mem@.len() == 128
    }

    /// The current contents of the 128 register cells.
    pub closed spec fn mem(&self) -> Seq<u8> {
        self.mem@
    }

    pub fn new() -> (r: Self)
        ensures
            r.mem() == Seq::new(128, |i: int| 0u8),
    {
        let mut mem: Vec<u8> = Vec::new();
        let mut i: usize = 0;
        while i < 128
            invariant
                i <= 128,
                mem@ == Seq::new(i as nat, |j: int| 0u8),
            decreases 128 - i,
        {
            mem.push(0u8);
            proof {
                assert(mem@ =~= Seq::new((i + 1) as nat, |j: int| 0u8));
            }
            i = i + 1;
        }
        FakeRegs { mem }
    }
}

impl RegRw for FakeRegs {
    fn read(&mut self, reg: u8) -> (r: Result<u8, RfmError>)
        ensures
            r matches Ok(v) && v == old(self).mem()[reg as int],
            final(self).mem() == old(self).mem(),
    {
        proof {
            use_type_invariant(&*self);
        }
        let v = self.mem[reg as usize];
        Ok(v)
    }

    fn write(&mut self, reg: u8, val: u8) -> (r: Result<(), RfmError>)
        ensures
            r is Ok,
            final(self).mem() == old(self).mem().update(reg as int, val),
    {
        proof {
            use_type_invariant(&*self);
        }
        self.mem[reg as usize] = val;
        Ok(())
    }

    fn burst_write(&mut self, reg: u8, data: &Vec<u8>) -> (r: Result<(), RfmError>)
        ensures
            r is Ok,
            final(self).mem() == fake_burst_mem(old(self).mem(), reg as int, data@),
    {
        proof {
            use_type_invariant(&*self);
        }
        let mut cur: u8 = reg;
        let mut i: usize = 0;
        proof {
            assert(data@.subrange(0, data@.len() as int) =~= data@);
        }
        while i < data.len()
            invariant
                i <= data.len(),
                reg <= cur < 0x80,
                cur == if reg + i < 0x7f {
                    reg + i
                } else {
                    0x7f
                },
                self.mem@.len() == 128,
                fake_burst_mem(old(self).mem(), reg as int, data@) == fake_burst_mem(
                    self.mem@,
                    cur as int,
                    data@.subrange(i as int, data@.len() as int),
                ),
            decreases data.len() - i,
        {
            proof {
                let rest = data@.subrange(i as int, data@.len() as int);
                assert(rest[0] == data@[i as int]);
                assert(rest.subrange(1, rest.len() as int) =~= data@.subrange(
                    i + 1,
                    data@.len() as int,
                ));
            }
            self.mem[cur as usize] = data[i];
            if cur < 0x7f {
                cur = cur + 1;
            }
            i = i + 1;
        }
        proof {
            assert(data@.subrange(data@.len() as int, data@.len() as int) =~= Seq::<u8>::empty());
        }
        Ok(())
    }
}

/// One record the diagnostic logger keeps: the operation, its register
/// address and the value or bytes involved.
#[derive(Clone, Debug)]
pub enum LogRec {
    Read { reg: u8, val: u8 },
    Write { reg: u8, val: u8 },
    Burst { reg: u8, data: Vec<u8> },
}

impl LogRec {
    /// The transaction this record describes.
    pub open spec fn view_op(&self) -> RegOp {
        match self {
            LogRec::Read { reg, val } => RegOp::Read { reg: *reg, val: *val },
            LogRec::Write { reg, val } => RegOp::Write { reg: *reg, val: *val },
            LogRec::Burst { reg, data } => RegOp::Burst { reg: *reg, data: data@ },
        }
    }
}

fn clone_bytes(data: &Vec<u8>) -> (r: Vec<u8>)
    ensures
        r@ == data@,
{
    let mut out: Vec<u8> = Vec::new();
    let mut i: usize = 0;
    while i < data.len()
        invariant
            i <= data.len(),
            out@ == data@.take(i as int),
        decreases data.len() - i,
    {
        out.push(data[i]);
        proof {
            assert(out@ =~= data@.take(i + 1));
        }
        i = i + 1;
    }
    proof {
        assert(data@.take(data@.len() as int) =~= data@);
    }
    out
}

/// A diagnostic wrapper around another backend: forwards every operation
/// unchanged — same values, same results, same errors — and additionally
/// keeps a record of each operation's address and value(s). Writes and
/// bursts are recorded when issued; reads are recorded once the value that
/// came back is known.
pub struct RegLogger<R: RegRw> {
    pub inner: R,
    pub recs: Vec<LogRec>,
    pub trace: Ghost<Seq<RegOp>>,
}

impl<R: RegRw> RegLogger<R> {
    /// The transactions performed so far, oldest first: every operation
    /// the bus completed, with the value each read returned.
    pub open spec fn ops(&self) -> Seq<RegOp> {
        self.trace@
    }

    /// The diagnostic records kept so far, oldest first. Unlike `ops`,
    /// writes and bursts are recorded when issued, whether or not the bus
    /// completed them.
    pub open spec fn log(&self) -> Seq<RegOp> {
        self.recs@.map_values(|rec: LogRec| rec.view_op())
    }

    pub fn new(inner: R) -> (r: Self)
        ensures
            r.inner == inner,
            r.ops() == Seq::<RegOp>::empty(),
            r.log() == Seq::<RegOp>::empty(),
    {
        RegLogger { inner, recs: Vec::new(), trace: Ghost(Seq::empty()) }
    }

    /// Read access to the diagnostic records.
    pub fn records(&self) -> (r: &Vec<LogRec>)
        ensures
            r@.map_values(|rec: LogRec| rec.view_op()) == self.log(),
    {
        &self.recs
    }
}

impl<R: RegRw> RegRw for RegLogger<R> {
    fn read(&mut self, reg: u8) -> (r: Result<u8, RfmError>)
        ensures
            r matches Ok(v) ==> final(self).ops() == old(self).ops().push(
                RegOp::Read { reg, val: v },
            ) && final(self).log() == old(self).log().push(RegOp::Read { reg, val: v }),
            r matches Err(_) ==> final(self).ops() == old(self).ops() && final(self).log() == old(
                self,
            ).log(),
    {
        let r = self.inner.read(reg);
        if let Ok(v) = r {
            self.recs.push(LogRec::Read { reg, val: v });
            self.trace = Ghost(self.trace@.push(RegOp::Read { reg, val: v }));
            proof {
                assert(self.recs@.map_values(|rec: LogRec| rec.view_op()) =~= old(
                    self,
                ).log().push(RegOp::Read { reg, val: v }));
            }
        }
        r
    }

    fn write(&mut self, reg: u8, val: u8) -> (r: Result<(), RfmError>)
        ensures
            final(self).log() == old(self).log().push(RegOp::Write { reg, val }),
            r matches Ok(_) ==> final(self).ops() == old(self).ops().push(
                RegOp::Write { reg, val },
            ),
            r matches Err(_) ==> final(self).ops() == old(self).ops(),
    {
        self.recs.push(LogRec::Write { reg, val });
        proof {
            assert(self.recs@.map_values(|rec: LogRec| rec.view_op()) =~= old(self).log().push(
                RegOp::Write { reg, val },
            ));
        }
        let r = self.inner.write(reg, val);
        if r.is_ok() {
            self.trace = Ghost(self.trace@.push(RegOp::Write { reg, val }));
        }
        r
    }

    fn burst_write(&mut self, reg: u8, data: &Vec<u8>) -> (r: Result<(), RfmError>)
        ensures
            final(self).log() == old(self).log().push(RegOp::Burst { reg, data: data@ }),
            r matches Ok(_) ==> final(self).ops() == old(self).ops().push(
                RegOp::Burst { reg, data: data@ },
            ),
            r matches Err(_) ==> final(self).ops() == old(self).ops(),
    {
        let copy = clone_bytes(data);
        self.recs.push(LogRec::Burst { reg, data: copy });
        proof {
            assert(self.recs@.map_values(|rec: LogRec| rec.view_op()) =~= old(self).log().push(
                RegOp::Burst { reg, data: data@ },
            ));
        }
        let r = self.inner.burst_write(reg, data);
        if r.is_ok() {
            self.trace = Ghost(self.trace@.push(RegOp::Burst { reg, data: data@ }));
        }
        r
    }
}

} // verus!
