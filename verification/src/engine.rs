use vstd::prelude::*;

use crate::backend::reads_only_extension;
use crate::backend::RegOp;
use crate::backend::RegRw;
use crate::backend::FakeRegs;
use crate::codec::spec_pack;
use crate::codec::spec_repeat_units;
use crate::codec::spec_unit;
use crate::codec::pack_bits;
use crate::codec::FanPkt;
use crate::device::modify_ops;
use crate::device::modify_verify_ops;
use crate::device::write_validate_ops;
use crate::device::Rfm22Regs;
use crate::error::RfmError;
use crate::irq::DummyWaiter;
use crate::irq::Rfm22IRQs;
use crate::irq::Waiter;
use crate::planner::data_rate_registers;
use crate::planner::frequency_registers;
use crate::planner::spec_band;
use crate::planner::spec_carrier_num;
use crate::planner::spec_freq_ok;
use crate::planner::spec_high_band;
use crate::planner::spec_rate_ok;
use crate::planner::spec_txdr;
use crate::regs::DataSource;
use crate::regs::InterruptEnable1;
use crate::regs::InterruptStatus1;
use crate::regs::ModulationModeControl1;
use crate::regs::ModulationModeControl2;
use crate::regs::ModulationType;
use crate::regs::OperatingFunctionControl1;
use crate::regs::OperatingFunctionControl2;
use crate::regs::Rfm22Reg;
use crate::regs::Rfm22RegVal;
use crate::regs::TxPower;
use crate::regs::DTMOD0;
use crate::regs::DTMOD1;
use crate::regs::ENPKSENT;
use crate::regs::ENTXFFAEM;
use crate::regs::FFCLRTX;
use crate::regs::HBSEL;
use crate::regs::IPKSENT;
use crate::regs::ITXFFAEM;
use crate::regs::MODTYP0;
use crate::regs::MODTYP1;
use crate::regs::PLLON;
use crate::regs::TXDRTSCALE;
use crate::regs::TXON;
use crate::regs::TXPOW0;
use crate::regs::TXPOW1;
use crate::regs::TXPOW2;
use crate::regs::XTON;

verus! {

/// The device FIFO depth.
pub const FIFO_SIZE: usize = 64;

/// The safety margin kept free so the FIFO is never filled completely.
pub const FIFO_MARGIN: usize = 10;

/// The usable burst size: how many bytes one FIFO burst may carry.
pub const FIFO_BURST: usize = 54;

/// The transactions the transmit engine's contract is stated over: every
/// burst, and every write to operating function control 1 (the register
/// holding the transmit-enable bit).
pub open spec fn is_key_op(op: RegOp) -> bool {
    match op {
        RegOp::Write { reg, val } => reg == 0x07,
        RegOp::Burst { .. } => true,
        RegOp::Read { .. } => false,
    }
}

/// The subsequence of key operations of a trace, in order.
pub open spec fn key_ops(t: Seq<RegOp>) -> Seq<RegOp>
    decreases t.len(),
{
    if t.len() == 0 {
        Seq::empty()
    } else {
        key_ops(t.drop_last()) + (if is_key_op(t.last()) {
            seq![t.last()]
        } else {
            Seq::empty()
        })
    }
}

/// A write that asserts the transmit-enable bit.
pub open spec fn is_txon_write(op: RegOp) -> bool {
    match op {
        RegOp::Write { reg, val } => reg == 0x07 && val & TXON != 0,
        _ => false,
    }
}

/// A burst of `chunk` to the FIFO register.
pub open spec fn fifo_burst(chunk: Seq<u8>) -> RegOp {
    RegOp::Burst { reg: 0x7f, data: chunk }
}

/// The byte stream cut into FIFO bursts: full bursts of `FIFO_BURST`
/// bytes, then whatever is left.
pub open spec fn chunk_seq(data: Seq<u8>) -> Seq<Seq<u8>>
    decreases data.len(),
{
    if data.len() == 0 {
        Seq::empty()
    } else if data.len() <= FIFO_BURST {
        seq![data]
    } else {
        seq![data.take(FIFO_BURST as int)] + chunk_seq(data.skip(FIFO_BURST as int))
    }
}

/// The concatenation of a sequence of chunks.
pub open spec fn concat_chunks(cs: Seq<Seq<u8>>) -> Seq<u8>
    decreases cs.len(),
{
    if cs.len() == 0 {
        Seq::empty()
    } else {
        cs.first() + concat_chunks(cs.drop_first())
    }
}

pub proof fn lemma_key_ops_push(t: Seq<RegOp>, x: RegOp)
    ensures
        key_ops(t.push(x)) == key_ops(t) + (if is_key_op(x) {
            seq![x]
        } else {
            Seq::<RegOp>::empty()
        }),
{
    assert(t.push(x).drop_last() =~= t);
    assert(t.push(x).last() == x);
}

/// Appending only reads to a trace leaves its key operations unchanged.
pub proof fn lemma_key_ops_reads_only(pre: Seq<RegOp>, post: Seq<RegOp>)
    requires
        reads_only_extension(pre, post),
    ensures
        key_ops(post) == key_ops(pre),
    decreases post.len(),
{
    if post.len() == pre.len() {
        assert(post =~= pre);
    } else {
        assert(post[post.len() - 1] matches RegOp::Read { .. });
        assert(!is_key_op(post.last()));
        assert(key_ops(post) == key_ops(post.drop_last()) + Seq::<RegOp>::empty());
        assert(key_ops(post) =~= key_ops(post.drop_last()));
        assert(post.drop_last().take(pre.len() as int) =~= post.take(pre.len() as int));
        assert(reads_only_extension(pre, post.drop_last()));
        lemma_key_ops_reads_only(pre, post.drop_last());
    }
}

/// Every chunk is non-empty and at most one burst long, and together the
/// chunks carry exactly the byte stream.
pub proof fn lemma_chunk_shape(data: Seq<u8>)
    ensures
        forall|i: int|
            0 <= i < chunk_seq(data).len() ==> 1 <= (#[trigger] chunk_seq(data)[i]).len()
                <= FIFO_BURST,
        concat_chunks(chunk_seq(data)) == data,
    decreases data.len(),
{
    if data.len() == 0 {
        assert(concat_chunks(chunk_seq(data)) =~= data);
    } else if data.len() <= FIFO_BURST {
        let cs = chunk_seq(data);
        assert(cs =~= seq![data]);
        assert(cs.first() == data);
        assert(cs.drop_first() =~= Seq::<Seq<u8>>::empty());
        assert(concat_chunks(cs.drop_first()) == Seq::<u8>::empty());
        assert(concat_chunks(cs) == data + Seq::<u8>::empty());
        assert(data + Seq::<u8>::empty() =~= data);
    } else {
        let rest = data.skip(FIFO_BURST as int);
        lemma_chunk_shape(rest);
        let cs = chunk_seq(data);
        assert(cs.first() == data.take(FIFO_BURST as int));
        assert(cs.drop_first() =~= chunk_seq(rest));
        assert(concat_chunks(cs) == data.take(FIFO_BURST as int) + concat_chunks(chunk_seq(rest)));
        assert(concat_chunks(cs) =~= data);
    }
}

/// How many chunks a non-empty stream cuts into: enough bursts to cover
/// it, with the last burst starting inside the stream.
pub proof fn lemma_chunk_bounds(data: Seq<u8>)
    requires
        data.len() > 0,
    ensures
        chunk_seq(data).len() >= 1,
        chunk_seq(data).len() * FIFO_BURST >= data.len(),
        (chunk_seq(data).len() - 1) * FIFO_BURST < data.len(),
    decreases data.len(),
{
    if data.len() <= FIFO_BURST {
    } else {
        lemma_chunk_bounds(data.skip(FIFO_BURST as int));
    }
}

/// Chunk `k` is exactly the bytes from position `FIFO_BURST * k` to the
/// next burst boundary or the end of the stream.
pub proof fn lemma_chunk_at(data: Seq<u8>, k: int)
    requires
        0 <= k,
        FIFO_BURST * k < data.len(),
    ensures
        chunk_seq(data).len() > k,
        chunk_seq(data)[k] == data.subrange(
            FIFO_BURST * k,
            if FIFO_BURST * k + FIFO_BURST <= data.len() {
                FIFO_BURST * k + FIFO_BURST
            } else {
                data.len() as int
            },
        ),
    decreases k,
{
    if k == 0 {
        if data.len() <= FIFO_BURST {
            assert(chunk_seq(data)[0] =~= data.subrange(0, data.len() as int));
        } else {
            assert(chunk_seq(data)[0] =~= data.subrange(0, FIFO_BURST as int));
        }
    } else {
        let rest = data.skip(FIFO_BURST as int);
        lemma_chunk_at(rest, k - 1);
        assert(chunk_seq(data)[k] == chunk_seq(rest)[k - 1]);
        let lo = FIFO_BURST * (k - 1);
        let hi = if lo + FIFO_BURST <= rest.len() {
            lo + FIFO_BURST
        } else {
            rest.len() as int
        };
        assert(rest.subrange(lo, hi) =~= data.subrange(lo + FIFO_BURST, hi + FIFO_BURST));
        assert(FIFO_BURST * k == lo + FIFO_BURST);
    }
}

/// The transmit engine's whole observable effect on the bus for one
/// transmission of `data`, stated over the key operations appended to the
/// trace: first a burst of the first chunk to the FIFO register, then
/// exactly one write asserting transmit-enable, then one FIFO burst per
/// remaining chunk, in order, and nothing else.
pub open spec fn transmit_key_ops(pre: Seq<RegOp>, post: Seq<RegOp>, data: Seq<u8>) -> bool {
    let ks = key_ops(post);
    let pk = key_ops(pre);
    let chunks = chunk_seq(data);
    &&& ks.len() == pk.len() + chunks.len() + 1
    &&& ks.take(pk.len() as int) == pk
    &&& ks[pk.len() as int] == fifo_burst(chunks[0])
    &&& is_txon_write(ks[(pk.len() + 1) as int])
    &&& forall|i: int| 1 <= i < chunks.len() ==> ks[pk.len() + 1 + i] == fifo_burst(chunks[i])
}

/// Transmitting a byte stream longer than one burst issues more than one
/// FIFO burst, each between 1 and `FIFO_BURST` bytes, together carrying
/// exactly the stream, with transmit-enable asserted exactly once, and
/// only after the first burst was loaded.
pub proof fn lemma_fifo_chunking(pre: Seq<RegOp>, post: Seq<RegOp>, data: Seq<u8>)
    requires
        transmit_key_ops(pre, post, data),
        data.len() > FIFO_BURST,
    ensures
        chunk_seq(data).len() >= 2,
        concat_chunks(chunk_seq(data)) == data,
        forall|i: int|
            0 <= i < chunk_seq(data).len() ==> 1 <= (#[trigger] chunk_seq(data)[i]).len()
                <= FIFO_BURST,
        key_ops(post).len() == key_ops(pre).len() + chunk_seq(data).len() + 1,
        key_ops(post)[key_ops(pre).len() as int] == fifo_burst(chunk_seq(data)[0]),
        is_txon_write(key_ops(post)[(key_ops(pre).len() + 1) as int]),
        forall|j: int|
            key_ops(pre).len() <= j < key_ops(post).len() && j != key_ops(pre).len() + 1
                ==> !is_txon_write(#[trigger] key_ops(post)[j]),
{
    lemma_chunk_shape(data);
    lemma_chunk_bounds(data);
    let chunks = chunk_seq(data);
    assert(chunks.len() >= 2) by {
        if chunks.len() < 2 {
            assert(chunks.len() * FIFO_BURST <= FIFO_BURST);
        }
    }
    let pk = key_ops(pre);
    let ks = key_ops(post);
    assert forall|j: int|
        pk.len() <= j < ks.len() && j != pk.len() + 1 implies !is_txon_write(
        #[trigger] ks[j],
    ) by {
        if j == pk.len() {
            assert(ks[j] == fifo_burst(chunks[0]));
        } else {
            let i = j - pk.len() - 1;
            assert(ks[pk.len() + 1 + i] == fifo_burst(chunks[i]));
            assert(ks[j] == fifo_burst(chunks[i]));
        }
    }
}

/// The trace a successful carrier-frequency configuration appends: a
/// verified write of each of the five frequency registers, in order.
pub open spec fn spec_freq_ops(pre: Seq<RegOp>, post: Seq<RegOp>, freq_khz: u32) -> bool {
    let band = (spec_band(freq_khz) as u8) | (if spec_high_band(freq_khz) {
        HBSEL
    } else {
        0
    });
    let c = spec_carrier_num(freq_khz) as u16;
    post == pre.push(RegOp::Write { reg: 0x75, val: band }).push(
        RegOp::Read { reg: 0x75, val: band },
    ).push(RegOp::Write { reg: 0x73, val: 0 }).push(RegOp::Read { reg: 0x73, val: 0 }).push(
        RegOp::Write { reg: 0x74, val: 0 },
    ).push(RegOp::Read { reg: 0x74, val: 0 }).push(
        RegOp::Write { reg: 0x76, val: (c >> 8u16) as u8 },
    ).push(RegOp::Read { reg: 0x76, val: (c >> 8u16) as u8 }).push(
        RegOp::Write { reg: 0x77, val: c as u8 },
    ).push(RegOp::Read { reg: 0x77, val: c as u8 })
}

/// The scale bit a data-rate configuration sets: the data-rate scale bit
/// below 30 kbit/s, nothing otherwise.
pub open spec fn spec_scale_bit(rate_hz: u32) -> u8 {
    if rate_hz < 30000 {
        TXDRTSCALE
    } else {
        0
    }
}

/// The first step of a data-rate configuration: the verified
/// read-modify-write of the modulation-scale bit.
pub open spec fn rate_scale_ops(pre: Seq<RegOp>, mid: Seq<RegOp>, rate_hz: u32) -> bool {
    modify_verify_ops(pre, mid, 0x70, 0, spec_scale_bit(rate_hz))
}

/// The second step of a data-rate configuration: the verified writes of
/// the two rate bytes.
pub open spec fn rate_byte_ops(mid: Seq<RegOp>, rate_hz: u32) -> Seq<RegOp> {
    let t = spec_txdr(rate_hz) as u16;
    mid.push(RegOp::Write { reg: 0x6e, val: (t >> 8u16) as u8 }).push(
        RegOp::Read { reg: 0x6e, val: (t >> 8u16) as u8 },
    ).push(RegOp::Write { reg: 0x6f, val: t as u8 }).push(RegOp::Read { reg: 0x6f, val: t as u8 })
}

/// The trace a successful data-rate configuration appends: a verified
/// read-modify-write of the modulation-scale bit, then a verified write
/// of each rate byte.
pub open spec fn spec_rate_ops(pre: Seq<RegOp>, post: Seq<RegOp>, rate_hz: u32) -> bool {
    exists|mid: Seq<RegOp>|
        #![trigger rate_scale_ops(pre, mid, rate_hz)]
        rate_scale_ops(pre, mid, rate_hz) && post == rate_byte_ops(mid, rate_hz)
}

/// The driver: the typed register model, the interrupt controller, and
/// the FIFO transmit engine over both.
pub struct Rfm22<B: RegRw, W: Waiter> {
    pub regs: Rfm22Regs<B>,
    pub irq: Rfm22IRQs<W>,
}

impl<B: RegRw, W: Waiter> Rfm22<B, W> {
    /// The trace of bus transactions performed so far.
    pub open spec fn ops(&self) -> Seq<RegOp> {
        self.regs.ops()
    }

    pub fn new(backend: B, waiter: W) -> (r: Self)
        ensures
            r.ops() == Seq::<RegOp>::empty(),
            r.irq.spec_pending() == 0,
            r.irq.spec_enabled() == 0,
            !r.irq.spec_dummy(),
    {
        Rfm22 { regs: Rfm22Regs::new(backend), irq: Rfm22IRQs::new(waiter) }
    }

    /// Enable the crystal oscillator and PLL, verified.
    pub fn init(&mut self) -> (r: Result<(), RfmError>)
        ensures
            r matches Ok(_) ==> write_validate_ops(
                old(self).ops(),
                final(self).ops(),
                0x07,
                XTON | PLLON,
            ),
            r matches Err(e) ==> (e == RfmError::Io || e == RfmError::Decode
                || e == RfmError::VerifyMismatch),
    {
        self.regs.write_validate(OperatingFunctionControl1::of(XTON | PLLON))
    }

    /// Set the modulation-type and data-source fields of modulation mode
    /// control 2, verified.
    pub fn set_modulation_type_and_source(&mut self, ty: ModulationType, source: DataSource) -> (r:
        Result<(), RfmError>)
        ensures
            r matches Ok(_) ==> modify_verify_ops(
                old(self).ops(),
                final(self).ops(),
                0x71,
                MODTYP0 | MODTYP1 | DTMOD0 | DTMOD1,
                ty.spec_field() | source.spec_field(),
            ),
            r matches Err(e) ==> (e == RfmError::Io || e == RfmError::Decode
                || e == RfmError::VerifyMismatch),
    {
        let set: u8 = ty.field() | source.field();
        proof {
            crate::device::lemma_full_mask(set);
        }
        self.regs.modify_verify_bits::<ModulationModeControl2>(
            MODTYP0 | MODTYP1 | DTMOD0 | DTMOD1,
            set,
        )
    }

    /// Set the three-bit TX power field, verified. A power above 7 is
    /// rejected before any register write.
    pub fn set_tx_power(&mut self, power: u8) -> (r: Result<(), RfmError>)
        ensures
            power > 7 ==> r == Err::<(), RfmError>(RfmError::OutOfRange)
                && *final(self) == *old(self),
            r matches Ok(_) ==> power <= 7 && modify_verify_ops(
                old(self).ops(),
                final(self).ops(),
                0x6d,
                TXPOW2 | TXPOW1 | TXPOW0,
                power,
            ),
            r matches Err(e) ==> (e == RfmError::OutOfRange || e == RfmError::Io
                || e == RfmError::Decode || e == RfmError::VerifyMismatch),
            (r matches Err(e) && e == RfmError::OutOfRange) ==> power > 7,
    {
        if power > 7 {
            return Err(RfmError::OutOfRange);
        }
        proof {
            crate::device::lemma_full_mask(power);
        }
        self.regs.modify_verify_bits::<TxPower>(TXPOW2 | TXPOW1 | TXPOW0, power)
    }

    /// Configure the carrier frequency from kHz: band select, the fixed
    /// zero offset, and the two carrier bytes, each with a verified
    /// write. A frequency outside the representable range is rejected
    /// before any register write.
    pub fn set_freq_khz(&mut self, freq_khz: u32) -> (r: Result<(), RfmError>)
        ensures
            !spec_freq_ok(freq_khz) ==> r == Err::<(), RfmError>(RfmError::OutOfRange)
                && *final(self) == *old(self),
            r matches Ok(_) ==> spec_freq_ok(freq_khz) && spec_freq_ops(
                old(self).ops(),
                final(self).ops(),
                freq_khz,
            ),
            r matches Err(e) ==> (e == RfmError::OutOfRange || e == RfmError::Io
                || e == RfmError::Decode || e == RfmError::VerifyMismatch),
            (r matches Err(e) && e == RfmError::OutOfRange) ==> !spec_freq_ok(freq_khz),
    {
        let fr = match frequency_registers(freq_khz) {
            Ok(fr) => fr,
            Err(e) => {
                return Err(e);
            },
        };
        match self.regs.write_validate(fr.band_select) {
            Ok(_) => {},
            Err(e) => {
                return Err(e);
            },
        }
        match self.regs.write_validate(fr.offset1) {
            Ok(_) => {},
            Err(e) => {
                return Err(e);
            },
        }
        match self.regs.write_validate(fr.offset2) {
            Ok(_) => {},
            Err(e) => {
                return Err(e);
            },
        }
        match self.regs.write_validate(fr.carrier1) {
            Ok(_) => {},
            Err(e) => {
                return Err(e);
            },
        }
        self.regs.write_validate(fr.carrier0)
    }

    /// Configure the TX data rate from bits per second: the
    /// modulation-scale bit (set below 30 kbit/s, with a verified
    /// read-modify-write either way), then the two rate bytes, each with
    /// a verified write. A rate outside the representable range is
    /// rejected before any register write.
    pub fn set_data_rate_hz(&mut self, rate_hz: u32) -> (r: Result<(), RfmError>)
        ensures
            !spec_rate_ok(rate_hz) ==> r == Err::<(), RfmError>(RfmError::OutOfRange)
                && *final(self) == *old(self),
            r matches Ok(_) ==> spec_rate_ok(rate_hz) && spec_rate_ops(
                old(self).ops(),
                final(self).ops(),
                rate_hz,
            ),
            r matches Err(e) ==> (e == RfmError::OutOfRange || e == RfmError::Io
                || e == RfmError::Decode || e == RfmError::VerifyMismatch),
            (r matches Err(e) && e == RfmError::OutOfRange) ==> !spec_rate_ok(rate_hz),
    {
        let rr = match data_rate_registers(rate_hz) {
            Ok(rr) => rr,
            Err(e) => {
                return Err(e);
            },
        };
        let sbit: u8 = if rr.scale {
            TXDRTSCALE
        } else {
            0
        };
        proof {
            assert(sbit & !0x3fu8 == 0) by (bit_vector)
                requires
                    sbit == 0x20u8 || sbit == 0u8,
            ;
        }
        match self.regs.modify_verify_bits::<ModulationModeControl1>(0, sbit) {
            Ok(_) => {},
            Err(e) => {
                return Err(e);
            },
        }
        let ghost mid = self.regs.ops();
        match self.regs.write_validate(rr.rate1) {
            Ok(_) => {},
            Err(e) => {
                return Err(e);
            },
        }
        let r = self.regs.write_validate(rr.rate0);
        proof {
            if r is Ok {
                assert(rate_scale_ops(old(self).ops(), mid, rate_hz));
                assert(self.regs.ops() == rate_byte_ops(mid, rate_hz));
            }
        }
        r
    }

    /// Reset the TX FIFO: set then clear the FIFO-clear bit, each with a
    /// verified read-modify-write, discarding stale bytes from a prior,
    /// possibly aborted, transmission. Neither step touches the key
    /// operations the transmit contract is stated over.
    fn clear_tx_fifo(&mut self) -> (r: Result<(), RfmError>)
        ensures
            r matches Ok(_) ==> key_ops(final(self).ops()) == key_ops(old(self).ops()),
            r matches Err(e) ==> (e == RfmError::Io || e == RfmError::Decode
                || e == RfmError::VerifyMismatch),
    {
        proof {
            crate::device::lemma_full_mask(FFCLRTX);
        }
        match self.regs.modify_verify_bits::<OperatingFunctionControl2>(0, FFCLRTX) {
            Ok(_) => {},
            Err(e) => {
                return Err(e);
            },
        }
        let ghost mid = self.regs.ops();
        proof {
            crate::device::lemma_full_mask(0);
        }
        let r = self.regs.modify_verify_bits::<OperatingFunctionControl2>(FFCLRTX, 0);
        proof {
            if r is Ok {
                let v0 = choose|v0: u8| #![auto]
                    mid == old(self).ops().push(RegOp::Read { reg: 0x08, val: v0 }).push(
                        RegOp::Write { reg: 0x08, val: (v0 & !0) | FFCLRTX },
                    ).push(RegOp::Read { reg: 0x08, val: (v0 & !0) | FFCLRTX });
                let v1 = choose|v1: u8| #![auto]
                    self.regs.ops() == mid.push(RegOp::Read { reg: 0x08, val: v1 }).push(
                        RegOp::Write { reg: 0x08, val: (v1 & !FFCLRTX) | 0 },
                    ).push(RegOp::Read { reg: 0x08, val: (v1 & !FFCLRTX) | 0 });
                lemma_key_ops_push(old(self).ops(), RegOp::Read { reg: 0x08, val: v0 });
                lemma_key_ops_push(
                    old(self).ops().push(RegOp::Read { reg: 0x08, val: v0 }),
                    RegOp::Write { reg: 0x08, val: (v0 & !0) | FFCLRTX },
                );
                lemma_key_ops_push(
                    old(self).ops().push(RegOp::Read { reg: 0x08, val: v0 }).push(
                        RegOp::Write { reg: 0x08, val: (v0 & !0) | FFCLRTX },
                    ),
                    RegOp::Read { reg: 0x08, val: (v0 & !0) | FFCLRTX },
                );
                lemma_key_ops_push(mid, RegOp::Read { reg: 0x08, val: v1 });
                lemma_key_ops_push(
                    mid.push(RegOp::Read { reg: 0x08, val: v1 }),
                    RegOp::Write { reg: 0x08, val: (v1 & !FFCLRTX) | 0 },
                );
                lemma_key_ops_push(
                    mid.push(RegOp::Read { reg: 0x08, val: v1 }).push(
                        RegOp::Write { reg: 0x08, val: (v1 & !FFCLRTX) | 0 },
                    ),
                    RegOp::Read { reg: 0x08, val: (v1 & !FFCLRTX) | 0 },
                );
                assert(key_ops(self.regs.ops()) =~= key_ops(old(self).ops()));
            }
        }
        r
    }

    /// Burst one chunk into the FIFO register, a fixed, non-incrementing
    /// target.
    fn write_tx_fifo(&mut self, buf: &Vec<u8>) -> (r: Result<(), RfmError>)
        ensures
            r matches Ok(_) ==> final(self).ops() == old(self).ops().push(
                RegOp::Burst { reg: 0x7f, data: buf@ },
            ),
            r matches Err(e) ==> final(self).ops() == old(self).ops() && e == RfmError::Io,
    {
        self.regs.burst_write(Rfm22RegVal::FIFOAccess, buf)
    }

    /// Assert the transmit-enable bit with a non-verified read-modify-write:
    /// the streaming hot path.
    fn transmit(&mut self) -> (r: Result<(), RfmError>)
        ensures
            r matches Ok(_) ==> exists|w: RegOp| #![auto]
                key_ops(final(self).ops()) == key_ops(old(self).ops()).push(w) && is_txon_write(w),
            r matches Err(e) ==> (e == RfmError::Io || e == RfmError::Decode),
    {
        proof {
            crate::device::lemma_full_mask(TXON);
        }
        let r = self.regs.modify_bits::<OperatingFunctionControl1>(0, TXON);
        proof {
            if r is Ok {
                assert(modify_ops(old(self).ops(), self.regs.ops(), 0x07, 0, TXON));
                let v0 = choose|v0: u8| #![auto]
                    self.regs.ops() == old(self).ops().push(RegOp::Read { reg: 0x07, val: v0 }).push(
                        RegOp::Write { reg: 0x07, val: (v0 & !0u8) | TXON },
                    );
                let w = RegOp::Write { reg: 0x07, val: (v0 & !0) | TXON };
                lemma_key_ops_push(old(self).ops(), RegOp::Read { reg: 0x07, val: v0 });
                lemma_key_ops_push(old(self).ops().push(RegOp::Read { reg: 0x07, val: v0 }), w);
                let y: u8 = v0 & !0;
                assert((y | 0x08u8) & 0x08u8 != 0) by (bit_vector);
                assert(is_txon_write(w));
                assert(key_ops(self.regs.ops()) =~= key_ops(old(self).ops()).push(w));
            }
        }
        r
    }
}

fn copy_range(data: &Vec<u8>, start: usize, len: usize) -> (r: Vec<u8>)
    requires
        start + len <= data@.len(),
    ensures
        r@ == data@.subrange(start as int, start as int + len as int),
{
    let dn = data.len();
    let mut out: Vec<u8> = Vec::new();
    let mut i: usize = 0;
    while i < len
        invariant
            i <= len,
            dn == data@.len(),
            start + len <= dn,
            out@ == data@.subrange(start as int, start as int + i as int),
        decreases len - i,
    {
        out.push(data[start + i]);
        proof {
            assert(out@ =~= data@.subrange(start as int, start as int + i + 1));
        }
        i = i + 1;
    }
    out
}

impl<B: RegRw, W: Waiter> Rfm22<B, W> {
    /// Stream an arbitrary-length byte buffer out over the device FIFO:
    /// reset the FIFO, enable exactly the packet-sent and almost-empty
    /// interrupts and drain stale ones, load the first chunk, assert
    /// transmit-enable once, then feed one chunk per almost-empty event
    /// until the stream is exhausted and the packet-sent event arrives.
    /// A zero-length stream is a non-fatal no-op. A wait timeout is fatal
    /// for the transmission and surfaces to the caller.
    #[verifier::loop_isolation(false)]
    pub fn transmit_large(&mut self, data: &Vec<u8>) -> (r: Result<(), RfmError>)
        ensures
            data@.len() == 0 ==> (r matches Ok(_)) && *final(self) == *old(self),
            (r matches Ok(_) && data@.len() > 0) ==> transmit_key_ops(
                old(self).ops(),
                final(self).ops(),
                data@,
            ),
    {
        let n = data.len();
        if n == 0 {
            return Ok(());
        }
        proof {
            lemma_chunk_shape(data@);
            lemma_chunk_bounds(data@);
        }
        let first_len: usize = if n < FIFO_BURST {
            n
        } else {
            FIFO_BURST
        };
        let buf = copy_range(data, 0, first_len);
        match self.clear_tx_fifo() {
            Ok(_) => {},
            Err(e) => {
                return Err(e);
            },
        }
        let ghost t1 = self.regs.ops();
        match self.irq.set_enable(&mut self.regs, InterruptEnable1::of(ENPKSENT | ENTXFFAEM)) {
            Ok(_) => {},
            Err(e) => {
                return Err(e);
            },
        }
        proof {
            let w5 = RegOp::Write { reg: 0x05, val: (ENPKSENT | ENTXFFAEM) as u8 };
            let r5 = RegOp::Read { reg: 0x05, val: (ENPKSENT | ENTXFFAEM) as u8 };
            let w6 = RegOp::Write { reg: 0x06, val: 0 };
            let r6 = RegOp::Read { reg: 0x06, val: 0 };
            lemma_key_ops_push(t1, w5);
            lemma_key_ops_push(t1.push(w5), r5);
            lemma_key_ops_push(t1.push(w5).push(r5), w6);
            lemma_key_ops_push(t1.push(w5).push(r5).push(w6), r6);
            assert(key_ops(self.regs.ops()) =~= key_ops(old(self).ops()));
        }
        let ghost t2 = self.regs.ops();
        match self.irq.clear(&mut self.regs) {
            Ok(_) => {},
            Err(e) => {
                return Err(e);
            },
        }
        proof {
            lemma_key_ops_reads_only(t2, self.regs.ops());
        }
        let ghost t3 = self.regs.ops();
        match self.write_tx_fifo(&buf) {
            Ok(_) => {},
            Err(e) => {
                return Err(e);
            },
        }
        proof {
            lemma_key_ops_push(t3, RegOp::Burst { reg: 0x7f, data: buf@ });
            lemma_chunk_at(data@, 0);
            assert(buf@ == chunk_seq(data@)[0]);
        }
        let ghost t4 = self.regs.ops();
        match self.transmit() {
            Ok(_) => {},
            Err(e) => {
                return Err(e);
            },
        }
        let ghost txw = choose|w: RegOp|
            key_ops(self.regs.ops()) == key_ops(t4).push(w) && is_txon_write(w);
        proof {
            assert(key_ops(self.regs.ops()) =~= key_ops(old(self).ops()).push(
                fifo_burst(chunk_seq(data@)[0]),
            ).push(txw) + Seq::new(0, |i: int| fifo_burst(chunk_seq(data@)[i + 1])));
        }
        let mut cursor: usize = first_len;
        let ghost mut sent: int = 1;
        while cursor < n
            invariant
                cursor <= n,
                1 <= sent <= chunk_seq(data@).len(),
                cursor as int == if FIFO_BURST * sent < n {
                    FIFO_BURST * sent as int
                } else {
                    n as int
                },
                FIFO_BURST * (sent - 1) < n,
                (cursor == n) <==> (sent == chunk_seq(data@).len()),
                is_txon_write(txw),
                key_ops(self.regs.ops()) == key_ops(old(self).ops()).push(
                    fifo_burst(chunk_seq(data@)[0]),
                ).push(txw) + Seq::new(
                    (sent - 1) as nat,
                    |i: int| fifo_burst(chunk_seq(data@)[i + 1]),
                ),
            decreases n - cursor,
        {
            let ghost th = self.regs.ops();
            match self.irq.wait(&mut self.regs, InterruptStatus1::of(ITXFFAEM)) {
                Ok(_) => {},
                Err(e) => {
                    return Err(e);
                },
            }
            proof {
                lemma_key_ops_reads_only(th, self.regs.ops());
            }
            self.irq.handled(InterruptStatus1::of(ITXFFAEM));
            let m: usize = if n - cursor < FIFO_BURST {
                n - cursor
            } else {
                FIFO_BURST
            };
            let buf2 = copy_range(data, cursor, m);
            let ghost tb = self.regs.ops();
            match self.write_tx_fifo(&buf2) {
                Ok(_) => {},
                Err(e) => {
                    return Err(e);
                },
            }
            proof {
                lemma_key_ops_push(tb, RegOp::Burst { reg: 0x7f, data: buf2@ });
                lemma_chunk_at(data@, sent);
                assert(buf2@ == chunk_seq(data@)[sent]);
                let f = |i: int| fifo_burst(chunk_seq(data@)[i + 1]);
                assert(Seq::new(sent as nat, f) =~= Seq::new((sent - 1) as nat, f).push(
                    fifo_burst(chunk_seq(data@)[sent as int]),
                ));
                let stem = key_ops(old(self).ops()).push(fifo_burst(chunk_seq(data@)[0])).push(
                    txw,
                );
                assert((stem + Seq::new((sent - 1) as nat, f)).push(
                    fifo_burst(chunk_seq(data@)[sent as int]),
                ) =~= stem + Seq::new(sent as nat, f));
                sent = sent + 1;
            }
            cursor = cursor + m;
        }
        let ghost t5 = self.regs.ops();
        match self.irq.wait(&mut self.regs, InterruptStatus1::of(IPKSENT)) {
            Ok(_) => {},
            Err(e) => {
                return Err(e);
            },
        }
        proof {
            lemma_key_ops_reads_only(t5, self.regs.ops());
        }
        self.irq.handled(InterruptStatus1::of(IPKSENT));
        proof {
            let pk = key_ops(old(self).ops());
            let ks = key_ops(self.regs.ops());
            let chunks = chunk_seq(data@);
            assert(ks.take(pk.len() as int) =~= pk);
            assert forall|i: int| 1 <= i < chunks.len() implies ks[pk.len() + 1 + i] == fifo_burst(
                chunks[i],
            ) by {
                assert(ks[pk.len() + 1 + i] == Seq::new(
                    (chunks.len() - 1) as nat,
                    |j: int| fifo_burst(chunk_seq(data@)[j + 1]),
                )[i - 1]);
            }
        }
        Ok(())
    }

    /// Pack a bit sequence into bytes, MSB-first, zero-padding the final
    /// byte's low bits, and stream the result through the FIFO.
    pub fn transmit_bitstream(&mut self, bits: &Vec<bool>) -> (r: Result<(), RfmError>)
        ensures
            bits@.len() == 0 ==> (r matches Ok(_)) && *final(self) == *old(self),
            (r matches Ok(_) && bits@.len() > 0) ==> transmit_key_ops(
                old(self).ops(),
                final(self).ops(),
                spec_pack(bits@),
            ),
    {
        let bytes = pack_bits(bits);
        proof {
            if bits@.len() > 0 {
                vstd::arithmetic::div_mod::lemma_div_by_self(8);
                vstd::arithmetic::div_mod::lemma_div_is_ordered(8, (bits@.len() + 7) as int, 8);
            }
        }
        self.transmit_large(&bytes)
    }
}

impl Rfm22<FakeRegs, DummyWaiter> {
    /// A driver over the in-memory fake backend in dummy interrupt mode,
    /// for hardware-less operation.
    pub fn dummy() -> (r: Self)
        ensures
            r.ops() == Seq::<RegOp>::empty(),
            r.irq.spec_pending() == 0,
            r.irq.spec_enabled() == 0,
            r.irq.spec_dummy(),
    {
        Rfm22 { regs: Rfm22Regs::dummy(), irq: Rfm22IRQs::dummy() }
    }
}

impl FanPkt {
    /// Transmit this command: its repeated, expanded symbol stream,
    /// packed into bytes and streamed through the FIFO.
    pub fn transmit<B: RegRw, W: Waiter>(&self, rf: &mut Rfm22<B, W>) -> (r: Result<(), RfmError>)
        ensures
            r matches Ok(_) ==> transmit_key_ops(
                old(rf).ops(),
                final(rf).ops(),
                spec_pack(self.spec_symbols()),
            ),
    {
        let symbols = self.symbols();
        proof {
            let f = self.spec_frame();
            let nrep = self.spec_repeats();
            assert(spec_repeat_units(f, nrep) == spec_repeat_units(f, nrep - 1) + spec_unit(f));
            assert(spec_unit(f).len() > 0);
        }
        rf.transmit_bitstream(&symbols)
    }
}

} // verus!
