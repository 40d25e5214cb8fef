use vstd::prelude::*;

use vstd::arithmetic::div_mod::lemma_fundamental_div_mod_converse;

verus! {

/// Bit `k` of `v`, with bit 0 the least significant.
pub open spec fn bit_of(v: u8, k: u8) -> bool {
    (v >> k) & 1 == 1
}

fn bit_get(v: u8, k: u8) -> (r: bool)
    requires
        k < 8,
    ensures
        r == bit_of(v, k),
{
    (v >> k) & 1 == 1
}

/// The four low bits of `n` in reverse order.
pub open spec fn spec_rev4(n: u8) -> u8 {
    (n & 0x8) >> 3u8 | (n & 0x4) >> 1u8 | (n & 0x2) << 1u8 | (n & 0x1) << 3u8
}

pub fn reverse_nibble(n: u8) -> (r: u8)
    ensures
        r == spec_rev4(n),
{
    (n & 0x8) >> 3u8 | (n & 0x4) >> 1u8 | (n & 0x2) << 1u8 | (n & 0x1) << 3u8
}

/// The five one-hot actions of the 12-bit command format.
#[derive(Clone, Copy, Debug, PartialEq, Eq, Structural)]
pub enum FanCmd12 {
    Light,
    FanHigh,
    FanMed,
    FanLow,
    FanOff,
}

impl FanCmd12 {
    /// The seven-bit one-hot action bitmask for this action.
    pub open spec fn spec_mask(self) -> u8 {
        match self {
            FanCmd12::Light => 0x01,
            FanCmd12::FanHigh => 0x20,
            FanCmd12::FanMed => 0x10,
            FanCmd12::FanLow => 0x08,
            FanCmd12::FanOff => 0x02,
        }
    }

    pub fn mask(self) -> (r: u8)
        ensures
            r == self.spec_mask(),
    {
        match self {
            FanCmd12::Light => 0x01,
            FanCmd12::FanHigh => 0x20,
            FanCmd12::FanMed => 0x10,
            FanCmd12::FanLow => 0x08,
            FanCmd12::FanOff => 0x02,
        }
    }
}

/// A simple 12-bit command: a 4-bit address and a 7-bit action value. The
/// codec treats the action field as an opaque 7-bit value, so round-trips
/// hold for every pattern, not just the five named actions.
#[derive(Clone, Copy, Debug, PartialEq, Eq, Structural)]
pub struct FanPkt12 {
    pub addr: u8,
    pub cmd: u8,
}

impl FanPkt12 {
    pub fn new(addr: u8, cmd: FanCmd12) -> (r: Self)
        requires
            addr < 16,
        ensures
            r.addr == addr,
            r.cmd == cmd.spec_mask(),
    {
        FanPkt12 { addr, cmd: cmd.mask() }
    }
}

/// Bit `i` of the 12-bit wire frame: a constant 1 marker, then the address
/// MSB-first, then the action MSB-first.
pub open spec fn spec_frame12_bit(addr: u8, cmd: u8, i: int) -> bool {
    if i == 0 {
        true
    } else if i <= 4 {
        bit_of(addr, (4 - i) as u8)
    } else {
        bit_of(cmd, (11 - i) as u8)
    }
}

/// The 12-bit wire frame of a simple command.
pub open spec fn spec_frame12(addr: u8, cmd: u8) -> Seq<bool> {
    Seq::new(12, |i: int| spec_frame12_bit(addr, cmd, i))
}

/// A cursor over the bits of a simple command's frame, in wire order.
#[derive(Clone, Copy, Debug, PartialEq, Eq, Structural)]
pub struct FanPkt12Bits {
    pub pkt: FanPkt12,
    pub count: u8,
}

impl FanPkt12Bits {
    pub fn new(pkt: &FanPkt12) -> (r: Self)
        ensures
            r.pkt == *pkt,
            r.count == 0,
    {
        FanPkt12Bits { pkt: *pkt, count: 0 }
    }

    /// The next frame bit, or `None` once all 12 bits are out.
    pub fn next(&mut self) -> (r: Option<bool>)
        ensures
            final(self).pkt == old(self).pkt,
            old(self).count < 12 ==> final(self).count == old(self).count + 1 && r == Some(
                spec_frame12_bit(old(self).pkt.addr, old(self).pkt.cmd, old(self).count as int),
            ),
            old(self).count >= 12 ==> final(self).count == old(self).count && r is None,
    {
        let c = self.count;
        if c >= 12 {
            return None;
        }
        let b: bool = if c == 0 {
            true
        } else if c <= 4 {
            bit_get(self.pkt.addr, 4 - c)
        } else {
            bit_get(self.pkt.cmd, 11 - c)
        };
        self.count = c + 1;
        Some(b)
    }
}

/// Serialize a simple command into its 12-bit frame.
pub fn encode_simple(addr: u8, action: u8) -> (r: Vec<bool>)
    ensures
        r@ == spec_frame12(addr, action),
{
    let mut out: Vec<bool> = Vec::new();
    let mut i: usize = 0;
    while i < 12
        invariant
            i <= 12,
            out@.len() == i,
            forall|j: int| 0 <= j < i ==> out@[j] == spec_frame12_bit(addr, action, j),
        decreases 12 - i,
    {
        let b: bool = if i == 0 {
            true
        } else if i <= 4 {
            bit_get(addr, (4 - i) as u8)
        } else {
            bit_get(action, (11 - i) as u8)
        };
        out.push(b);
        i = i + 1;
    }
    proof {
        assert(out@ =~= spec_frame12(addr, action));
    }
    out
}

/// The address a 12-bit frame carries, read MSB-first from bits 1 to 4.
pub open spec fn spec_decode12_addr(f: Seq<bool>) -> u8 {
    (((if f[1] {
        8int
    } else {
        0
    }) + (if f[2] {
        4int
    } else {
        0
    }) + (if f[3] {
        2int
    } else {
        0
    }) + (if f[4] {
        1int
    } else {
        0
    })) as u8)
}

/// The action value a 12-bit frame carries, read MSB-first from bits 5 to
/// 11.
pub open spec fn spec_decode12_cmd(f: Seq<bool>) -> u8 {
    (((if f[5] {
        64int
    } else {
        0
    }) + (if f[6] {
        32int
    } else {
        0
    }) + (if f[7] {
        16int
    } else {
        0
    }) + (if f[8] {
        8int
    } else {
        0
    }) + (if f[9] {
        4int
    } else {
        0
    }) + (if f[10] {
        2int
    } else {
        0
    }) + (if f[11] {
        1int
    } else {
        0
    })) as u8)
}

/// What decoding a candidate 12-bit frame yields: the address and action,
/// or nothing when the length or the leading marker bit is wrong.
pub open spec fn spec_decode12(f: Seq<bool>) -> Option<(u8, u8)> {
    if f.len() == 12 && f[0] {
        Some((spec_decode12_addr(f), spec_decode12_cmd(f)))
    } else {
        None
    }
}

/// Parse a 12-bit frame back into its address and action value.
#[verifier::rlimit(30)]
pub fn decode_simple(bits: &Vec<bool>) -> (r: Option<(u8, u8)>)
    ensures
        r == spec_decode12(bits@),
{
    if bits.len() != 12 {
        return None;
    }
    if !bits[0] {
        return None;
    }
    let addr: u8 = (if bits[1] {
        8u8
    } else {
        0
    }) + (if bits[2] {
        4
    } else {
        0
    }) + (if bits[3] {
        2
    } else {
        0
    }) + (if bits[4] {
        1
    } else {
        0
    });
    let cmd: u8 = (if bits[5] {
        64u8
    } else {
        0
    }) + (if bits[6] {
        32
    } else {
        0
    }) + (if bits[7] {
        16
    } else {
        0
    }) + (if bits[8] {
        8
    } else {
        0
    }) + (if bits[9] {
        4
    } else {
        0
    }) + (if bits[10] {
        2
    } else {
        0
    }) + (if bits[11] {
        1
    } else {
        0
    });
    Some((addr, cmd))
}

/// Encoding then decoding a simple command returns the address and action
/// unchanged, for every address in 0..=15 and every 7-bit action value.
pub proof fn lemma_simple_round_trip(addr: u8, action: u8)
    requires
        addr < 16,
        action < 128,
    ensures
        spec_decode12(spec_frame12(addr, action)) == Some((addr, action)),
{
    let f = spec_frame12(addr, action);
    assert(f.len() == 12 && f[0]);
    assert((addr >> 3) & 1 <= 1 && (addr >> 2) & 1 <= 1 && (addr >> 1) & 1 <= 1 && (addr >> 0) & 1
        <= 1) by (bit_vector);
    assert(8 * ((addr >> 3) & 1) + 4 * ((addr >> 2) & 1) + 2 * ((addr >> 1) & 1) + ((addr >> 0) & 1)
        == addr) by (bit_vector)
        requires
            addr < 16,
    ;
    assert(spec_decode12_addr(f) == addr);
    assert((action >> 6) & 1 <= 1 && (action >> 5) & 1 <= 1 && (action >> 4) & 1 <= 1 && (action
        >> 3) & 1 <= 1 && (action >> 2) & 1 <= 1 && (action >> 1) & 1 <= 1 && (action >> 0) & 1
        <= 1) by (bit_vector);
    assert(64 * ((action >> 6) & 1) + 32 * ((action >> 5) & 1) + 16 * ((action >> 4) & 1) + 8 * ((
    action >> 3) & 1) + 4 * ((action >> 2) & 1) + 2 * ((action >> 1) & 1) + ((action >> 0) & 1)
        == action) by (bit_vector)
        requires
            action < 128,
    ;
    assert(spec_decode12_cmd(f) == action);
}

/// The four fan states of the 21-bit dimmer format.
#[derive(Clone, Copy, Debug, PartialEq, Eq, Structural)]
pub enum FanState21 {
    Off,
    Low,
    Med,
    High,
}

impl FanState21 {
    /// The two-bit fan-state code of this state.
    pub open spec fn spec_code(self) -> u8 {
        match self {
            FanState21::Off => 0x3,
            FanState21::Low => 0x0,
            FanState21::Med => 0x1,
            FanState21::High => 0x2,
        }
    }

    pub fn code(self) -> (r: u8)
        ensures
            r == self.spec_code(),
    {
        match self {
            FanState21::Off => 0x3,
            FanState21::Low => 0x0,
            FanState21::Med => 0x1,
            FanState21::High => 0x2,
        }
    }
}

/// The brightness code for a brightness percentage: 63 is the reserved
/// "off" value for zero, every other percentage maps linearly into the
/// codes 19 to 62 (the physical receiver rejects codes below 19).
pub open spec fn spec_brightness_code(pct: u8) -> u8 {
    if pct == 0 {
        63
    } else {
        (19 + (43 * pct) / 100) as u8
    }
}

/// Compute the brightness code of a percentage in 0..=100.
pub fn brightness_code(pct: u8) -> (r: u8)
    requires
        pct <= 100,
    ensures
        r == spec_brightness_code(pct),
        r <= 63,
{
    if pct == 0 {
        63
    } else {
        let scaled: u16 = 43 * (pct as u16);
        let code: u16 = 19 + scaled / 100;
        proof {
            vstd::arithmetic::div_mod::lemma_div_is_ordered(scaled as int, 4300, 100);
        }
        code as u8
    }
}

pub proof fn lemma_nibbles_bound(x: u8)
    by (bit_vector)
    ensures
        x >> 4u8 <= 15,
        x & 0xf <= 15,
        x & 0xf == x % 16,
{
}

/// The dimmer checksum: the nibble sums of both data bytes plus 3, masked
/// to the low four bits.
pub open spec fn spec_checksum(data0: u8, data1: u8) -> u8 {
    ((((data0 >> 4u8) + (data0 & 0xf) + (data1 >> 4u8) + (data1 & 0xf) + 3) % 16) as u8)
}

/// Compute the dimmer checksum of the two data bytes.
pub fn checksum(data0: u8, data1: u8) -> (r: u8)
    ensures
        r == spec_checksum(data0, data1),
{
    proof {
        lemma_nibbles_bound(data0);
        lemma_nibbles_bound(data1);
    }
    let s: u8 = (data0 >> 4u8) + (data0 & 0xf) + (data1 >> 4u8) + (data1 & 0xf) + 3;
    proof {
        lemma_nibbles_bound(s);
    }
    s & 0xf
}

/// The first data byte of a dimmer frame: three fixed high bits, the
/// reversed address, and a fixed low marker bit.
pub open spec fn spec_data0(addr: u8) -> u8 {
    0xE0 | (spec_rev4(addr) << 1u8) | 1
}

/// The second data byte of a dimmer frame: the brightness code over the
/// two-bit fan-state code.
pub open spec fn spec_data1(pct: u8, fan: FanState21) -> u8 {
    (spec_brightness_code(pct) << 2u8) | fan.spec_code()
}

/// A dimmer command, already serialized to its two data bytes and
/// checksum.
#[derive(Clone, Copy, Debug, PartialEq, Eq, Structural)]
pub struct FanPkt21 {
    pub data0: u8,
    pub data1: u8,
    pub chksum: u8,
}

impl FanPkt21 {
    /// Build a dimmer command from an address in 0..=15, a brightness
    /// percentage in 0..=100 and a fan state.
    pub fn new(addr: u8, brightness_pct: u8, fan: FanState21) -> (r: Self)
        requires
            addr < 16,
            brightness_pct <= 100,
        ensures
            r.data0 == spec_data0(addr),
            r.data1 == spec_data1(brightness_pct, fan),
            r.chksum == spec_checksum(spec_data0(addr), spec_data1(brightness_pct, fan)),
    {
        let data0: u8 = 0xE0 | (reverse_nibble(addr) << 1u8) | 1;
        let data1: u8 = (brightness_code(brightness_pct) << 2u8) | fan.code();
        let chksum = checksum(data0, data1);
        FanPkt21 { data0, data1, chksum }
    }
}

/// Bit `i` of the 21-bit wire frame: both data bytes MSB-first, a constant
/// 1, then the four checksum bits MSB-first.
pub open spec fn spec_frame21_bit(p: FanPkt21, i: int) -> bool {
    if i < 8 {
        bit_of(p.data0, (7 - i) as u8)
    } else if i < 16 {
        bit_of(p.data1, (15 - i) as u8)
    } else if i == 16 {
        true
    } else {
        bit_of(p.chksum, (20 - i) as u8)
    }
}

/// The 21-bit wire frame of a dimmer command.
pub open spec fn spec_frame21(p: FanPkt21) -> Seq<bool> {
    Seq::new(21, |i: int| spec_frame21_bit(p, i))
}

/// A cursor over the bits of a dimmer command's frame, in wire order.
#[derive(Clone, Copy, Debug, PartialEq, Eq, Structural)]
pub struct FanPkt21Bits {
    pub pkt: FanPkt21,
    pub count: u8,
}

impl FanPkt21Bits {
    pub fn new(pkt: &FanPkt21) -> (r: Self)
        ensures
            r.pkt == *pkt,
            r.count == 0,
    {
        FanPkt21Bits { pkt: *pkt, count: 0 }
    }

    /// The next frame bit, or `None` once all 21 bits are out.
    pub fn next(&mut self) -> (r: Option<bool>)
        ensures
            final(self).pkt == old(self).pkt,
            old(self).count < 21 ==> final(self).count == old(self).count + 1 && r == Some(
                spec_frame21_bit(old(self).pkt, old(self).count as int),
            ),
            old(self).count >= 21 ==> final(self).count == old(self).count && r is None,
    {
        let c = self.count;
        if c >= 21 {
            return None;
        }
        let b: bool = if c < 8 {
            bit_get(self.pkt.data0, 7 - c)
        } else if c < 16 {
            bit_get(self.pkt.data1, 15 - c)
        } else if c == 16 {
            true
        } else {
            bit_get(self.pkt.chksum, 20 - c)
        };
        self.count = c + 1;
        Some(b)
    }
}

impl FanPkt21 {
    /// Serialize this dimmer command into its 21-bit frame.
    pub fn bits(&self) -> (r: Vec<bool>)
        ensures
            r@ == spec_frame21(*self),
    {
        let mut out: Vec<bool> = Vec::new();
        let mut it = FanPkt21Bits::new(self);
        while it.count < 21
            invariant
                it.pkt == *self,
                it.count <= 21,
                out@.len() == it.count,
                forall|j: int| 0 <= j < it.count ==> out@[j] == spec_frame21_bit(*self, j),
            decreases 21 - it.count,
        {
            match it.next() {
                Some(b) => {
                    out.push(b);
                },
                None => {
                },
            }
        }
        proof {
            assert(out@ =~= spec_frame21(*self));
        }
        out
    }
}

/// The address embedded in a dimmer frame, read back LSB-first from the
/// reversed-address field at bits 3 to 6.
pub open spec fn spec_decode21_addr(f: Seq<bool>) -> u8 {
    (((if f[3] {
        1int
    } else {
        0
    }) + (if f[4] {
        2int
    } else {
        0
    }) + (if f[5] {
        4int
    } else {
        0
    }) + (if f[6] {
        8int
    } else {
        0
    })) as u8)
}

/// The dimmer frame of any address with fan state Off and zero brightness
/// is exactly 21 bits; its three leading bits decode as 1, 1, 1; and its
/// embedded address field decodes back to the original address.
pub proof fn lemma_dimmer_frame_structure(addr: u8)
    requires
        addr < 16,
    ensures
        ({
            let p = FanPkt21 {
                data0: spec_data0(addr),
                data1: spec_data1(0, FanState21::Off),
                chksum: spec_checksum(spec_data0(addr), spec_data1(0, FanState21::Off)),
            };
            let f = spec_frame21(p);
            &&& f.len() == 21
            &&& f[0] && f[1] && f[2]
            &&& spec_decode21_addr(f) == addr
        }),
{
    let d0 = spec_data0(addr);
    assert((d0 >> 7u8) & 1 == 1 && (d0 >> 6u8) & 1 == 1 && (d0 >> 5u8) & 1 == 1) by (bit_vector)
        requires
            d0 == (0xE0u8 | (spec_rev4(addr) << 1u8) | 1u8),
    ;
    assert((d0 >> 4u8) & 1 <= 1 && (d0 >> 3u8) & 1 <= 1 && (d0 >> 2u8) & 1 <= 1 && (d0 >> 1u8) & 1
        <= 1) by (bit_vector);
    assert(1 * ((d0 >> 4u8) & 1) + 2 * ((d0 >> 3u8) & 1) + 4 * ((d0 >> 2u8) & 1) + 8 * ((d0 >> 1u8)
        & 1) == addr) by (bit_vector)
        requires
            addr < 16,
            d0 == (0xE0u8 | (spec_rev4(addr) << 1u8) | 1u8),
    ;
}

/// The physical-layer expansion of a bit sequence: every bit becomes three
/// symbols — the bit's own value, a constant 1, a constant 0 — giving the
/// fixed-duty-cycle line code the receiver expects.
pub open spec fn spec_expand(bits: Seq<bool>) -> Seq<bool> {
    Seq::new(
        bits.len() * 3,
        |i: int|
            if i % 3 == 0 {
                bits[i / 3]
            } else {
                i % 3 == 1
            },
    )
}

proof fn lemma_pos3(i: int)
    requires
        0 <= i,
    ensures
        (3 * i) % 3 == 0,
        (3 * i) / 3 == i,
        (3 * i + 1) % 3 == 1,
        (3 * i + 1) / 3 == i,
        (3 * i + 2) % 3 == 2,
        (3 * i + 2) / 3 == i,
{
    lemma_fundamental_div_mod_converse(3 * i, 3, i, 0);
    lemma_fundamental_div_mod_converse(3 * i + 1, 3, i, 1);
    lemma_fundamental_div_mod_converse(3 * i + 2, 3, i, 2);
}

/// Expand a bit sequence 3-for-1 into its line symbols.
pub fn expand(bits: &Vec<bool>) -> (r: Vec<bool>)
    ensures
        r@ == spec_expand(bits@),
{
    let mut out: Vec<bool> = Vec::new();
    let mut i: usize = 0;
    while i < bits.len()
        invariant
            i <= bits@.len(),
            out@.len() == 3 * i,
            out@ == spec_expand(bits@).take(3 * i),
        decreases bits@.len() - i,
    {
        out.push(bits[i]);
        out.push(true);
        out.push(false);
        proof {
            lemma_pos3(i as int);
            assert(out@ =~= spec_expand(bits@).take(3 * (i + 1)));
        }
        i = i + 1;
    }
    proof {
        assert(out@ =~= spec_expand(bits@));
    }
    out
}

/// A streaming adapter from a data bit sequence to its 3-symbols-per-bit
/// line code, one symbol per call.
#[derive(Clone, Debug)]
pub struct FanExpand {
    pub bits: Vec<bool>,
    pub idx: usize,
    pub phase: u8,
}

impl FanExpand {
    /// The cursor is inside the symbol stream: mid-bit phases only occur
    /// while a data bit is being expanded.
    pub open spec fn wf(&self) -> bool {
        &&& self.phase <= 2
        &&& if self.phase == 0 {
            self.idx <= self.bits@.len()
        } else {
            self.idx < self.bits@.len()
        }
    }

    pub fn new(bits: Vec<bool>) -> (r: Self)
        ensures
            r.bits == bits,
            r.idx == 0,
            r.phase == 0,
            r.wf(),
    {
        FanExpand { bits, idx: 0, phase: 0 }
    }

    /// The next line symbol, or `None` once every bit is expanded.
    pub fn next(&mut self) -> (r: Option<bool>)
        requires
            old(self).wf(),
        ensures
            final(self).wf(),
            final(self).bits == old(self).bits,
            ({
                let p = 3 * old(self).idx + old(self).phase;
                let n = 3 * old(self).bits@.len();
                if p < n {
                    &&& r == Some(spec_expand(old(self).bits@)[p as int])
                    &&& 3 * final(self).idx + final(self).phase == p + 1
                } else {
                    &&& r is None
                    &&& *final(self) == *old(self)
                }
            }),
    {
        proof {
            lemma_pos3(self.idx as int);
        }
        if self.phase == 0 {
            if self.idx < self.bits.len() {
                let b = self.bits[self.idx];
                self.phase = 1;
                Some(b)
            } else {
                None
            }
        } else if self.phase == 1 {
            self.phase = 2;
            Some(true)
        } else {
            self.phase = 0;
            if self.idx < self.bits.len() {
                self.idx = self.idx + 1;
            }
            Some(false)
        }
    }
}

pub open spec fn bit_term(bits: Seq<bool>, p: int, m: int) -> int {
    if 0 <= p < bits.len() && bits[p] {
        m
    } else {
        0
    }
}

/// Byte `j` of the packed form: eight bits MSB-first, with missing bits
/// past the end of the sequence packed as zeros in the low positions.
pub open spec fn spec_byte_of(bits: Seq<bool>, j: int) -> u8 {
    ((bit_term(bits, 8 * j, 0x80) + bit_term(bits, 8 * j + 1, 0x40) + bit_term(
        bits,
        8 * j + 2,
        0x20,
    ) + bit_term(bits, 8 * j + 3, 0x10) + bit_term(bits, 8 * j + 4, 0x8) + bit_term(
        bits,
        8 * j + 5,
        0x4,
    ) + bit_term(bits, 8 * j + 6, 0x2) + bit_term(bits, 8 * j + 7, 0x1)) as u8)
}

/// The packed byte form of a bit sequence: MSB-first, eight bits per byte,
/// the final partial group zero-padded in the low bits. No bits are
/// dropped.
pub open spec fn spec_pack(bits: Seq<bool>) -> Seq<u8> {
    Seq::new((bits.len() + 7) / 8, |j: int| spec_byte_of(bits, j))
}

/// Pack a bit sequence into bytes, MSB-first, zero-padding the last byte.
pub fn pack_bits(bits: &Vec<bool>) -> (r: Vec<u8>)
    ensures
        r@ == spec_pack(bits@),
{
    let n = bits.len();
    let mut out: Vec<u8> = Vec::new();
    let mut base: usize = 0;
    while base < n
        invariant
            n == bits@.len(),
            base <= n,
            base < n ==> base == 8 * out@.len(),
            base == n ==> n <= 8 * out@.len() < n + 8,
            out@ == spec_pack(bits@).take(out@.len() as int),
        decreases n - base,
    {
        let mut val: u8 = 0;
        if bits[base] {
            val = val + 0x80;
        }
        if base + 1 < n {
            if bits[base + 1] {
                val = val + 0x40;
            }
        }
        if base + 2 < n {
            if bits[base + 2] {
                val = val + 0x20;
            }
        }
        if base + 3 < n {
            if bits[base + 3] {
                val = val + 0x10;
            }
        }
        if base + 4 < n {
            if bits[base + 4] {
                val = val + 0x8;
            }
        }
        if base + 5 < n {
            if bits[base + 5] {
                val = val + 0x4;
            }
        }
        if base + 6 < n {
            if bits[base + 6] {
                val = val + 0x2;
            }
        }
        if base + 7 < n {
            if bits[base + 7] {
                val = val + 0x1;
            }
        }
        proof {
            assert(val == spec_byte_of(bits@, out@.len() as int));
            lemma_fundamental_div_mod_converse((n + 7) as int, 8, (n + 7) / 8, (n + 7) % 8);
        }
        out.push(val);
        if n - base < 8 {
            base = n;
        } else {
            base = base + 8;
        }
        proof {
            assert(out@ =~= spec_pack(bits@).take(out@.len() as int));
        }
    }
    proof {
        if n > 0 {
            lemma_fundamental_div_mod_converse(
                (n + 7) as int,
                8,
                out@.len() as int,
                (n + 7) - 8 * out@.len(),
            );
        }
        assert(out@ =~= spec_pack(bits@));
    }
    out
}


/// Packing drops no bits: every input bit reappears at its position in
/// the packed bytes — bit `i` of the stream is bit `7 - (i % 8)` of byte
/// `i / 8`, MSB-first.
pub proof fn lemma_pack_preserves_bits(bits: Seq<bool>, i: int)
    requires
        0 <= i < bits.len(),
    ensures
        0 <= i / 8 < spec_pack(bits).len(),
        bit_of(spec_pack(bits)[i / 8], (7 - (i % 8)) as u8) == bits[i],
{
    let j = i / 8;
    let k = i % 8;
    vstd::arithmetic::div_mod::lemma_fundamental_div_mod(i, 8);
    vstd::arithmetic::div_mod::lemma_mod_bound(i, 8);
    assert(spec_pack(bits).len() > j) by {
        vstd::arithmetic::div_mod::lemma_div_pos_is_pos(i, 8);
        vstd::arithmetic::div_mod::lemma_div_is_ordered(8 * j + 8, bits.len() as int + 7, 8);
        vstd::arithmetic::div_mod::lemma_fundamental_div_mod_converse(8 * j + 8, 8, j + 1, 0);
    }
    let u0: u8 = bit_term(bits, 8 * j, 0x80) as u8;
    let u1: u8 = bit_term(bits, 8 * j + 1, 0x40) as u8;
    let u2: u8 = bit_term(bits, 8 * j + 2, 0x20) as u8;
    let u3: u8 = bit_term(bits, 8 * j + 3, 0x10) as u8;
    let u4: u8 = bit_term(bits, 8 * j + 4, 0x8) as u8;
    let u5: u8 = bit_term(bits, 8 * j + 5, 0x4) as u8;
    let u6: u8 = bit_term(bits, 8 * j + 6, 0x2) as u8;
    let u7: u8 = bit_term(bits, 8 * j + 7, 0x1) as u8;
    let b: u8 = spec_pack(bits)[j];
    assert(b == u0 + u1 + u2 + u3 + u4 + u5 + u6 + u7);
    assert((b & 0x80 == u0) && (b & 0x40 == u1) && (b & 0x20 == u2) && (b & 0x10 == u3) && (b & 0x8
        == u4) && (b & 0x4 == u5) && (b & 0x2 == u6) && (b & 0x1 == u7)) by (bit_vector)
        requires
            b == u0 + u1 + u2 + u3 + u4 + u5 + u6 + u7,
            u0 == 0 || u0 == 0x80,
            u1 == 0 || u1 == 0x40,
            u2 == 0 || u2 == 0x20,
            u3 == 0 || u3 == 0x10,
            u4 == 0 || u4 == 0x8,
            u5 == 0 || u5 == 0x4,
            u6 == 0 || u6 == 0x2,
            u7 == 0 || u7 == 0x1,
    ;
    assert((((b >> 7u8) & 1 == 1) == (b & 0x80 != 0)) && (((b >> 6u8) & 1 == 1) == (b & 0x40 != 0))
        && (((b >> 5u8) & 1 == 1) == (b & 0x20 != 0)) && (((b >> 4u8) & 1 == 1) == (b & 0x10 != 0))
        && (((b >> 3u8) & 1 == 1) == (b & 0x8 != 0)) && (((b >> 2u8) & 1 == 1) == (b & 0x4 != 0))
        && (((b >> 1u8) & 1 == 1) == (b & 0x2 != 0)) && (((b >> 0u8) & 1 == 1) == (b & 0x1
        != 0))) by (bit_vector);
}

/// The inter-command pause: 33 off symbols, an 11 ms gap at the 1/3 ms
/// symbol period.
pub open spec fn spec_pause() -> Seq<bool> {
    Seq::new(33, |i: int| false)
}

/// One repeat unit of a command: a constant 0 start bit prefixed to the
/// frame, everything expanded 3-for-1, then the 33-symbol pause.
pub open spec fn spec_unit(frame: Seq<bool>) -> Seq<bool> {
    spec_expand(seq![false] + frame) + spec_pause()
}

/// `n` repeat units back to back, with no additional gap.
pub open spec fn spec_repeat_units(frame: Seq<bool>, n: int) -> Seq<bool>
    decreases n,
{
    if n <= 0 {
        Seq::empty()
    } else {
        spec_repeat_units(frame, n - 1) + spec_unit(frame)
    }
}

/// Build one repeat unit of a frame: start bit, expansion, pause.
pub fn unit_symbols(frame: &Vec<bool>) -> (r: Vec<bool>)
    ensures
        r@ == spec_unit(frame@),
{
    let mut with_start: Vec<bool> = Vec::new();
    with_start.push(false);
    let mut i: usize = 0;
    while i < frame.len()
        invariant
            i <= frame@.len(),
            with_start@ == seq![false] + frame@.take(i as int),
        decreases frame@.len() - i,
    {
        with_start.push(frame[i]);
        proof {
            assert(with_start@ =~= seq![false] + frame@.take(i + 1));
        }
        i = i + 1;
    }
    proof {
        assert(frame@.take(frame@.len() as int) =~= frame@);
    }
    let mut out = expand(&with_start);
    let mut k: usize = 0;
    while k < 33
        invariant
            k <= 33,
            out@ == spec_expand(seq![false] + frame@) + spec_pause().take(k as int),
        decreases 33 - k,
    {
        out.push(false);
        proof {
            assert(out@ =~= spec_expand(seq![false] + frame@) + spec_pause().take(k + 1));
        }
        k = k + 1;
    }
    proof {
        assert(spec_pause().take(33) =~= spec_pause());
    }
    out
}

/// Build a command's whole transmission: its repeat unit sent `count`
/// times back to back. Repetition is the only reliability mechanism on
/// this unacknowledged link.
pub fn command_symbols(frame: &Vec<bool>, count: usize) -> (r: Vec<bool>)
    ensures
        r@ == spec_repeat_units(frame@, count as int),
{
    let unit = unit_symbols(frame);
    let mut out: Vec<bool> = Vec::new();
    let mut c: usize = 0;
    while c < count
        invariant
            c <= count,
            unit@ == spec_unit(frame@),
            out@ == spec_repeat_units(frame@, c as int),
        decreases count - c,
    {
        let mut i: usize = 0;
        while i < unit.len()
            invariant
                i <= unit@.len(),
                unit@ == spec_unit(frame@),
                out@ == spec_repeat_units(frame@, c as int) + unit@.take(i as int),
            decreases unit@.len() - i,
        {
            out.push(unit[i]);
            proof {
                assert(out@ =~= spec_repeat_units(frame@, c as int) + unit@.take(i + 1));
            }
            i = i + 1;
        }
        proof {
            assert(unit@.take(unit@.len() as int) =~= unit@);
            assert(out@ == spec_repeat_units(frame@, c + 1));
        }
        c = c + 1;
    }
    out
}

/// A complete remote-control command of either wire format.
#[derive(Clone, Copy, Debug, PartialEq, Eq, Structural)]
pub enum FanPkt {
    Dumb(FanPkt12),
    Smart(FanPkt21),
}

impl FanPkt {
    /// The command's wire frame.
    pub open spec fn spec_frame(self) -> Seq<bool> {
        match self {
            FanPkt::Dumb(p) => spec_frame12(p.addr, p.cmd),
            FanPkt::Smart(p) => spec_frame21(p),
        }
    }

    /// How many times the repeat unit is sent: 20 for simple commands, 30
    /// for dimmer commands.
    pub open spec fn spec_repeats(self) -> int {
        match self {
            FanPkt::Dumb(_) => 20,
            FanPkt::Smart(_) => 30,
        }
    }

    /// The whole symbol stream one transmission of this command puts on
    /// the air.
    pub open spec fn spec_symbols(self) -> Seq<bool> {
        spec_repeat_units(self.spec_frame(), self.spec_repeats())
    }

    pub fn repeats(&self) -> (r: usize)
        ensures
            r as int == self.spec_repeats(),
    {
        match self {
            FanPkt::Dumb(_) => 20,
            FanPkt::Smart(_) => 30,
        }
    }

    /// Serialize the command's frame.
    pub fn frame_bits(&self) -> (r: Vec<bool>)
        ensures
            r@ == self.spec_frame(),
    {
        match self {
            FanPkt::Dumb(p) => encode_simple(p.addr, p.cmd),
            FanPkt::Smart(p) => p.bits(),
        }
    }

    /// Build the command's whole symbol stream.
    pub fn symbols(&self) -> (r: Vec<bool>)
        ensures
            r@ == self.spec_symbols(),
    {
        let frame = self.frame_bits();
        command_symbols(&frame, self.repeats())
    }
}

} // verus!
