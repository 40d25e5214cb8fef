use vstd::prelude::*;

use crate::error::RfmError;
use crate::regs::CarrierFrequency0;
use crate::regs::CarrierFrequency1;
use crate::regs::FrequencyBandSelect;
use crate::regs::FrequencyOffset1;
use crate::regs::FrequencyOffset2;
use crate::regs::TxDataRate0;
use crate::regs::TxDataRate1;
use crate::regs::Rfm22Reg;
use crate::regs::HBSEL;

verus! {

/// The frequency band number selected for a carrier given in kHz:
/// `floor((MHz - 240) / 10)`.
pub open spec fn spec_band(freq_khz: u32) -> int {
    (freq_khz - 240000) / 10000
}

/// Whether the high-band divider applies: carriers at or above 480 MHz.
pub open spec fn spec_high_band(freq_khz: u32) -> bool {
    freq_khz >= 480000
}

/// The 16-bit carrier value before range checking, as an exact integer:
/// `(MHz / (20 if high band else 10) - (band + 24)) * 64000`, truncated
/// downward. Over kHz this is `(khz*32 - (band+24)*320000) / 5` in the low
/// band and `(khz*16 - (band+24)*320000) / 5` in the high band.
pub open spec fn spec_carrier_num(freq_khz: u32) -> int {
    let band = spec_band(freq_khz);
    if spec_high_band(freq_khz) {
        (freq_khz * 16 - (band + 24) * 320000) / 5
    } else {
        (freq_khz * 32 - (band + 24) * 320000) / 5
    }
}

/// The carrier frequencies the register set can express: the band number
/// fits its five-bit field and the carrier value fits sixteen bits.
pub open spec fn spec_freq_ok(freq_khz: u32) -> bool {
    &&& freq_khz >= 240000
    &&& spec_band(freq_khz) <= 31
    &&& 0 <= spec_carrier_num(freq_khz) <= 0xffff
}

/// The register values one carrier frequency decomposes into. The
/// frequency offset is fixed at zero: no fine-tuning is exposed.
#[derive(Clone, Copy, Debug, PartialEq, Eq, Structural)]
pub struct FreqRegs {
    pub band_select: FrequencyBandSelect,
    pub offset1: FrequencyOffset1,
    pub offset2: FrequencyOffset2,
    pub carrier1: CarrierFrequency1,
    pub carrier0: CarrierFrequency0,
}

/// Convert a carrier frequency in kHz into the band-select, offset and
/// carrier register values, rejecting any frequency whose band or carrier
/// value falls outside the representable range before anything is written.
pub fn frequency_registers(freq_khz: u32) -> (r: Result<FreqRegs, RfmError>)
    ensures
        (r matches Ok(_)) <==> spec_freq_ok(freq_khz),
        r matches Ok(fr) ==> {
            &&& fr.band_select.spec_bits() == (spec_band(freq_khz) as u8) | (
            if spec_high_band(freq_khz) {
                HBSEL
            } else {
                0
            })
            &&& fr.offset1.spec_bits() == 0
            &&& fr.offset2.spec_bits() == 0
            &&& fr.carrier1.spec_bits() == ((spec_carrier_num(freq_khz) as u16) >> 8u16) as u8
            &&& fr.carrier0.spec_bits() == (spec_carrier_num(freq_khz) as u16) as u8
        },
        r matches Err(e) ==> e == RfmError::OutOfRange,
{
    if freq_khz < 240000 {
        return Err(RfmError::OutOfRange);
    }
    let band32: u32 = (freq_khz - 240000) / 10000;
    if band32 > 31 {
        return Err(RfmError::OutOfRange);
    }
    let high = freq_khz >= 480000;
    let scaled: u64 = if high {
        freq_khz as u64 * 16
    } else {
        freq_khz as u64 * 32
    };
    let base: u64 = (band32 as u64 + 24) * 320000;
    if scaled < base {
        proof {
            let x: int = scaled - base;
            vstd::arithmetic::div_mod::lemma_fundamental_div_mod(x, 5);
            vstd::arithmetic::div_mod::lemma_mod_bound(x, 5);
        }
        return Err(RfmError::OutOfRange);
    }
    let carrier64: u64 = (scaled - base) / 5;
    if carrier64 > 0xffff {
        return Err(RfmError::OutOfRange);
    }
    let carrier: u16 = carrier64 as u16;
    proof {
        assert(carrier64 == spec_carrier_num(freq_khz));
    }
    let mut band_select = FrequencyBandSelect::from_band(band32 as u8);
    if high {
        band_select.insert_hbsel();
    }
    proof {
        if !high {
            let bs: u8 = band_select.spec_bits();
            assert(bs == bs | 0) by (bit_vector);
        }
        assert((0u16 >> 8u16) == 0u16) by (bit_vector);
    }
    Ok(
        FreqRegs {
            band_select,
            offset1: FrequencyOffset1::from_frequency_offset(0),
            offset2: FrequencyOffset2::from_frequency_offset(0),
            carrier1: CarrierFrequency1::from_carrier(carrier),
            carrier0: CarrierFrequency0::from_carrier(carrier),
        },
    )
}

/// The 16-bit TX data rate field for a rate in bits per second:
/// `floor(rate * 2^21 / 10^6)` below 30 kbit/s (where the scale bit is
/// required), `floor(rate * 2^16 / 10^6)` otherwise.
pub open spec fn spec_txdr(rate_hz: u32) -> int {
    if rate_hz < 30000 {
        rate_hz * 0x200000 / 1000000
    } else {
        rate_hz * 0x10000 / 1000000
    }
}

/// The data rates whose field value fits sixteen bits.
pub open spec fn spec_rate_ok(rate_hz: u32) -> bool {
    spec_txdr(rate_hz) <= 0xffff
}

/// The register values one TX data rate decomposes into. When `scale`
/// holds, the caller must set the data-rate scale bit in modulation mode
/// control 1 before or with writing the rate bytes.
#[derive(Clone, Copy, Debug, PartialEq, Eq, Structural)]
pub struct RateRegs {
    pub scale: bool,
    pub rate1: TxDataRate1,
    pub rate0: TxDataRate0,
}

/// Convert a TX data rate in bits per second into its register values,
/// rejecting any rate whose field value falls outside sixteen bits before
/// anything is written.
pub fn data_rate_registers(rate_hz: u32) -> (r: Result<RateRegs, RfmError>)
    ensures
        (r matches Ok(_)) <==> spec_rate_ok(rate_hz),
        r matches Ok(rr) ==> {
            &&& rr.scale == (rate_hz < 30000)
            &&& rr.rate1.spec_bits() == ((spec_txdr(rate_hz) as u16) >> 8u16) as u8
            &&& rr.rate0.spec_bits() == (spec_txdr(rate_hz) as u16) as u8
        },
        r matches Err(e) ==> e == RfmError::OutOfRange,
{
    let scale = rate_hz < 30000;
    let txdr64: u64 = if scale {
        rate_hz as u64 * 0x200000 / 1000000
    } else {
        rate_hz as u64 * 0x10000 / 1000000
    };
    if txdr64 > 0xffff {
        return Err(RfmError::OutOfRange);
    }
    let txdr: u16 = txdr64 as u16;
    Ok(RateRegs { scale, rate1: TxDataRate1::from_txdr(txdr), rate0: TxDataRate0::from_txdr(txdr) })
}

} // verus!
