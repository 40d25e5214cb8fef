//! A driver for a sub-GHz register-addressable radio transceiver that
//! reproduces a one-way ceiling-fan remote-control RF protocol: a typed,
//! verified register-access layer over the chip's byte-addressed register
//! space, interrupt-bit accounting with bounded waits, a FIFO streaming
//! engine that cuts an arbitrarily long byte stream into chip-sized
//! bursts, the frequency and data-rate register math, and the bit-level
//! packet codec for the two remote-control wire formats and their
//! physical-layer framing and repetition scheme.
//!
//! The raw transports stay behind two small traits — a register bus and a
//! blocking waiter — so the same verified driver runs over real SPI and
//! GPIO handles or over the in-memory fake backend for hardware-less use.

use vstd::prelude::*;

mod backend;
mod codec;
mod device;
mod engine;
mod error;
mod irq;
mod planner;
mod regs;

pub use backend::fake_burst_mem;
pub use backend::lemma_reads_only_push_read;
pub use backend::lemma_reads_only_refl;
pub use backend::lemma_reads_only_trans;
pub use backend::reads_only_extension;
pub use backend::FakeRegs;
pub use backend::LogRec;
pub use backend::RegLogger;
pub use backend::RegOp;
pub use backend::RegRw;
pub use codec::bit_of;
pub use codec::bit_term;
pub use codec::brightness_code;
pub use codec::checksum;
pub use codec::command_symbols;
pub use codec::decode_simple;
pub use codec::encode_simple;
pub use codec::expand;
pub use codec::lemma_dimmer_frame_structure;
pub use codec::lemma_nibbles_bound;
pub use codec::lemma_pack_preserves_bits;
pub use codec::lemma_simple_round_trip;
pub use codec::pack_bits;
pub use codec::reverse_nibble;
pub use codec::spec_brightness_code;
pub use codec::spec_byte_of;
pub use codec::spec_checksum;
pub use codec::spec_data0;
pub use codec::spec_data1;
pub use codec::spec_decode12;
pub use codec::spec_decode12_addr;
pub use codec::spec_decode12_cmd;
pub use codec::spec_decode21_addr;
pub use codec::spec_expand;
pub use codec::spec_frame12;
pub use codec::spec_frame12_bit;
pub use codec::spec_frame21;
pub use codec::spec_frame21_bit;
pub use codec::spec_pack;
pub use codec::spec_pause;
pub use codec::spec_repeat_units;
pub use codec::spec_rev4;
pub use codec::spec_unit;
pub use codec::unit_symbols;
pub use codec::FanCmd12;
pub use codec::FanExpand;
pub use codec::FanPkt;
pub use codec::FanPkt12;
pub use codec::FanPkt12Bits;
pub use codec::FanPkt21;
pub use codec::FanPkt21Bits;
pub use codec::FanState21;
pub use device::modify_ops;
pub use device::modify_verify_ops;
pub use device::write_validate_ops;
pub use device::Rfm22Regs;
pub use engine::chunk_seq;
pub use engine::concat_chunks;
pub use engine::fifo_burst;
pub use engine::is_key_op;
pub use engine::is_txon_write;
pub use engine::key_ops;
pub use engine::lemma_chunk_at;
pub use engine::lemma_chunk_bounds;
pub use engine::lemma_chunk_shape;
pub use engine::lemma_fifo_chunking;
pub use engine::lemma_key_ops_push;
pub use engine::lemma_key_ops_reads_only;
pub use engine::rate_byte_ops;
pub use engine::rate_scale_ops;
pub use engine::spec_freq_ops;
pub use engine::spec_rate_ops;
pub use engine::spec_scale_bit;
pub use engine::transmit_key_ops;
pub use engine::Rfm22;
pub use engine::FIFO_BURST;
pub use engine::FIFO_MARGIN;
pub use engine::FIFO_SIZE;
pub use error::RfmError;
pub use irq::lemma_poll_accumulate_masks;
pub use irq::poll_accumulate;
pub use irq::DummyWaiter;
pub use irq::Rfm22IRQs;
pub use irq::Waiter;
pub use irq::DUMMY_POLL_BITS;
pub use irq::MAX_WAIT_POLLS;
pub use planner::data_rate_registers;
pub use planner::frequency_registers;
pub use planner::spec_band;
pub use planner::spec_carrier_num;
pub use planner::spec_freq_ok;
pub use planner::spec_high_band;
pub use planner::spec_rate_ok;
pub use planner::spec_txdr;
pub use planner::FreqRegs;
pub use planner::RateRegs;
pub use regs::CarrierFrequency0;
pub use regs::CarrierFrequency1;
pub use regs::DataAccessControl;
pub use regs::DataSource;
pub use regs::FrequencyBandSelect;
pub use regs::FrequencyOffset1;
pub use regs::FrequencyOffset2;
pub use regs::HeaderControl2;
pub use regs::InterruptEnable1;
pub use regs::InterruptEnable2;
pub use regs::InterruptStatus1;
pub use regs::InterruptStatus2;
pub use regs::ModulationModeControl1;
pub use regs::ModulationModeControl2;
pub use regs::ModulationType;
pub use regs::OperatingFunctionControl1;
pub use regs::OperatingFunctionControl2;
pub use regs::Rfm22Reg;
pub use regs::Rfm22RegVal;
pub use regs::RfmReg;
pub use regs::TxDataRate0;
pub use regs::TxDataRate1;
pub use regs::TxPower;
pub use regs::DTMOD0;
pub use regs::DTMOD1;
pub use regs::ENPKSENT;
pub use regs::ENTXFFAEM;
pub use regs::FFCLRTX;
pub use regs::HBSEL;
pub use regs::IPKSENT;
pub use regs::ITXFFAEM;
pub use regs::MODTYP0;
pub use regs::MODTYP1;
pub use regs::PLLON;
pub use regs::SKIPSYN;
pub use regs::TXDRTSCALE;
pub use regs::TXON;
pub use regs::TXPOW0;
pub use regs::TXPOW1;
pub use regs::TXPOW2;
pub use regs::XTON;

verus! {

} // verus!
