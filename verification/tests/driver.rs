use rfm22_fan::DataAccessControl;
use rfm22_fan::DataSource;
use rfm22_fan::DummyWaiter;
use rfm22_fan::FakeRegs;
use rfm22_fan::FanCmd12;
use rfm22_fan::FanPkt;
use rfm22_fan::FanPkt12;
use rfm22_fan::HeaderControl2;
use rfm22_fan::InterruptEnable1;
use rfm22_fan::InterruptStatus1;
use rfm22_fan::LogRec;
use rfm22_fan::ModulationType;
use rfm22_fan::Rfm22;
use rfm22_fan::Rfm22IRQs;
use rfm22_fan::Rfm22Reg;
use rfm22_fan::Rfm22RegVal;
use rfm22_fan::Rfm22Regs;
use rfm22_fan::TxPower;
use rfm22_fan::RfmError;
use rfm22_fan::ENPKSENT;
use rfm22_fan::IPKSENT;
use rfm22_fan::ITXFFAEM;
use rfm22_fan::SKIPSYN;

#[test]
fn frequency_registers_for_known_carrier() {
    // 303.8 MHz: band floor((303.8 - 240) / 10) == 6, low band, and the
    // carrier value (303.8 / 10 - 30) * 64000 == 24320 == 0x5F00.
    let fr = rfm22_fan::frequency_registers(303800).unwrap();
    assert_eq!(fr.band_select.bits, 6);
    assert_eq!(fr.offset1.bits, 0);
    assert_eq!(fr.offset2.bits, 0);
    assert_eq!(fr.carrier1.bits, 0x5F);
    assert_eq!(fr.carrier0.bits, 0x00);
}

#[test]
fn frequency_registers_rejects_band_out_of_range() {
    // 560 MHz gives band 32, above the five-bit field.
    assert_eq!(rfm22_fan::frequency_registers(560000), Err(RfmError::OutOfRange));
    // Below the bottom of the band table.
    assert_eq!(rfm22_fan::frequency_registers(100000), Err(RfmError::OutOfRange));
}

#[test]
fn data_rate_registers_for_known_rate() {
    // 3000 bit/s is below 30 kbit/s: scale bit needed, and
    // floor(3000 * 2^21 / 10^6) == 6291 == 0x1893.
    let rr = rfm22_fan::data_rate_registers(3000).unwrap();
    assert!(rr.scale);
    assert_eq!(rr.rate1.bits, 0x18);
    assert_eq!(rr.rate0.bits, 0x93);
}

#[test]
fn data_rate_registers_rejects_field_overflow() {
    assert_eq!(rfm22_fan::data_rate_registers(1_000_000), Err(RfmError::OutOfRange));
}

#[test]
fn tx_power_out_of_range_is_rejected() {
    let mut rf = Rfm22::dummy();
    assert_eq!(rf.set_tx_power(8), Err(RfmError::OutOfRange));
    assert_eq!(rf.set_tx_power(3), Ok(()));
}

#[test]
fn interrupt_accounting_masks_disabled_sources() {
    let mut regs = Rfm22Regs::new(FakeRegs::new());
    let mut irq = Rfm22IRQs::new(DummyWaiter::new(4));
    irq.set_enable(&mut regs, InterruptEnable1::of(ENPKSENT)).unwrap();
    // Hardware reports both packet-sent and FIFO-almost-empty asserted.
    regs.write(InterruptStatus1::of(IPKSENT | ITXFFAEM)).unwrap();
    let pnd = irq.poll(&mut regs).unwrap();
    assert!(pnd.contains(InterruptStatus1::of(IPKSENT)));
    assert!(!pnd.contains(InterruptStatus1::of(ITXFFAEM)));
}

#[test]
fn stale_pending_is_dropped_when_source_is_disabled() {
    let mut regs = Rfm22Regs::new(FakeRegs::new());
    let mut irq = Rfm22IRQs::new(DummyWaiter::new(4));
    irq.set_enable(&mut regs, InterruptEnable1::of(ENPKSENT | rfm22_fan::ENTXFFAEM)).unwrap();
    regs.write(InterruptStatus1::of(IPKSENT | ITXFFAEM)).unwrap();
    let pnd = irq.poll(&mut regs).unwrap();
    assert!(pnd.contains(InterruptStatus1::of(ITXFFAEM)));
    // Disabling the almost-empty source drops its stale pending bit.
    irq.set_enable(&mut regs, InterruptEnable1::of(ENPKSENT)).unwrap();
    regs.write(InterruptStatus1::of(0)).unwrap();
    let pnd = irq.poll(&mut regs).unwrap();
    assert!(pnd.contains(InterruptStatus1::of(IPKSENT)));
    assert!(!pnd.contains(InterruptStatus1::of(ITXFFAEM)));
}

#[test]
fn wait_times_out_without_hardware_events() {
    let mut regs = Rfm22Regs::new(FakeRegs::new());
    let mut irq = Rfm22IRQs::new(DummyWaiter::new(3));
    irq.set_enable(&mut regs, InterruptEnable1::of(ENPKSENT)).unwrap();
    let r = irq.wait(&mut regs, InterruptStatus1::of(IPKSENT));
    assert_eq!(r, Err(RfmError::TimedOut));
}

#[test]
fn decode_error_on_undefined_register_bits() {
    let mut regs = Rfm22Regs::new(FakeRegs::new());
    // Plant a byte with bits outside the two-bit field of frequency
    // offset 2, then read it back typed.
    regs.burst_write(Rfm22RegVal::FrequencyOffset2, &vec![0xff]).unwrap();
    let r: Result<rfm22_fan::FrequencyOffset2, RfmError> = regs.read();
    assert_eq!(r, Err(RfmError::Decode));
}

#[test]
fn zero_length_transmit_is_a_no_op() {
    let mut rf = Rfm22::dummy();
    assert_eq!(rf.transmit_large(&Vec::new()), Ok(()));
    assert!(rf.regs.regs.records().is_empty());
}

#[test]
fn fifo_chunking_over_one_burst() {
    let mut rf = Rfm22::dummy();
    let data: Vec<u8> = (0..100u8).collect();
    assert_eq!(rf.transmit_large(&data), Ok(()));
    let mut burst_lens: Vec<usize> = Vec::new();
    let mut burst_bytes: Vec<u8> = Vec::new();
    let mut txon_positions: Vec<usize> = Vec::new();
    let mut first_burst_position = None;
    for (i, rec) in rf.regs.regs.records().iter().enumerate() {
        match rec {
            LogRec::Burst { reg, data } => {
                assert_eq!(*reg, 0x7f);
                if first_burst_position.is_none() {
                    first_burst_position = Some(i);
                }
                burst_lens.push(data.len());
                burst_bytes.extend(data.iter().copied());
            }
            LogRec::Write { reg, val } => {
                if *reg == 0x07 && val & 0x08 != 0 {
                    txon_positions.push(i);
                }
            }
            LogRec::Read { .. } => {}
        }
    }
    // More than one burst, none over the usable burst size, and the
    // bursts together carry exactly the stream.
    assert_eq!(burst_lens, vec![54, 46]);
    assert_eq!(burst_bytes, data);
    // Transmit-enable asserted exactly once, after the first burst.
    assert_eq!(txon_positions.len(), 1);
    assert!(txon_positions[0] > first_burst_position.unwrap());
}

#[test]
fn single_burst_transmit_fits_one_chunk() {
    let mut rf = Rfm22::dummy();
    let data: Vec<u8> = (0..54u8).collect();
    assert_eq!(rf.transmit_large(&data), Ok(()));
    let lens: Vec<usize> = rf
        .regs
        .regs
        .records()
        .iter()
        .filter_map(|rec| match rec {
            LogRec::Burst { data, .. } => Some(data.len()),
            _ => None,
        })
        .collect();
    assert_eq!(lens, vec![54]);
}

#[test]
fn full_dummy_command_flow() {
    let mut rf = Rfm22::dummy();
    rf.init().unwrap();
    rf.set_modulation_type_and_source(ModulationType::OOK, DataSource::FIFO).unwrap();
    rf.regs.write_validate(DataAccessControl::empty()).unwrap();
    rf.regs.write_validate(HeaderControl2::of(SKIPSYN)).unwrap();
    rf.set_freq_khz(303800).unwrap();
    rf.set_data_rate_hz(3000).unwrap();
    rf.set_tx_power(3).unwrap();
    let pkt = FanPkt::Dumb(FanPkt12::new(0x9, FanCmd12::Light));
    assert_eq!(pkt.transmit(&mut rf), Ok(()));
    // 1440 symbols pack into 180 bytes: four 54-byte bursts and a tail.
    let lens: Vec<usize> = rf
        .regs
        .regs
        .records()
        .iter()
        .filter_map(|rec| match rec {
            LogRec::Burst { data, .. } => Some(data.len()),
            _ => None,
        })
        .collect();
    assert_eq!(lens, vec![54, 54, 54, 18]);
}

/// A bus whose reads always answer zero, as an unresponsive or miswired
/// device would.
struct StuckRegs;

impl rfm22_fan::RegRw for StuckRegs {
    fn read(&mut self, _reg: u8) -> Result<u8, RfmError> {
        Ok(0)
    }

    fn write(&mut self, _reg: u8, _val: u8) -> Result<(), RfmError> {
        Ok(())
    }

    fn burst_write(&mut self, _reg: u8, _data: &Vec<u8>) -> Result<(), RfmError> {
        Ok(())
    }
}

/// A bus whose transactions all fail.
struct BrokenRegs;

impl rfm22_fan::RegRw for BrokenRegs {
    fn read(&mut self, _reg: u8) -> Result<u8, RfmError> {
        Err(RfmError::Io)
    }

    fn write(&mut self, _reg: u8, _val: u8) -> Result<(), RfmError> {
        Err(RfmError::Io)
    }

    fn burst_write(&mut self, _reg: u8, _data: &Vec<u8>) -> Result<(), RfmError> {
        Err(RfmError::Io)
    }
}

#[test]
fn verify_mismatch_on_unresponsive_device() {
    let mut regs = Rfm22Regs::new(StuckRegs);
    let r = regs.write_validate(InterruptEnable1::of(ENPKSENT));
    assert_eq!(r, Err(RfmError::VerifyMismatch));
}

#[test]
fn bus_failure_propagates_as_io_error() {
    let mut regs = Rfm22Regs::new(BrokenRegs);
    let r = regs.write_validate(InterruptEnable1::of(ENPKSENT));
    assert_eq!(r, Err(RfmError::Io));
    let r: Result<InterruptStatus1, RfmError> = regs.read();
    assert_eq!(r, Err(RfmError::Io));
}

#[test]
fn modify_applies_closure_to_read_value() {
    let mut regs = Rfm22Regs::new(FakeRegs::new());
    regs.write(<TxPower as Rfm22Reg>::from_bits(0x40).unwrap()).unwrap();
    regs.modify(|mut v: TxPower| {
        v.set_tx_power(5);
        v
    })
    .unwrap();
    let v: TxPower = regs.read().unwrap();
    assert_eq!(v.bits(), 0x45);
}

#[test]
fn modify_verify_applies_closure_and_checks_readback() {
    let mut regs = Rfm22Regs::new(FakeRegs::new());
    regs.modify_verify(|mut v: TxPower| {
        v.set_tx_power(7);
        v
    })
    .unwrap();
    let v: TxPower = regs.read().unwrap();
    assert_eq!(v.bits(), 0x07);
}
