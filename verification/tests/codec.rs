use rfm22_fan::expand;
use rfm22_fan::pack_bits;
use rfm22_fan::reverse_nibble;
use rfm22_fan::FanExpand;
use rfm22_fan::FanPkt;
use rfm22_fan::FanPkt12;
use rfm22_fan::FanPkt12Bits;
use rfm22_fan::FanPkt21;
use rfm22_fan::FanPkt21Bits;
use rfm22_fan::FanState21;

fn pkt12_from_bits(mut iter: FanPkt12Bits) -> FanPkt12 {
    assert_eq!(iter.next().unwrap(), true);
    let addr = if iter.next().unwrap() { 1 << 3 } else { 0 }
        | if iter.next().unwrap() { 1 << 2 } else { 0 }
        | if iter.next().unwrap() { 1 << 1 } else { 0 }
        | if iter.next().unwrap() { 1 << 0 } else { 0 };
    let cmd = if iter.next().unwrap() { 1 << 6 } else { 0 }
        | if iter.next().unwrap() { 1 << 5 } else { 0 }
        | if iter.next().unwrap() { 1 << 4 } else { 0 }
        | if iter.next().unwrap() { 1 << 3 } else { 0 }
        | if iter.next().unwrap() { 1 << 2 } else { 0 }
        | if iter.next().unwrap() { 1 << 1 } else { 0 }
        | if iter.next().unwrap() { 1 << 0 } else { 0 };
    assert!(iter.next().is_none());
    FanPkt12 { addr, cmd }
}

#[test]
fn fan12_serializer() {
    for addr in 0..16 {
        for cmd in 0..128 {
            let pkt = FanPkt12 { addr, cmd };
            assert_eq!(pkt.clone(), pkt12_from_bits(FanPkt12Bits::new(&pkt)));
        }
    }
}

#[test]
fn test_reverse_nibble() {
    assert_eq!(0x8, reverse_nibble(0x1));
    assert_eq!(0x4, reverse_nibble(0x2));
    assert_eq!(0x2, reverse_nibble(0x4));
    assert_eq!(0x1, reverse_nibble(0x8));
    assert_eq!(0x7, reverse_nibble(0xe));
}

fn pkt21_addr_from_bits(mut iter: FanPkt21Bits) -> u8 {
    // Three high bits
    assert_eq!(iter.next().unwrap(), true);
    assert_eq!(iter.next().unwrap(), true);
    assert_eq!(iter.next().unwrap(), true);
    let addr = if iter.next().unwrap() { 1 << 0 } else { 0 }
        | if iter.next().unwrap() { 1 << 1 } else { 0 }
        | if iter.next().unwrap() { 1 << 2 } else { 0 }
        | if iter.next().unwrap() { 1 << 3 } else { 0 };
    // High bit
    assert_eq!(iter.next().unwrap(), true);
    // State
    for _ in 0..8 {
        iter.next().unwrap();
    }
    // High bit
    assert_eq!(iter.next().unwrap(), true);
    // Chksum
    for _ in 0..4 {
        iter.next().unwrap();
    }
    assert!(iter.next().is_none());
    addr
}

#[test]
fn fan21_serializer() {
    for addr in 0..16 {
        for state in [FanState21::Off].iter() {
            let pkt = FanPkt21::new(addr, 0, *state);
            assert_eq!(addr, pkt21_addr_from_bits(FanPkt21Bits::new(&pkt)));
        }
    }
}

#[test]
fn simple_round_trip_all_values() {
    for addr in 0u8..16 {
        for action in 0u8..128 {
            let frame = rfm22_fan::encode_simple(addr, action);
            assert_eq!(frame.len(), 12);
            assert_eq!(rfm22_fan::decode_simple(&frame), Some((addr, action)));
        }
    }
}

#[test]
fn decode_simple_rejects_bad_frames() {
    // Wrong length.
    assert_eq!(rfm22_fan::decode_simple(&vec![true; 11]), None);
    // Missing leading marker bit.
    let mut frame = rfm22_fan::encode_simple(3, 0x20);
    frame[0] = false;
    assert_eq!(rfm22_fan::decode_simple(&frame), None);
}

#[test]
fn dimmer_frame_structure() {
    for addr in 0u8..16 {
        let pkt = FanPkt21::new(addr, 0, FanState21::Off);
        let bits = pkt.bits();
        assert_eq!(bits.len(), 21);
        assert!(bits[0] && bits[1] && bits[2]);
        let decoded = if bits[3] { 1 << 0 } else { 0 }
            | if bits[4] { 1 << 1 } else { 0 }
            | if bits[5] { 1 << 2 } else { 0 }
            | if bits[6] { 1 << 3 } else { 0 };
        assert_eq!(decoded, addr);
    }
}

#[test]
fn dimmer_bytes_for_known_command() {
    // Address 0xe, brightness off, fan off: the frame the stock remote
    // sends for "all off".
    let pkt = FanPkt21::new(0xe, 0, FanState21::Off);
    assert_eq!(pkt.data0, 0xEF);
    assert_eq!(pkt.data1, 0xFF);
    assert_eq!(pkt.chksum, 0xE);
}

#[test]
fn checksum_concrete_pair() {
    // (0xE + 0x1 + 0x0 + 0x3 + 3) & 0xF == 0x5
    assert_eq!(rfm22_fan::checksum(0xE1, 0x03), 0x5);
}

#[test]
fn brightness_code_scaling() {
    assert_eq!(rfm22_fan::brightness_code(0), 63);
    assert_eq!(rfm22_fan::brightness_code(1), 19);
    assert_eq!(rfm22_fan::brightness_code(100), 62);
    // 19 + floor(43 * 50 / 100) == 40
    assert_eq!(rfm22_fan::brightness_code(50), 40);
}

#[test]
fn expand_two_bits() {
    let symbols = expand(&vec![true, false]);
    assert_eq!(symbols, vec![true, true, false, false, true, false]);
}

#[test]
fn fan_expand_streams_three_symbols_per_bit() {
    let mut fx = FanExpand::new(vec![true, false]);
    let mut out = Vec::new();
    while let Some(s) = fx.next() {
        out.push(s);
    }
    assert_eq!(out, vec![true, true, false, false, true, false]);
}

#[test]
fn pack_nine_bits_zero_pads() {
    let bits = vec![true, false, false, false, false, false, false, false, true];
    assert_eq!(pack_bits(&bits), vec![0x80, 0x80]);
}

#[test]
fn pack_empty_is_empty() {
    assert_eq!(pack_bits(&Vec::new()), Vec::<u8>::new());
}

#[test]
fn unit_symbols_layout() {
    // One frame bit: start bit + bit, each expanded to 3 symbols, then
    // the 33-symbol pause.
    let unit = rfm22_fan::unit_symbols(&vec![true]);
    assert_eq!(unit.len(), 6 + 33);
    assert_eq!(&unit[0..6], &[false, true, false, true, true, false]);
    assert!(unit[6..].iter().all(|s| !*s));
}

#[test]
fn command_symbol_counts() {
    let dumb = FanPkt::Dumb(FanPkt12::new(9, rfm22_fan::FanCmd12::Light));
    assert_eq!(dumb.symbols().len(), 20 * ((12 + 1) * 3 + 33));
    let smart = FanPkt::Smart(FanPkt21::new(0xe, 40, FanState21::High));
    assert_eq!(smart.symbols().len(), 30 * ((21 + 1) * 3 + 33));
}
