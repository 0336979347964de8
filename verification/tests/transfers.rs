use pio_spi::config::SpiMasterConfig;
use pio_spi::master::PioSpiMaster;

fn master(width: usize) -> PioSpiMaster {
    PioSpiMaster::new(SpiMasterConfig { clk_div: 8, message_size: width }).unwrap()
}

#[test]
fn loopback_16_bits() {
    let mut m = master(16);
    assert_eq!(m.loopback_transfer(0xABCD), 0xABCD);
}

#[test]
fn loopback_50_bits() {
    let mut m = master(50);
    let v = 0x0000_0001_2345_6789u64;
    assert_eq!(m.loopback_transfer(v), v & ((1u64 << 50) - 1));
}

#[test]
fn loopback_60_bits() {
    let mut m = master(60);
    let v = 0x0FED_CBA9_8765_4321u64;
    assert_eq!(m.loopback_transfer(v), v & ((1u64 << 60) - 1));
}

#[test]
fn loopback_32_bits_single_word() {
    let mut m = master(32);
    let v = 0xDEAD_BEEFu64;
    assert_eq!(m.loopback_transfer(v), v);
    // a 32-bit transfer moves exactly one word each way
    assert!(m.engine.fill_queue.is_empty());
    assert!(m.engine.drain_queue.is_empty());
}

#[test]
fn loopback_every_width() {
    for width in 16..=60usize {
        let mut m = master(width);
        let v = 0xA5A5_5A5A_C3C3_3C3Cu64;
        assert_eq!(m.loopback_transfer(v), v & ((1u64 << width) - 1), "width {}", width);
    }
}

#[test]
fn transfer_returns_slave_bits() {
    let mut m = master(16);
    let r = m.transfer(0xFFFF, 0x1234);
    assert_eq!(r, 0x1234);

    let mut m = master(50);
    let r = m.transfer(0, 0xFFFF_FFFF_FFFF_FFFF);
    assert_eq!(r, (1u64 << 50) - 1);
}

#[test]
fn masking_idempotence() {
    // any higher bits set behave exactly as if they were cleared
    let mut a = master(20);
    let mut b = master(20);
    let low = 0x000A_BCDEu64 & 0xF_FFFF;
    let ra = a.transfer(0xFFFF_FFFF_FFFA_BCDE, 0x9_8765);
    let rb = b.transfer(low, 0x9_8765);
    assert_eq!(ra, rb);
    assert_eq!(a.engine.mosi_frames, b.engine.mosi_frames);
    assert_eq!(a.engine.mosi_frames, vec![low]);
}

#[test]
fn word_count_per_transfer() {
    // a write pushes the words of one transfer and drains none
    let mut m = master(16);
    m.write(0xABCD, 0);
    assert_eq!(m.engine.drain_queue.len(), 1);
    m.write(0x1234, 0);
    assert_eq!(m.engine.drain_queue.len(), 2);

    let mut m = master(60);
    m.write(0x0FED_CBA9_8765_4321, 0);
    assert_eq!(m.engine.drain_queue.len(), 2);
}

#[test]
fn clock_edges_per_transfer() {
    for width in [16usize, 32, 50, 60] {
        let mut m = master(width);
        assert_eq!(m.engine.clock_transitions, 0);
        m.loopback_transfer(1);
        assert_eq!(m.engine.clock_transitions, 4 * width as u64, "width {}", width);
        m.loopback_transfer(2);
        assert_eq!(m.engine.clock_transitions, 8 * width as u64, "width {}", width);
        assert!(m.engine.clock_high);
    }
}

#[test]
fn no_cross_transfer_contamination() {
    // distinct, non-repeating patterns over back-to-back transfers
    let mut m = master(60);
    let v1 = 0x0AAA_AAAA_AAAA_AAAAu64;
    let v2 = 0x0555_5555_5555_5555u64;
    let v3 = 0x0123_4567_89AB_CDEFu64;
    assert_eq!(m.loopback_transfer(v1), v1);
    assert_eq!(m.loopback_transfer(v2), v2);
    assert_eq!(m.loopback_transfer(v3), v3);
    assert_eq!(m.engine.mosi_frames, vec![v1, v2, v3]);

    let mut m = master(40);
    let r1 = m.transfer(0x00FF_00FF_00u64, 0xAB_CDEF_0123);
    let r2 = m.transfer(0xFF00_FF00_FFu64, 0x54_3210_FEDC);
    assert_eq!(r1, 0xAB_CDEF_0123);
    assert_eq!(r2, 0x54_3210_FEDC);
}

#[test]
fn wire_frames_are_masked() {
    let mut m = master(16);
    m.transfer(0xFFFF_FFFF_FFFF_ABCD, 0);
    m.transfer(0x1234, 0);
    assert_eq!(m.engine.mosi_frames, vec![0xABCD, 0x1234]);
}

#[test]
fn construction_rejects_bad_width() {
    assert!(PioSpiMaster::new(SpiMasterConfig { clk_div: 8, message_size: 15 }).is_err());
    assert!(PioSpiMaster::new(SpiMasterConfig { clk_div: 8, message_size: 61 }).is_err());
    assert!(PioSpiMaster::new(SpiMasterConfig { clk_div: 8, message_size: 16 }).is_ok());
    assert!(PioSpiMaster::new(SpiMasterConfig { clk_div: 8, message_size: 60 }).is_ok());
}
