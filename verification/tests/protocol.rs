use pio_spi::config::validate_config;
use pio_spi::config::ConfigError;
use pio_spi::config::SpiMasterConfig;
use pio_spi::engine::EngineState;
use pio_spi::words::combine_words;
use pio_spi::words::mask_u64;
use pio_spi::words::tx_words;
use pio_spi::words::words_needed;

#[test]
fn width_range_accepted() {
    for width in 16..=60usize {
        let cfg = SpiMasterConfig { clk_div: 4, message_size: width };
        assert!(validate_config(&cfg).is_ok(), "width {} must be accepted", width);
    }
}

#[test]
fn width_range_rejected() {
    for width in [0usize, 1, 8, 15, 61, 64, 100] {
        let cfg = SpiMasterConfig { clk_div: 4, message_size: width };
        assert_eq!(validate_config(&cfg), Err(ConfigError::WidthOutOfRange));
    }
}

#[test]
fn derived_thresholds() {
    let p = validate_config(&SpiMasterConfig { clk_div: 4, message_size: 20 }).unwrap();
    assert_eq!(p.bit_width, 20);
    assert_eq!(p.fill_threshold, 32);
    assert_eq!(p.drain_threshold, 20);

    let p = validate_config(&SpiMasterConfig { clk_div: 4, message_size: 32 }).unwrap();
    assert_eq!(p.drain_threshold, 32);

    let p = validate_config(&SpiMasterConfig { clk_div: 4, message_size: 50 }).unwrap();
    assert_eq!(p.drain_threshold, 32);
}

#[test]
fn clock_divisor_fixed_point() {
    // divisor minus one, in 24.8 fixed-point representation
    let p = validate_config(&SpiMasterConfig { clk_div: 8, message_size: 16 }).unwrap();
    assert_eq!(p.clock_divisor_bits, 7 * 256);

    let p = validate_config(&SpiMasterConfig { clk_div: 1, message_size: 16 }).unwrap();
    assert_eq!(p.clock_divisor_bits, 0);

    let p = validate_config(&SpiMasterConfig { clk_div: 1000, message_size: 16 }).unwrap();
    assert_eq!(p.clock_divisor_bits, 999 * 256);
}

#[test]
fn mask_values() {
    assert_eq!(mask_u64(16), 0xFFFF);
    assert_eq!(mask_u64(32), 0xFFFF_FFFF);
    assert_eq!(mask_u64(50), 0x0003_FFFF_FFFF_FFFF);
    assert_eq!(mask_u64(60), 0x0FFF_FFFF_FFFF_FFFF);
}

#[test]
fn word_count_law() {
    assert_eq!(words_needed(16), 1);
    assert_eq!(words_needed(31), 1);
    assert_eq!(words_needed(32), 1);
    assert_eq!(words_needed(33), 2);
    assert_eq!(words_needed(50), 2);
    assert_eq!(words_needed(60), 2);
}

#[test]
fn split_low_word_first() {
    let w = tx_words(0xABCD, 16);
    assert_eq!(w, vec![0xABCD]);

    // high bits beyond the width are dropped before splitting
    let w = tx_words(0xFFFF_0000_0000_ABCD, 16);
    assert_eq!(w, vec![0xABCD]);

    let w = tx_words(0x0FED_CBA9_8765_4321, 60);
    assert_eq!(w, vec![0x8765_4321, 0x0FED_CBA9]);

    let w = tx_words(0x0001_2345_6789_ABCD, 50);
    assert_eq!(w, vec![0x6789_ABCD, 0x0001_2345]);
}

#[test]
fn combine_low_word_first() {
    let r = combine_words(&vec![0xABCD], 16);
    assert_eq!(r, 0xABCD);

    let r = combine_words(&vec![0x8765_4321, 0x0FED_CBA9], 60);
    assert_eq!(r, 0x0FED_CBA9_8765_4321);

    // recombination masks to the transfer width
    let r = combine_words(&vec![0xFFFF_FFFF], 16);
    assert_eq!(r, 0xFFFF);
}

#[test]
fn split_combine_roundtrip() {
    for (value, width) in [
        (0xABCDu64, 16usize),
        (0xDEAD_BEEF, 32),
        (0x0001_2345_6789_ABCD, 50),
        (0x0FED_CBA9_8765_4321, 60),
        (0, 16),
        (u64::MAX, 60),
    ] {
        let words = tx_words(value, width);
        let back = combine_words(&words, width);
        assert_eq!(back, value & mask_u64(width));
    }
}

#[test]
fn engine_start_loads_bit_count() {
    let mut e = EngineState::new();
    assert_eq!(e.bit_count, 0);
    assert!(e.clock_high);
    assert_eq!(e.clock_transitions, 0);
    e.fill_queue.push(50);
    e.start();
    assert_eq!(e.bit_count, 50);
    assert!(e.fill_queue.is_empty());
}
