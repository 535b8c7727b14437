use mynewt_spi::config::{display_spi_settings, timeout_ticks, COMPLETION_TIMEOUT_MS};

#[test]
fn settings_for_display() {
    let s = display_spi_settings();
    assert_eq!(s.data_order, 0);
    assert_eq!(s.data_mode, 3);
    assert_eq!(s.baudrate_khz, 8000);
    assert_eq!(s.word_size, 0);
}

#[test]
fn timeout_in_ticks() {
    assert_eq!(timeout_ticks(COMPLETION_TIMEOUT_MS, 1000), 1000);
    assert_eq!(timeout_ticks(COMPLETION_TIMEOUT_MS, 128), 128);
    assert_eq!(timeout_ticks(250, 1000), 250);
    assert_eq!(timeout_ticks(1, 999), 0);
    assert_eq!(timeout_ticks(u32::MAX, u32::MAX), 18446744065119617025 / 1000);
}
