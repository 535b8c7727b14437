//! Fixed bus configuration and the worker's completion timeout.
use vstd::prelude::*;

verus! {

/// Bit order: most significant bit first.
pub const SPI_MSB_FIRST: u8 = 0;
/// Clock mode 3 (clock idles high, data sampled on the rising edge).
pub const SPI_MODE3: u8 = 3;
/// Eight-bit words.
pub const SPI_WORD_SIZE_8BIT: u8 = 0;
/// Clock rate in kHz.
pub const SPI_BAUDRATE_KHZ: u32 = 8000;
/// Bus port that the session drives.
pub const SPI_NUM: i32 = 0;
/// Chip-select line: low selects the device, high is idle.
pub const SPI_SS_PIN: i32 = 25;
/// How long the worker waits for a completion, in milliseconds.
pub const COMPLETION_TIMEOUT_MS: u32 = 1000;

/// Settings handed opaquely to the bus driver.
#[derive(Clone, Copy, Debug, PartialEq, Eq, Structural)]
pub struct SpiSettings {
    pub data_order: u8,
    pub data_mode: u8,
    pub baudrate_khz: u32,
    pub word_size: u8,
}

/// The fixed configuration for the display controller on this bus.
pub fn display_spi_settings() -> (r: SpiSettings)
    ensures
        r.data_order == SPI_MSB_FIRST,
        r.data_mode == SPI_MODE3,
        r.baudrate_khz == SPI_BAUDRATE_KHZ,
        r.word_size == SPI_WORD_SIZE_8BIT,
{
    SpiSettings {
        data_order: SPI_MSB_FIRST,
        data_mode: SPI_MODE3,
        baudrate_khz: SPI_BAUDRATE_KHZ,
        word_size: SPI_WORD_SIZE_8BIT,
    }
}

/// Number of scheduler ticks in `timeout_ms` milliseconds at `ticks_per_sec`.
pub fn timeout_ticks(timeout_ms: u32, ticks_per_sec: u32) -> (r: u64)
    ensures
        r == (timeout_ms as int) * (ticks_per_sec as int) / 1000,
{
    proof {
        let a = timeout_ms as int;
        let b = ticks_per_sec as int;
        assert(a * b <= 0xffff_ffff * 0xffff_ffff) by (nonlinear_arith)
            requires
                0 <= a <= 0xffff_ffff,
                0 <= b <= 0xffff_ffff,
        ;
    }
    let product: u64 = (timeout_ms as u64) * (ticks_per_sec as u64);
    product / 1000
}

} // verus!
