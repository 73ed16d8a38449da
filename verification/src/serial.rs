//! Settings of the serial console.

use vstd::prelude::*;

verus! {

/// Number of data bits in a frame.
#[derive(Clone, Copy, Debug, PartialEq, Eq, Structural)]
pub enum DataLength {
    Five,
    Six,
    Seven,
    Eight,
}

/// Number of stop bits in a frame.
#[derive(Clone, Copy, Debug, PartialEq, Eq, Structural)]
pub enum StopBits {
    One,
    Two,
}

/// Parity bit of a frame.
#[derive(Clone, Copy, Debug, PartialEq, Eq, Structural)]
pub enum Parity {
    Odd,
    Even,
    Off,
}

/// Line speed in bits per second.
#[derive(Clone, Copy, Debug, PartialEq, Eq, Structural)]
pub enum BaudRate {
    B1200,
    B2400,
    B4800,
    B9600,
    B19200,
    B38400,
    B57600,
    B115200,
}

/// What the serial transport is opened with.
#[derive(Clone, Copy, Debug, PartialEq, Eq, Structural)]
pub struct SerialConfig {
    pub data_len: DataLength,
    pub stop: StopBits,
    pub parity: Parity,
    pub baud_rate: BaudRate,
    /// Frequency of the clock that feeds the serial peripheral, in hertz.
    /// The baud rate divisor is derived from it, so it has to be the
    /// frequency that the clock tree really delivers.
    pub clk_hz: u32,
}

/// The settings of the console: 8 data bits, 1 stop bit, no parity, 115200
/// baud, from a 1 GHz clock.
pub open spec fn spec_console_config() -> SerialConfig {
    SerialConfig {
        data_len: DataLength::Eight,
        stop: StopBits::One,
        parity: Parity::Off,
        baud_rate: BaudRate::B115200,
        clk_hz: 1_000_000_000,
    }
}

/// The settings of the console.
#[verifier::when_used_as_spec(spec_console_config)]
pub fn console_config() -> (config: SerialConfig)
    ensures
        config == spec_console_config(),
{
    SerialConfig {
        data_len: DataLength::Eight,
        stop: StopBits::One,
        parity: Parity::Off,
        baud_rate: BaudRate::B115200,
        clk_hz: 1_000_000_000,
    }
}

/// What the console prints once it is open.
pub const GREETING: &'static str = "Hello from VisionFive2!\n";

} // verus!
