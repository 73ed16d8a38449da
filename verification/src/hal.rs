//! Constants of the board support crate `jh71xx_hal`.
//!
//! Each function below hands out one constant of that crate. Its contract
//! states the value the crate gives the constant; the verifier takes that on
//! trust.

use vstd::prelude::*;

verus! {

/// `jh71xx_hal::gpio::PAD_GPIO6`: the pad number of GPIO6, which is 6.
#[verifier::external_body]
pub(crate) fn pad_gpio6() -> (pad: u32)
    ensures
        pad == 6,
{
    jh71xx_hal::gpio::PAD_GPIO6
}

/// `jh71xx_hal::gpio::PAD_GPIO36`: the pad number of GPIO36, which is 36.
#[verifier::external_body]
pub(crate) fn pad_gpio36() -> (pad: u32)
    ensures
        pad == 36,
{
    jh71xx_hal::gpio::PAD_GPIO36
}

/// `jh71xx_hal::gpio::PAD_GPIO60`: the pad number of GPIO60, which is 60.
#[verifier::external_body]
pub(crate) fn pad_gpio60() -> (pad: u32)
    ensures
        pad == 60,
{
    jh71xx_hal::gpio::PAD_GPIO60
}

/// `jh71xx_hal::gpio::PAD_GPIO61`: the pad number of GPIO61, which is 61.
#[verifier::external_body]
pub(crate) fn pad_gpio61() -> (pad: u32)
    ensures
        pad == 61,
{
    jh71xx_hal::gpio::PAD_GPIO61
}

/// `jh71xx_hal::gpio::PAD_GPIO63`: the pad number of GPIO63, which is 63.
#[verifier::external_body]
pub(crate) fn pad_gpio63() -> (pad: u32)
    ensures
        pad == 63,
{
    jh71xx_hal::gpio::PAD_GPIO63
}

/// `jh71xx_hal::gpio::GpoFunction::U0_DW_UART_SOUT`: the output-signal index
/// of the UART0 transmit line, which is 20.
#[verifier::external_body]
pub(crate) fn gpo_uart0_sout() -> (index: u8)
    ensures
        index == 20,
{
    jh71xx_hal::gpio::GpoFunction::U0_DW_UART_SOUT
}

/// `jh71xx_hal::gpio::GpoFunction::U0_JTAG_CERTIFICATION_TDO`: the
/// output-signal index of the JTAG TDO line, which is 22.
#[verifier::external_body]
pub(crate) fn gpo_jtag_tdo() -> (index: u8)
    ensures
        index == 22,
{
    jh71xx_hal::gpio::GpoFunction::U0_JTAG_CERTIFICATION_TDO
}

/// `jh71xx_hal::pac::Interrupt::UART0`: the interrupt source number of
/// UART0 at the interrupt controller, which is 32.
#[verifier::external_body]
pub(crate) fn interrupt_uart0() -> (source: u32)
    ensures
        source == 32,
{
    jh71xx_hal::pac::Interrupt::UART0 as u32
}

} // verus!
