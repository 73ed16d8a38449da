//! Bring-up of a JH7110 board: the register-write sequences that configure
//! the clock tree and the pin multiplexer, the LED patterns, and the command
//! dispatch of the serial shell.
//!
//! The crate computes what has to be done, and in which order; it never
//! touches a register itself. A sequence is a list of [`actions::Action`]s or
//! of [`regs::RegWrite`]s that the firmware carries out one after the other
//! on the peripherals it owns.
//!
//! What a sequence does is stated over a model of the register file,
//! [`regs::RegState`], and proved:
//!
//! - a PLL is powered down before any of its settings changes, and powered up
//!   by the very write that commits its post-divider ([`pll`]);
//! - the clock selectors are written once both PLLs run again ([`clocks`]);
//! - the voltage remap is cleared before the pin controller is touched, and
//!   configuring the pins twice is the same as configuring them once
//!   ([`pinmux`]);
//! - the serial interrupt triggers a burst of exactly one hundred LED level
//!   changes that ends with the LED low, and the free-running blinker changes
//!   level exactly at the end of every hold ([`blink`]);
//! - the boot sequence makes its last register write before it enables the
//!   serial interrupt, and never writes the register that the interrupt
//!   handler drives ([`boot`]);
//! - `clear` clears the screen and every other command prints the help
//!   banner ([`shell`]).

pub mod regs;
pub mod pll;
pub mod clocks;
mod hal;
pub mod pinmux;
pub mod serial;
pub mod irq;
pub mod actions;
pub mod blink;
pub mod shell;
pub mod boot;
