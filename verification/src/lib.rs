//! Verified decision logic of a hardware-abstraction layer for the SAM3X / SAM3A
//! family of microcontrollers.
//!
//! Nothing in this crate touches a register. A peripheral handle is a
//! [`handle::Handle`]: it records, in order, the register operations that the
//! abstraction layer issues through it, and a driver outside this crate applies
//! them to the chip. What each operation of the layer records, and every
//! frequency and reload value it computes, is stated in its contract and proved.
//!
//! [`codegen`] is the generator of the pin types: it reads the declaration of
//! the parallel I/O controllers of a chip and writes the source text of their
//! pins, whose mode is part of their type.

pub mod handle;
pub mod text;
pub mod time;
pub mod pmc;
pub mod efc;
pub mod watchdog;
pub mod systick;
pub mod delay;
pub mod fixed_delay;
pub mod timer;
pub mod rng;
pub mod gpio;
pub mod generic;
pub mod dacc;
pub mod codegen;
