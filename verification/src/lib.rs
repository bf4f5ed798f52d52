//! Verified core of a WS2812 LED-ring driver.
//!
//! The crate covers the protocol encoder (a five-instruction hardware
//! state-machine program with NRZ bit shaping), the fixed-point clock
//! divider that times it, the pixel word codec that feeds its shift
//! register, a transfer state machine for the DMA-driven transmitter,
//! and the integer part of the hue-rotation color pipeline.

pub mod timing;
pub mod codec;
pub mod encoder;
pub mod clock;
pub mod transmitter;
pub mod colors;
