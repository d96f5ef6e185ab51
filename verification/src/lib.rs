//! Input translation core for a rotary dial that acts as a Bluetooth LE
//! keyboard: quadrature decoding, press classification and HID key reports.
//!
//! Nothing here touches a pin or a radio. The caller samples the lines, feeds
//! the levels in, and carries out the transmissions and pauses it gets back.

pub mod button;
pub mod descriptor;
pub mod keyboard;
pub mod level;
pub mod report;
pub mod rotary_encoder;
pub mod translation;
