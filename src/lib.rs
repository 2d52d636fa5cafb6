//! Driver for a WS2812-class LED strip fed through a synchronous serial
//! (SSI) peripheral: register fields, the peripheral driver, the bit
//! waveform encoder, the pixel serializer and an integer HSV colour model.

pub mod reg;
pub mod color;
pub mod ws2812;
pub mod ssi;
pub mod hexfmt;
