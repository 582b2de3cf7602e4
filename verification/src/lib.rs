//! Driver logic for an HD44780-family character LCD wired behind a
//! PCF8574-style I2C port expander, using the controller's 4-bit mode.
//!
//! The driver is a pure protocol translator: every operation is expressed as
//! the exact sequence of expander register writes and mandated delays it must
//! put on the bus. Operations append those `bus::BusAction` values to a
//! recording; a platform layer replays the recording over a real I2C master.
//! This keeps the bit packing, the nibble framing and the power-on handshake
//! fully checked, while clock generation and byte transport stay outside.

pub mod bus;
pub mod laws;
pub mod lcd;
