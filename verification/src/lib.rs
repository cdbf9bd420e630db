//! Verified core of the analog noise generator's test firmware: the tick
//! arithmetic of the nanosecond delay, the SPI protocol of the accelerometer
//! (IMS), the USB serial echo, the DAC waveform tables and the small state
//! machines that drive the board's self tests.
pub mod bootloader;
pub mod delay;
pub mod text;
pub mod spi;
pub mod ims;
pub mod ims_selftest;
pub mod usb_serial;
pub mod dac;
pub mod touch;
pub mod pwm;
pub mod registers;
pub mod epd;
