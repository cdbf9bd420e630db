# analog_noise_test1

Test firmware for the "completely analog" noise generator board (STM32F072,
LIS2DH12 accelerometer, SSD1680 e-paper display, USB serial port), split into
a verified library and a thin hardware layer.

- `src/` (verified with Verus)
  - `delay`: SysTick ticks for a nanosecond delay.
  - `text`: hexadecimal and decimal formatting of console lines.
  - `ims`: the accelerometer's SPI protocol as a transaction state machine
    (chip select, header byte, frames, reply decoding).
  - `ims_selftest`: the accelerometer self test (identity check,
    configuration, temperature and register dumps).
  - `usb_serial`: upper-casing echo over USB CDC and the bootloader request.
  - `dac`: the register writes that put the DAC into noise mode and stream
    the sine table to it by DMA, the sine table, and triangle stepping.
  - `bootloader`, `registers`: the clock controller's reset values and the
    registers' addresses.
  - `touch`, `pwm`, `epd`: the touch sensing, LED brightness and e-paper
    display tests; `epd` draws the test frame with embedded-graphics.
  - `spi`: errors of the shared SPI bus.
- `app/`: drives the state machines with embedded-hal pins and buses,
  usb-device, ssd1680 and cortex-m.
- `tests/`: scenario tests of the library.
