use vstd::prelude::*;
use embedded_hal::spi::ErrorKind;

verus! {

/// The kind of a failed SPI bus operation, as embedded-hal reports it.
#[verifier::external_type_specification]
#[verifier::external_body]
pub struct ExSpiErrorKind(ErrorKind);

/// Errors of the SPI bus that is shared between the accelerometer and the
/// e-paper display.
#[derive(Debug)]
pub enum Error {
    /// The bus reported a failure.
    SpiError(ErrorKind),
    /// The bus stayed busy for too long.
    Timeout,
}

impl From<ErrorKind> for Error {
    fn from(error: ErrorKind) -> (e: Self) {
        Error::SpiError(error)
    }
}

impl vstd::std_specs::convert::FromSpecImpl<ErrorKind> for Error {
    open spec fn obeys_from_spec() -> bool {
        true
    }

    open spec fn from_spec(error: ErrorKind) -> Self {
        Error::SpiError(error)
    }
}

} // verus!
