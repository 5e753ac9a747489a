//! Pin functions, pin levels and the library's error kinds.
use vstd::prelude::*;

verus! {

/// Operating mode of a pin. The hardware reserves three bits per pin, so
/// further (alternate) functions fit the same field.
#[derive(Clone, Copy, Debug, PartialEq, Eq, Structural)]
pub enum PinFunction {
    Input,
    Output,
}

/// Electrical level of a pin.
#[derive(Clone, Copy, Debug, PartialEq, Eq, Structural)]
pub enum PinLevel {
    Low,
    High,
}

/// Everything that can go wrong while acquiring, using or releasing the window.
#[derive(Clone, Copy, Debug, PartialEq, Eq, Structural)]
pub enum GpioError {
    /// The device file could not be opened.
    OpenError,
    /// The mapping request was rejected.
    MapError,
    /// The unmap request was rejected; the handle was closed all the same.
    UnmapError,
    /// The pin number lies outside the peripheral's range.
    InvalidPin,
}

/// The three-bit function-select encoding of a function.
pub open spec fn function_code(f: PinFunction) -> u32 {
    match f {
        PinFunction::Input => 0b000,
        PinFunction::Output => 0b001,
    }
}

impl PinFunction {
    /// The three-bit function-select encoding of this function.
    pub fn code(self) -> (r: u32)
        ensures
            r == function_code(self),
            r < 8,
    {
        match self {
            PinFunction::Input => 0b000,
            PinFunction::Output => 0b001,
        }
    }
}

} // verus!
