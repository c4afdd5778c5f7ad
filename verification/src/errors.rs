//! Typed errors for the conversions between the value model and the
//! foreign layout.  Every conversion is fallible and reports one of these
//! variants; no failure is masked or retried at this layer.

use vstd::prelude::*;

verus! {

/// Why a conversion between the value model and the foreign layout failed.
#[derive(Debug, Clone, Copy, PartialEq, Eq, Structural)]
pub enum ConversionError {
    /// Foreign text is not valid UTF-8.
    InvalidEncoding,
    /// Host text contains an embedded NUL terminator and cannot become a
    /// C string.
    InvalidContent,
    /// A foreign enum value has no host mapping.
    UnknownEnumValue,
    /// The native initialization entry point reported failure.
    NativeInitFailed,
    /// The native multiscale-configuration entry point reported failure.
    NativeConfigFailed,
    /// Converting the dimension at `index` failed, either while encoding
    /// its name or in the native per-dimension entry point.
    NativeDimensionFailed { index: usize },
    /// The native side faulted unexpectedly; the whole operation is lost.
    NativeCallPanic,
}

} // verus!
