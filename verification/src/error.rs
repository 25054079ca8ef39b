//! Errors returned by this library.

use vstd::prelude::*;

verus! {

/// Enumerates all possible errors returned by this library.
#[derive(Debug)]
pub enum Error {
    /// Failed to compile a WGSL shader.
    WgslCompilationFailure,
    /// Unsupported shader type.
    UnsupportedShaderType,
    /// No shader source supplied.
    NoShaderSource,
    /// No device supplied.
    NoDeviceSupplied,
}

} // verus!
