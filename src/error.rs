use vstd::prelude::*;

verus! {

/// A native status code (`HRESULT`): negative values report failure.
pub type HRESULT = i32;

/// The success status.
pub const S_OK: HRESULT = 0;

/// `E_INVALIDARG` (0x80070057): an argument was rejected.
pub const E_INVALIDARG: HRESULT = -2147024809;

/// `E_FAIL` (0x80004005): an operation failed for an unspecified reason.
pub const E_FAIL: HRESULT = -2147467259;

/// `HRESULT_FROM_WIN32(ERROR_ARITHMETIC_OVERFLOW)` (0x80070216): a size did not fit.
pub const E_ARITHMETIC_OVERFLOW: HRESULT = -2147024362;

/// `HRESULT_FROM_WIN32(ERROR_NOT_SUPPORTED)` (0x80070032): the request is not supported.
pub const E_NOT_SUPPORTED: HRESULT = -2147024846;

/// An error carrying the native status code verbatim.
#[derive(Clone, Copy, Debug, PartialEq, Eq, Structural, Hash)]
pub struct Error(pub HRESULT);

pub type Result<T, E = Error> = core::result::Result<T, E>;

impl Error {
    /// The status code carried by this error.
    pub fn code(&self) -> (r: HRESULT)
        ensures
            r == self.0,
    {
        self.0
    }
}

/// The error for a rejected argument.
pub fn invalid_arg() -> (e: Error)
    ensures
        e == Error(E_INVALIDARG),
{
    Error(E_INVALIDARG)
}

/// The error for an unspecified failure.
pub fn fail() -> (e: Error)
    ensures
        e == Error(E_FAIL),
{
    Error(E_FAIL)
}

/// Whether a status code reports success.
pub open spec fn succeeded(hr: HRESULT) -> bool {
    hr >= 0
}

/// Translates a native status code: `Ok` on success, else the code itself.
pub fn hresult(hr: HRESULT) -> (r: Result<()>)
    ensures
        succeeded(hr) <==> r is Ok,
        !succeeded(hr) ==> r == Err::<(), Error>(Error(hr)),
{
    if hr >= 0 {
        Ok(())
    } else {
        Err(Error(hr))
    }
}

} // verus!
