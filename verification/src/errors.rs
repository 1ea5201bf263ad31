use vstd::prelude::*;

verus! {

/// Failures while turning TPM structures into bytes or back.
#[derive(Debug, Clone, Copy, PartialEq, Eq, Structural)]
pub enum MarshalError {
    /// The input ends before the structure does.
    Insufficient,
    /// The output buffer has no room for the structure.
    Memory,
    /// A size field is larger than the structure can hold.
    Size,
    /// A field holds a value that its type does not allow.
    Value,
}

/// Errors raised on the client side of the TPM software stack.
#[derive(Debug, Clone, Copy, PartialEq, Eq, Structural)]
pub enum TssTcsError {
    /// A buffer is too small for what has to be written to it.
    OutOfMemory,
    /// The operation is not supported by this authorization area.
    Unsupported,
    /// A parameter, most often a response authorization, is not acceptable.
    BadParameter,
    /// The TPM answered with something the client did not expect.
    TpmUnexpected,
}

/// Every error of this library.
#[derive(Debug, Clone, Copy, PartialEq, Eq, Structural)]
pub enum TssError {
    /// The TPM answered with this response code, which is not success.
    Tpm(u32),
    /// A client side error.
    Tcs(TssTcsError),
    /// A marshalling error.
    Marshal(MarshalError),
}

pub type TssResult<T> = Result<T, TssError>;

/// The TPM's success response code.
pub const TPM_RC_SUCCESS: u32 = 0;

impl TssError {
    /// The error that a TPM response code stands for: none for success,
    /// otherwise the code itself.
    pub fn from_response_code(rc: u32) -> (r: Option<TssError>)
        ensures
            r == (if rc == TPM_RC_SUCCESS {
                None
            } else {
                Some(TssError::Tpm(rc))
            }),
    {
        if rc == TPM_RC_SUCCESS {
            None
        } else {
            Some(TssError::Tpm(rc))
        }
    }
}

} // verus!
