//! The failure type of every driver operation.
use vstd::prelude::*;
use vstd::string::*;

use crate::name_desc::{get_name_desc, name_desc_spec};
use crate::text::{push_signed_decimal, signed_decimal};

verus! {

/// Code for an argument the driver rejects; also what an empty launch reports.
pub const CUDA_ERROR_INVALID_VALUE: i32 = 1;

/// Code for a kernel image the device cannot load.
pub const CUDA_ERROR_INVALID_IMAGE: i32 = 200;

/// Code for text that is not valid intermediate code for the device; also what
/// a name or image holding a NUL byte reports.
pub const CUDA_ERROR_INVALID_PTX: i32 = 218;

/// A non-zero result code of the driver.
#[derive(Clone, Copy, Debug, PartialEq, Eq, Structural)]
pub struct CUerror {
    code: i32,
}

/// Success, or the driver's failure code.
pub type CUresult = Result<(), CUerror>;

impl View for CUerror {
    type V = i32;

    closed spec fn view(&self) -> i32 {
        self.code
    }
}

impl CUerror {
    /// Whether this error is well formed: zero means success and is never an error.
    pub closed spec fn wf(&self) -> bool {
        self.code != 0
    }

    /// Wraps a non-zero code; zero is no error.
    pub fn new(code: i32) -> (r: Option<CUerror>)
        ensures
            code == 0 <==> r is None,
            r matches Some(e) ==> e@ == code && e.wf(),
    {
        if code == 0 {
            None
        } else {
            Some(CUerror { code })
        }
    }

    /// The numeric code.
    pub fn code(&self) -> (r: i32)
        requires
            self.wf(),
        ensures
            r == self@,
            r != 0,
    {
        self.code
    }

    /// The error an empty launch reports.
    pub fn empty_launch() -> (r: CUerror)
        ensures
            r@ == CUDA_ERROR_INVALID_VALUE,
            r.wf(),
    {
        CUerror { code: CUDA_ERROR_INVALID_VALUE }
    }

    /// The name and description of a result code, from the table.
    pub fn get_name_desc(code: i32) -> (r: (&'static str, &'static str))
        ensures
            (r.0@, r.1@) == name_desc_spec(code),
    {
        get_name_desc(code)
    }

    /// The error a name or image holding a NUL byte reports.
    pub fn encoding() -> (r: CUerror)
        ensures
            r@ == CUDA_ERROR_INVALID_PTX,
            r.wf(),
    {
        CUerror { code: CUDA_ERROR_INVALID_PTX }
    }
}

/// The hint added to the message of the two codes that almost always mean an
/// image built for another architecture.
pub const ARCH_MISMATCH_HINT: &'static str =
    "  (executing `ptxas -arch sm_{your gpu sm version} your_ptx_code.ptx` might be helpful)";

/// Whether a code almost always means an image/architecture mismatch.
pub open spec fn is_arch_mismatch(code: i32) -> bool {
    code == CUDA_ERROR_INVALID_IMAGE || code == CUDA_ERROR_INVALID_PTX
}

/// The message of an error: its name, code and description, each name and
/// description quoted, and the mismatch hint for the two codes that call for it.
pub open spec fn error_message(code: i32) -> Seq<char> {
    let (name, desc) = name_desc_spec(code);
    let base = "CUDA error: \""@ + name + "\" ("@ + signed_decimal(code as int) + "): \""@ + desc
        + "\""@;
    if is_arch_mismatch(code) {
        base + ARCH_MISMATCH_HINT@
    } else {
        base
    }
}

impl CUerror {
    /// The message of this error, with the hint for image/architecture
    /// mismatches.
    pub fn describe(&self) -> (r: String)
        ensures
            r@ == error_message(self@),
    {
        let (name, desc) = get_name_desc(self.code);
        let mut s = String::from_str("CUDA error: \"");
        s.append(name);
        s.append("\" (");
        push_signed_decimal(&mut s, self.code);
        s.append("): \"");
        s.append(desc);
        s.append("\"");
        if self.code == CUDA_ERROR_INVALID_IMAGE || self.code == CUDA_ERROR_INVALID_PTX {
            s.append(ARCH_MISMATCH_HINT);
        }
        s
    }
}

/// What a driver status means: zero is success, anything else that failure.
pub open spec fn status_result(status: i32) -> Result<(), i32> {
    if status == 0 {
        Ok(())
    } else {
        Err(status)
    }
}

/// The view of a driver result: the failure's code, if any.
pub open spec fn result_view(r: CUresult) -> Result<(), i32> {
    match r {
        Ok(()) => Ok(()),
        Err(e) => Err(e@),
    }
}

/// Turns a driver status into a result.
pub fn check(status: i32) -> (r: CUresult)
    ensures
        result_view(r) == status_result(status),
        r matches Err(e) ==> e.wf(),
{
    match CUerror::new(status) {
        None => Ok(()),
        Some(e) => Err(e),
    }
}

} // verus!
