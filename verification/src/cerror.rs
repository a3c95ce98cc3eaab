//! The outcome of a call across the native boundary: a numeric code and a text.

use crate::native_text::{lossy_text, text_from_bytes};
use vstd::prelude::*;
use vstd::utf8::{decode_utf8, valid_utf8};

verus! {

/// The code that reports success.
pub const CODE_SUCCESS: i32 = 0;

/// The code by which the native layer reports that an enumeration found no
/// targets. It is the only nonzero code that is advisory.
pub const CODE_NO_TARGETS: i32 = 2;

/// The code of the outcome that the library makes itself when a device name
/// cannot be handed to the native layer, because it holds a NUL byte.
pub const CODE_INVALID_DEVICE_NAME: i32 = -1;

/// How a caller has to treat the outcome of a native call.
#[derive(Clone, Copy, Debug, PartialEq, Eq, Structural)]
pub enum ErrorKind {
    /// The call succeeded.
    Success,
    /// The enumeration found nothing: logged, and the operation goes on.
    NoTargets,
    /// Any other failure: handed to the caller.
    Fatal,
}

/// What `code` means to a caller.
pub open spec fn kind_of(code: i32) -> ErrorKind {
    if code == CODE_SUCCESS {
        ErrorKind::Success
    } else if code == CODE_NO_TARGETS {
        ErrorKind::NoTargets
    } else {
        ErrorKind::Fatal
    }
}

/// The codes that do not fail an enumeration are the code of success and the
/// code for "no targets", and no other.
pub proof fn lemma_only_two_codes_are_not_fatal(code: i32)
    ensures
        kind_of(code) != ErrorKind::Fatal <==> (code == 0 || code == 2),
        kind_of(code) == ErrorKind::Success <==> code == 0,
        kind_of(code) == ErrorKind::NoTargets <==> code == 2,
{
}

/// Code and message of one native call. Callers branch on the code; the
/// message is for logs only.
#[derive(Debug)]
pub struct CError {
    pub code: i32,
    pub message: String,
}

impl CError {
    /// A fresh outcome, as handed to a native call: success, no message.
    pub fn new() -> (r: CError)
        ensures
            r.code == CODE_SUCCESS,
            r.message@ == Seq::<char>::empty(),
    {
        CError { code: 0, message: String::new() }
    }

    /// The outcome that a native call wrote: its code, and the bytes of its
    /// message without the terminator.
    pub fn from_native(code: i32, message: &[u8]) -> (r: CError)
        ensures
            r.code == code,
            r.message@ == lossy_text(message@),
            valid_utf8(message@) ==> r.message@ == decode_utf8(message@),
    {
        CError { code, message: text_from_bytes(message) }
    }

    /// Whether the call failed.
    pub fn is_err(&self) -> (r: bool)
        ensures
            r == (self.code != CODE_SUCCESS),
    {
        self.code != 0
    }

    /// The numeric code.
    pub fn code(&self) -> (r: i32)
        ensures
            r == self.code,
    {
        self.code
    }

    /// The treatment that the code asks for.
    pub fn kind(&self) -> (r: ErrorKind)
        ensures
            r == kind_of(self.code),
    {
        if self.code == CODE_SUCCESS {
            ErrorKind::Success
        } else if self.code == CODE_NO_TARGETS {
            ErrorKind::NoTargets
        } else {
            ErrorKind::Fatal
        }
    }
}

} // verus!
