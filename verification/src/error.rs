//! The error reporter: assembling an owned diagnostic snapshot from the
//! plain fields of the native one.
//!
//! The native snapshot's strings are owned by the native side and must only
//! be copied out. The glue copies each one (or reports that it was null or
//! undecodable) and hands the plain fields to `build_error`, which owns the
//! assembly rules: a zero return code is no error at all, a missing string
//! becomes the fixed placeholder, and unrecognized severity and state codes
//! become empty values rather than faults.

use vstd::prelude::*;

verus! {

/// The severity of a native diagnostic.
#[derive(Clone, Copy, Debug, PartialEq, Eq, Structural)]
pub enum Severity {
    Notice,
    Warning,
    Error,
    System,
    Internal,
}

impl Severity {
    /// The severity a native integer code stands for, if any.
    pub open spec fn spec_from_code(code: i32) -> Option<Severity> {
        if code == 1 {
            Some(Severity::Notice)
        } else if code == 2 {
            Some(Severity::Warning)
        } else if code == 3 {
            Some(Severity::Error)
        } else if code == 4 {
            Some(Severity::System)
        } else if code == 5 {
            Some(Severity::Internal)
        } else {
            None
        }
    }

    /// Decode a native severity code; an unrecognized code is an empty
    /// result, not an error.
    pub fn from_code(code: i32) -> (r: Option<Severity>)
        ensures
            r == Severity::spec_from_code(code),
    {
        if code == 1 {
            Some(Severity::Notice)
        } else if code == 2 {
            Some(Severity::Warning)
        } else if code == 3 {
            Some(Severity::Error)
        } else if code == 4 {
            Some(Severity::System)
        } else if code == 5 {
            Some(Severity::Internal)
        } else {
            None
        }
    }
}

/// The phase of operation a native diagnostic was raised in.
#[derive(Clone, Copy, Debug, PartialEq, Eq, Structural)]
pub enum ErrorState {
    Compile,
    PLI,
    Run,
}

impl ErrorState {
    /// The phase a native integer code stands for, if any.
    pub open spec fn spec_from_code(code: i32) -> Option<ErrorState> {
        if code == 1 {
            Some(ErrorState::Compile)
        } else if code == 2 {
            Some(ErrorState::PLI)
        } else if code == 3 {
            Some(ErrorState::Run)
        } else {
            None
        }
    }

    /// Decode a native phase code; an unrecognized code is an empty result,
    /// not an error.
    pub fn from_code(code: i32) -> (r: Option<ErrorState>)
        ensures
            r == ErrorState::spec_from_code(code),
    {
        if code == 1 {
            Some(ErrorState::Compile)
        } else if code == 2 {
            Some(ErrorState::PLI)
        } else if code == 3 {
            Some(ErrorState::Run)
        } else {
            None
        }
    }
}

/// An owned diagnostic snapshot: every string copied out of native memory,
/// nothing referencing it.
#[derive(Debug)]
pub struct VPIError {
    pub code: String,
    pub message: String,
    pub file: Option<String>,
    pub line: i32,
    pub severity: Option<Severity>,
    pub state: Option<ErrorState>,
    pub product: String,
}

/// The characters a copied native string contributes to the snapshot: its
/// own when the native side supplied decodable text, the fixed placeholder
/// otherwise.
pub open spec fn spec_or_unknown(o: Option<String>) -> Seq<char> {
    match o {
        Some(s) => s@,
        None => "Unknown"@,
    }
}

/// A copied native string, or the fixed placeholder where the native side
/// left it null or it failed to decode as text.
pub fn owned_or_unknown(o: Option<String>) -> (r: String)
    ensures
        r@ == spec_or_unknown(o),
{
    match o {
        Some(s) => s,
        None => "Unknown".to_owned(),
    }
}

/// Assemble the diagnostic snapshot from the plain fields of the native one:
/// no snapshot at all when the native call answered zero; otherwise the
/// code, message and product strings with the placeholder substituted for
/// missing text, the file kept optional, and the severity and phase decoded
/// from their codes, empty when unrecognized.
pub fn build_error(
    ret: i32,
    code: Option<String>,
    message: Option<String>,
    file: Option<String>,
    line: i32,
    level: i32,
    state: i32,
    product: Option<String>,
) -> (r: Option<VPIError>)
    ensures
        (r is Some) == (ret != 0),
        r matches Some(e) ==> {
            &&& e.code@ == spec_or_unknown(code)
            &&& e.message@ == spec_or_unknown(message)
            &&& e.file == file
            &&& e.line == line
            &&& e.severity == Severity::spec_from_code(level)
            &&& e.state == ErrorState::spec_from_code(state)
            &&& e.product@ == spec_or_unknown(product)
        },
{
    if ret == 0 {
        None
    } else {
        Some(
            VPIError {
                code: owned_or_unknown(code),
                message: owned_or_unknown(message),
                file,
                line,
                severity: Severity::from_code(level),
                state: ErrorState::from_code(state),
                product: owned_or_unknown(product),
            },
        )
    }
}

} // verus!
