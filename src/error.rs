use vstd::prelude::*;
use vstd::string::*;

verus! {

/// Every failure that an operation of the bridge can produce.
#[derive(Clone, Debug, PartialEq, Eq)]
pub enum Error {
    /// A holder of the handle's exclusive access terminated abnormally; the
    /// object behind the handle is permanently unusable.
    PoisonedLock,
    /// Caller-supplied structured input failed field-level validation.
    BadParameter,
    /// The underlying capability rejected the call; the text says why.
    OperationFailed(String),
    /// A boundary value named none of the variants that were asked for.
    EnumVariantNotFound,
    /// A boundary value did not have the shape that decoding expected.
    ConversionFailed,
}

/// The categories that a caller can tell apart.
#[derive(Clone, Copy, Debug, PartialEq, Eq, Structural)]
pub enum ErrorCategory {
    /// The object's internal state is corrupted; retrying cannot help.
    InternalStateCorrupted,
    /// The caller passed a malformed argument.
    BadParameter,
    /// The cryptographic operation itself failed.
    OperationFailed,
    /// A boundary value could not be decoded.
    ConversionFailed,
}

/// The error shape delivered to the host caller.
#[derive(Clone, Debug, PartialEq, Eq)]
pub struct CallerError {
    pub category: ErrorCategory,
    pub message: String,
}

pub open spec fn category_of(e: Error) -> ErrorCategory {
    match e {
        Error::PoisonedLock => ErrorCategory::InternalStateCorrupted,
        Error::BadParameter => ErrorCategory::BadParameter,
        Error::OperationFailed(_) => ErrorCategory::OperationFailed,
        Error::EnumVariantNotFound => ErrorCategory::ConversionFailed,
        Error::ConversionFailed => ErrorCategory::ConversionFailed,
    }
}

pub open spec fn message_of(e: Error) -> Seq<char> {
    match e {
        Error::PoisonedLock => "internal state corrupted: the object's lock is poisoned"@,
        Error::BadParameter => "bad parameter"@,
        Error::OperationFailed(detail) => "operation failed: "@ + detail@,
        Error::EnumVariantNotFound => "no matching enum variant"@,
        Error::ConversionFailed => "conversion failed"@,
    }
}

impl Error {
    /// The text of the caller-visible message for this error.
    pub fn message(&self) -> (r: String)
        ensures
            r@ == message_of(*self),
    {
        match self {
            Error::PoisonedLock => {
                let r = "internal state corrupted: the object's lock is poisoned".to_owned();
                proof {
                    reveal_strlit("internal state corrupted: the object's lock is poisoned");
                }
                r
            },
            Error::BadParameter => {
                let r = "bad parameter".to_owned();
                proof {
                    reveal_strlit("bad parameter");
                }
                r
            },
            Error::OperationFailed(detail) => {
                let r = "operation failed: ".to_owned().concat(detail.as_str());
                proof {
                    reveal_strlit("operation failed: ");
                }
                r
            },
            Error::EnumVariantNotFound => {
                let r = "no matching enum variant".to_owned();
                proof {
                    reveal_strlit("no matching enum variant");
                }
                r
            },
            Error::ConversionFailed => {
                let r = "conversion failed".to_owned();
                proof {
                    reveal_strlit("conversion failed");
                }
                r
            },
        }
    }

    /// The caller-visible category of this error.
    pub fn category(&self) -> (r: ErrorCategory)
        ensures
            r == category_of(*self),
    {
        match self {
            Error::PoisonedLock => ErrorCategory::InternalStateCorrupted,
            Error::BadParameter => ErrorCategory::BadParameter,
            Error::OperationFailed(_) => ErrorCategory::OperationFailed,
            Error::EnumVariantNotFound => ErrorCategory::ConversionFailed,
            Error::ConversionFailed => ErrorCategory::ConversionFailed,
        }
    }
}

/// Maps an internal error to what the caller sees. The mapping is total, and
/// a poisoned lock is never reported as a bad parameter.
pub fn to_caller_error(e: &Error) -> (r: CallerError)
    ensures
        r.category == category_of(*e),
        r.message@ == message_of(*e),
        (r.category == ErrorCategory::InternalStateCorrupted) <==> (*e == Error::PoisonedLock),
{
    CallerError { category: e.category(), message: e.message() }
}

} // verus!
