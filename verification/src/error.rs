//! The uniform error model shared by every platform.

use vstd::prelude::*;

verus! {

/// Why an exclusive rename, or a probe for it, did not succeed.
#[derive(Clone, Copy, Debug, PartialEq, Eq, Structural)]
pub enum Error {
    /// Something already exists at the destination.
    AlreadyExists,
    /// The atomic primitive is not available on this platform or file system.
    Unsupported,
    /// Any other failure the operating system reported, with its own code.
    NativeOs(i32),
    /// A path cannot be written in the string encoding the native call reads.
    InvalidPathEncoding,
    /// The kernel version text is not of the expected form.
    DataFormat,
}

/// How the platform's runtime sorts an I/O error, as far as this library
/// tells the sorts apart.
#[derive(Clone, Copy, Debug, PartialEq, Eq, Structural)]
pub enum Kind {
    AlreadyExists,
    Unsupported,
    InvalidInput,
    InvalidData,
    Other,
}

impl Error {
    /// The error that stands for an I/O error of the sort `kind` which
    /// carries the operating system's code `code`, or none.
    ///
    /// The two sorts that callers act on keep their meaning whatever the
    /// code. Any other failure of the operating system keeps its code. An
    /// error that the runtime raised by itself is an encoding error where it
    /// refused an input, a format error where it refused data.
    pub open spec fn of_io(kind: Kind, code: Option<i32>) -> Error {
        match (kind, code) {
            (Kind::AlreadyExists, _) => Error::AlreadyExists,
            (Kind::Unsupported, _) => Error::Unsupported,
            (_, Some(code)) => Error::NativeOs(code),
            (Kind::InvalidInput, None) => Error::InvalidPathEncoding,
            (Kind::InvalidData, None) => Error::DataFormat,
            (Kind::Other, None) => Error::NativeOs(0),
        }
    }

    /// Sorts an I/O error into the error model.
    pub fn from_io(kind: Kind, code: Option<i32>) -> (error: Error)
        ensures
            error == Error::of_io(kind, code),
    {
        match kind {
            Kind::AlreadyExists => Error::AlreadyExists,
            Kind::Unsupported => Error::Unsupported,
            _ => match code {
                Some(code) => Error::NativeOs(code),
                None => match kind {
                    Kind::InvalidInput => Error::InvalidPathEncoding,
                    Kind::InvalidData => Error::DataFormat,
                    _ => Error::NativeOs(0),
                },
            },
        }
    }

    /// The sort of I/O error that this error is.
    pub open spec fn spec_kind(&self) -> Kind {
        match *self {
            Error::AlreadyExists => Kind::AlreadyExists,
            Error::Unsupported => Kind::Unsupported,
            Error::NativeOs(_) => Kind::Other,
            Error::InvalidPathEncoding => Kind::InvalidInput,
            Error::DataFormat => Kind::InvalidData,
        }
    }

    /// The sort of I/O error that this error is.
    #[verifier::when_used_as_spec(spec_kind)]
    pub fn kind(&self) -> (kind: Kind)
        ensures
            kind == self.spec_kind(),
    {
        match *self {
            Error::AlreadyExists => Kind::AlreadyExists,
            Error::Unsupported => Kind::Unsupported,
            Error::NativeOs(_) => Kind::Other,
            Error::InvalidPathEncoding => Kind::InvalidInput,
            Error::DataFormat => Kind::InvalidData,
        }
    }

    /// The operating system's code of this error, where it carries one.
    pub open spec fn spec_raw_os_error(&self) -> Option<i32> {
        match *self {
            Error::NativeOs(code) => Some(code),
            _ => None,
        }
    }

    /// The operating system's code of this error, where it carries one.
    #[verifier::when_used_as_spec(spec_raw_os_error)]
    pub fn raw_os_error(&self) -> (code: Option<i32>)
        ensures
            code == self.spec_raw_os_error(),
    {
        match *self {
            Error::NativeOs(code) => Some(code),
            _ => None,
        }
    }
}

/// Nothing is lost on the way out and back: an error's sort and code give
/// the same error again.
pub proof fn lemma_error_is_kept(error: Error)
    ensures
        Error::of_io(error.kind(), error.raw_os_error()) == error,
{
}

} // verus!
