//! The error taxonomy for image and resource operations, and the mapping
//! from native result codes onto it.

use vstd::prelude::*;

verus! {

/// Native result code: the operation succeeded.
pub const GR_OK: i32 = 0;

/// Native result code: the file was not found.
pub const GR_FILE_NOT_FOUND: i32 = -3;

/// Native result code: a read or write failed.
pub const GR_IO_ERROR: i32 = -12;

/// Native result code: a pointer conversion failed.
pub const GR_NULL_POINTER: i32 = 20;

/// Native result code: an allocation failed.
pub const GR_ALLOC_ERROR: i32 = 21;

/// Error taxonomy for fallible image and resource operations.
#[derive(Clone, Copy, Debug, PartialEq, Eq, Structural, Hash)]
pub enum ImageError {
    /// Memory allocation failed during a read operation.
    AllocError,
    /// The file does not exist.
    FileNotFound,
    /// Pointer conversion failed.
    NullPointer,
    /// Reading or writing failed.
    IOError,
    /// Any other native error code.
    UnknownError,
    /// A caller-supplied path is not representable as valid text.
    PathParserError,
}

/// The taxonomy member a native result code maps to: zero is success, each
/// recognized failure code has its own member, and every other code is
/// [`ImageError::UnknownError`].
pub open spec fn spec_handle_result(code: i32) -> Result<(), ImageError> {
    if code == GR_OK {
        Ok(())
    } else if code == GR_FILE_NOT_FOUND {
        Err(ImageError::FileNotFound)
    } else if code == GR_ALLOC_ERROR {
        Err(ImageError::AllocError)
    } else if code == GR_NULL_POINTER {
        Err(ImageError::NullPointer)
    } else if code == GR_IO_ERROR {
        Err(ImageError::IOError)
    } else {
        Err(ImageError::UnknownError)
    }
}

/// Map a native result code to the error taxonomy.
pub fn handle_result(result: i32) -> (r: Result<(), ImageError>)
    ensures
        r == spec_handle_result(result),
{
    if result == GR_OK {
        Ok(())
    } else if result == GR_FILE_NOT_FOUND {
        Err(ImageError::FileNotFound)
    } else if result == GR_ALLOC_ERROR {
        Err(ImageError::AllocError)
    } else if result == GR_NULL_POINTER {
        Err(ImageError::NullPointer)
    } else if result == GR_IO_ERROR {
        Err(ImageError::IOError)
    } else {
        Err(ImageError::UnknownError)
    }
}

/// Every defined native result code maps to exactly one taxonomy member,
/// and every unrecognized code maps to [`ImageError::UnknownError`].
pub proof fn lemma_error_mapping(code: i32)
    ensures
        code == GR_OK <==> spec_handle_result(code) is Ok,
        code == GR_FILE_NOT_FOUND <==> spec_handle_result(code) == Result::<(), ImageError>::Err(
            ImageError::FileNotFound,
        ),
        code == GR_ALLOC_ERROR <==> spec_handle_result(code) == Result::<(), ImageError>::Err(
            ImageError::AllocError,
        ),
        code == GR_NULL_POINTER <==> spec_handle_result(code) == Result::<(), ImageError>::Err(
            ImageError::NullPointer,
        ),
        code == GR_IO_ERROR <==> spec_handle_result(code) == Result::<(), ImageError>::Err(
            ImageError::IOError,
        ),
        (code != GR_OK && code != GR_FILE_NOT_FOUND && code != GR_ALLOC_ERROR && code
            != GR_NULL_POINTER && code != GR_IO_ERROR) <==> spec_handle_result(code)
            == Result::<(), ImageError>::Err(ImageError::UnknownError),
{
}

impl ImageError {
    /// A human-readable description of the error.
    pub fn message(&self) -> (r: String)
        ensures
            self is AllocError ==> r@ == "Memory allocation failed during read operation."@,
            self is FileNotFound ==> r@ == "The file does not exist."@,
            self is NullPointer ==> r@ == "Pointer conversion failed."@,
            self is IOError ==> r@ == "Reading failed."@,
            self is UnknownError ==> r@ == "Other Unknown error."@,
            self is PathParserError ==> r@ == "Path parsing error."@,
    {
        match self {
            ImageError::AllocError => "Memory allocation failed during read operation.".to_owned(),
            ImageError::FileNotFound => "The file does not exist.".to_owned(),
            ImageError::NullPointer => "Pointer conversion failed.".to_owned(),
            ImageError::IOError => "Reading failed.".to_owned(),
            ImageError::UnknownError => "Other Unknown error.".to_owned(),
            ImageError::PathParserError => "Path parsing error.".to_owned(),
        }
    }
}

} // verus!
