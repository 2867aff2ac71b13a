//! Errors of the binding and the checks that turn C status codes into them.

use vstd::prelude::*;

verus! {

/// Every way an operation of the binding can fail.
#[derive(Clone, Copy, Debug, PartialEq, Eq, Structural)]
pub enum ChromaprintError {
    /// An error that happend inside the chromaprint library
    Chromaprint,
    /// Chormaprint returned an unkown algorithm number
    UnkownAlgorithm,
    /// Chromaprint returned a non UTF-8 string
    InvalidString,
    /// Chromaprint returned a null pointer
    InvalidBuffer,
    /// Chromaprint returned an invalid size
    InvalidSize,
    /// Chromaprint accepts buffers with a size of at most c_int::MAX
    InputTooLong,
    /// The value of an option lies outside its documented range
    InvalidOption,
}

impl ChromaprintError {
    /// The human readable text of each error.
    pub open spec fn spec_description(self) -> Seq<char> {
        match self {
            ChromaprintError::Chromaprint => "The operation failed"@,
            ChromaprintError::UnkownAlgorithm => "Got an unkown algorithm"@,
            ChromaprintError::InvalidString => "Got an invalid string"@,
            ChromaprintError::InvalidBuffer => "Got an invalid buffer"@,
            ChromaprintError::InvalidSize => "Got an invalid size"@,
            ChromaprintError::InputTooLong => "The provided buffer is too long"@,
            ChromaprintError::InvalidOption => "Got an option value out of range"@,
        }
    }

    /// The message that describes this error to a person.
    pub fn description(&self) -> (res: &'static str)
        ensures
            res@ == self.spec_description(),
    {
        match self {
            ChromaprintError::Chromaprint => "The operation failed",
            ChromaprintError::UnkownAlgorithm => "Got an unkown algorithm",
            ChromaprintError::InvalidString => "Got an invalid string",
            ChromaprintError::InvalidBuffer => "Got an invalid buffer",
            ChromaprintError::InvalidSize => "Got an invalid size",
            ChromaprintError::InputTooLong => "The provided buffer is too long",
            ChromaprintError::InvalidOption => "Got an option value out of range",
        }
    }
}

/// A result with its success value taken by its view.
pub open spec fn result_view<T: View>(res: Result<T, ChromaprintError>) -> Result<
    T::V,
    ChromaprintError,
> {
    match res {
        Ok(v) => Ok(v@),
        Err(e) => Err(e),
    }
}

/// Status code by which the C interface reports success; every other code
/// reports a failure.
pub open spec fn status_ok(status: i32) -> bool {
    status == 1
}

/// Turns a status code of the C interface into a result.
pub fn check_ret(status: i32) -> (res: Result<(), ChromaprintError>)
    ensures
        res is Ok <==> status_ok(status),
        res matches Err(e) ==> e == ChromaprintError::Chromaprint,
{
    if status == 1 {
        Ok(())
    } else {
        Err(ChromaprintError::Chromaprint)
    }
}

/// Size of an encoded fingerprint reported by the C interface, taken as a
/// length: only a positive size is one.
pub open spec fn encoded_size_result(size: i32) -> Result<usize, ChromaprintError> {
    if size > 0 {
        Ok(size as usize)
    } else {
        Err(ChromaprintError::InvalidSize)
    }
}

/// Converts a size reported by the C interface for an encoded fingerprint
/// into a length; zero and negative sizes are refused.
pub fn convert_chromaprint_size(size: i32) -> (res: Result<usize, ChromaprintError>)
    ensures
        res == encoded_size_result(size),
{
    if size == 0 {
        return Err(ChromaprintError::InvalidSize);
    }
    if size < 0 {
        Err(ChromaprintError::InvalidSize)
    } else {
        Ok(size as usize)
    }
}

/// Number of items that a raw fingerprint handed back with `status` and
/// `size` holds: the status must report success and the size must not be
/// negative.
pub open spec fn raw_len_result(status: i32, size: i32) -> Result<usize, ChromaprintError> {
    if !status_ok(status) {
        Err(ChromaprintError::Chromaprint)
    } else if size < 0 {
        Err(ChromaprintError::InvalidSize)
    } else {
        Ok(size as usize)
    }
}

/// Number of items to read from the buffer of a raw fingerprint that the C
/// interface handed back with `status` and `size`.
pub fn raw_buffer_len(status: i32, size: i32) -> (res: Result<usize, ChromaprintError>)
    ensures
        res == raw_len_result(status, size),
        status == 1 && size >= 0 ==> res == Ok::<usize, ChromaprintError>(size as usize),
        res matches Ok(n) ==> status == 1 && n == size,
{
    check_ret(status)?;
    if size < 0 {
        Err(ChromaprintError::InvalidSize)
    } else {
        Ok(size as usize)
    }
}

/// Number of bytes that an encoded fingerprint handed back with `status`
/// and `size` holds: the status must report success and the size must be
/// positive.
pub open spec fn encoded_len_result(status: i32, size: i32) -> Result<usize, ChromaprintError> {
    if !status_ok(status) {
        Err(ChromaprintError::Chromaprint)
    } else {
        encoded_size_result(size)
    }
}

/// Number of bytes to read from the buffer of an encoded fingerprint that
/// the C interface handed back with `status` and `size`.
pub fn encoded_buffer_len(status: i32, size: i32) -> (res: Result<usize, ChromaprintError>)
    ensures
        res == encoded_len_result(status, size),
        status == 1 && size > 0 ==> res == Ok::<usize, ChromaprintError>(size as usize),
        res matches Ok(n) ==> status == 1 && n == size,
{
    check_ret(status)?;
    convert_chromaprint_size(size)
}

/// A raw fingerprint reported with a success status and a size that is not
/// negative is read with exactly that many items; every other report is
/// refused.
pub proof fn lemma_raw_len_is_reported_size(status: i32, size: i32)
    ensures
        status == 1 && size >= 0 ==> raw_len_result(status, size) == Ok::<
            usize,
            ChromaprintError,
        >(size as usize),
        raw_len_result(status, size) matches Ok(n) ==> status == 1 && n == size,
        status != 1 ==> raw_len_result(status, size) == Err::<usize, ChromaprintError>(
            ChromaprintError::Chromaprint,
        ),
{
}

/// An encoded fingerprint reported with a success status and a positive size
/// is read with exactly that many bytes; every other report is refused.
pub proof fn lemma_encoded_len_is_reported_size(status: i32, size: i32)
    ensures
        status == 1 && size > 0 ==> encoded_len_result(status, size) == Ok::<
            usize,
            ChromaprintError,
        >(size as usize),
        encoded_len_result(status, size) matches Ok(n) ==> status == 1 && n == size,
        status == 1 && size <= 0 ==> encoded_len_result(status, size) == Err::<
            usize,
            ChromaprintError,
        >(ChromaprintError::InvalidSize),
{
}

} // verus!
