//! The envelope of every JSON answer: `ok`, the data, and the error of a
//! failed command.
use vstd::prelude::*;

verus! {

/// The error object of a failed command's answer.
pub struct JsonError {
    pub message: String,
}

/// The answer of a command: `ok` with its data, or not `ok` with an error and
/// no data (written as an empty object).
pub struct JsonResponse<T> {
    pub ok: bool,
    pub data: Option<T>,
    pub error: Option<JsonError>,
}

impl<T> JsonResponse<T> {
    /// The answer of a command that succeeded with `data`.
    pub fn success(data: T) -> (r: JsonResponse<T>)
        ensures
            r.ok,
            r.data == Some(data),
            r.error is None,
    {
        JsonResponse { ok: true, data: Some(data), error: None }
    }

    /// The answer of a command that failed with `message`.
    pub fn from_error(message: String) -> (r: JsonResponse<T>)
        ensures
            !r.ok,
            r.data is None,
            r.error matches Some(e) && e.message@ == message@,
    {
        JsonResponse { ok: false, data: None, error: Some(JsonError { message }) }
    }
}

} // verus!
