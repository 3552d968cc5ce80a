//! The errors the library itself reports, and how an HTTP answer is judged.

use vstd::prelude::*;
use vstd::string::*;

verus! {

/// An error of the tools.
pub enum AppError {
    /// A failure inside the application, with its explanation.
    Internal(String),
    /// An HTTP answer that was not a success: its status code and body.
    Http(u16, String),
}

/// Whether an HTTP status code is a success (200 to 299).
pub fn is_success_status(code: u16) -> (r: bool)
    ensures
        r == (200 <= code < 300),
{
    200 <= code && code < 300
}

/// The error for an HTTP answer that was not a success; a body that could
/// not be read is reported as `Empty body`.
pub fn http_failure(code: u16, body: Option<String>) -> (e: AppError)
    ensures
        e matches AppError::Http(c, b) && c == code && b@ == match body {
            Some(t) => t@,
            None => "Empty body"@,
        },
{
    match body {
        Some(b) => AppError::Http(code, b),
        None => AppError::Http(code, String::from_str("Empty body")),
    }
}

} // verus!
