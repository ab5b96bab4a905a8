//! Classification of one HTTP response.

use vstd::prelude::*;
use crate::text::{decimal_u32, parse_u32};

verus! {

/// How a single response was classified when it did not yield a payload.
#[derive(Clone, Debug)]
pub enum ValidateResponseError {
    FailToParse(String),
    Banned(Option<u32>),
    InnerError(String),
    KeyExpired,
    UnexpectedResponseCode(u16),
}

/// Why a response could not be turned into a payload.
#[derive(Clone, Debug)]
pub enum ResponseTransformerError {
    ValidateResponseError(ValidateResponseError),
}

/// The wait, in seconds, that a `retry-after` header value states.
pub open spec fn retry_after_of(header: Option<Seq<char>>) -> Option<u32> {
    match header {
        Some(h) => decimal_u32(h),
        None => None,
    }
}

/// The wait a `retry-after` header value states: `None` when the header is
/// absent or is not a non-negative integer.
pub fn retry_after_seconds(header: Option<&str>) -> (r: Option<u32>)
    ensures
        r == retry_after_of(
            match header {
                Some(h) => Some(h@),
                None => None,
            },
        ),
{
    match header {
        Some(h) => parse_u32(h),
        None => None,
    }
}

/// Classifies a response from its status, the outcome of decoding its body
/// and its `retry-after` header value: 200 yields the decoded value or
/// `FailToParse`, 429 yields `Banned` with the stated wait, and any other
/// status `UnexpectedResponseCode`.
pub fn validate_response<T>(code: u16, decoded: Result<T, String>, retry_after: Option<&str>) -> (r: Result<
    T,
    ValidateResponseError,
>)
    ensures
        code == 200 ==> match decoded {
            Ok(v) => r == Ok::<T, ValidateResponseError>(v),
            Err(m) => r == Err::<T, _>(ValidateResponseError::FailToParse(m)),
        },
        code == 429 ==> r == Err::<T, _>(
            ValidateResponseError::Banned(
                retry_after_of(
                    match retry_after {
                        Some(h) => Some(h@),
                        None => None,
                    },
                ),
            ),
        ),
        code != 200 && code != 429 ==> r == Err::<T, _>(
            ValidateResponseError::UnexpectedResponseCode(code),
        ),
{
    if code == 200 {
        match decoded {
            Ok(v) => Ok(v),
            Err(m) => Err(ValidateResponseError::FailToParse(m)),
        }
    } else if code == 429 {
        Err(ValidateResponseError::Banned(retry_after_seconds(retry_after)))
    } else {
        Err(ValidateResponseError::UnexpectedResponseCode(code))
    }
}

} // verus!
