//! The `hx-preload` request header.

use crate::header::Error;
use crate::header::HeaderValue;
use crate::header::decode_flag;
use crate::header::is_flag;
use vstd::prelude::*;

verus! {

/// Indicates that the request is an htmx preload request.
#[derive(Debug, Clone, Copy, PartialEq, Eq, Hash, Structural)]
pub struct HxPreload;

impl HxPreload {
    /// The name of the header.
    pub fn name() -> (name: &'static str)
        ensures
            name@ == "hx-preload"@,
    {
        "hx-preload"
    }

    /// Reads the header from its values: there must be one, and it must be
    /// the word `true`.
    pub fn decode(values: &[HeaderValue]) -> (header: Result<HxPreload, Error>)
        ensures
            header is Ok <==> is_flag(values@),
            header matches Err(e) ==> e == Error::Invalid,
    {
        if decode_flag(values) {
            Ok(HxPreload)
        } else {
            Err(Error::invalid())
        }
    }

    /// A request header is not sent by a server: there is no value.
    pub fn encode(&self) -> (value: Result<HeaderValue, Error>)
        ensures
            value matches Err(e) && e == Error::WrongDirection,
    {
        Err(Error::WrongDirection)
    }
}

} // verus!
