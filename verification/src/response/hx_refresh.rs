//! The `hx-refresh` response header.

use crate::header::Error;
use crate::header::HeaderValue;
use crate::header::decode_flag;
use crate::header::is_flag;
use crate::header::true_value;
use vstd::prelude::*;
use vstd::utf8::encode_utf8;

verus! {

/// Indicates that the client is to do a full refresh of the page.
#[derive(Debug, Clone, Copy, PartialEq, Eq, Hash, Structural)]
pub struct HxRefresh;

impl HxRefresh {
    /// The name of the header.
    pub fn name() -> (name: &'static str)
        ensures
            name@ == "hx-refresh"@,
    {
        "hx-refresh"
    }

    /// Reads the header from its values: there must be one, and it must be
    /// the word `true`.
    pub fn decode(values: &[HeaderValue]) -> (header: Result<HxRefresh, Error>)
        ensures
            header is Ok <==> is_flag(values@),
            header matches Err(e) ==> e == Error::Invalid,
    {
        if decode_flag(values) {
            Ok(HxRefresh)
        } else {
            Err(Error::invalid())
        }
    }

    /// The value of the header: the word `true`.
    pub fn encode(&self) -> (value: Result<HeaderValue, Error>)
        ensures
            value matches Ok(v) && v@ == encode_utf8("true"@),
    {
        Ok(true_value())
    }
}

} // verus!
