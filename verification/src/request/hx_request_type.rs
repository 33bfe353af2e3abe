//! The `hx-request-type` request header.

use crate::auto_vary::after_report;
use crate::auto_vary::HxRequestHeader;
use crate::auto_vary::Store;
use crate::header::just_one;
use crate::header::Error;
use crate::header::HeaderValue;
use vstd::prelude::*;
use vstd::utf8::encode_utf8;

verus! {

/// Whether htmx asks for a part of the page or for the whole of it.
#[derive(Debug, Clone, Copy, PartialEq, Eq, Hash, Structural)]
pub enum HxRequestType {
    /// The request targets one element of the page.
    Partial,
    /// The request targets the whole body, or picks its content with
    /// `hx-select`.
    Full,
}

impl HxRequestType {
    /// What the values of the header hold: there must be one value, the word
    /// `partial` or the word `full`, in lower case.
    pub open spec fn decoded(values: Seq<HeaderValue>) -> Result<HxRequestType, Error> {
        if values.len() != 1 {
            Err(Error::Invalid)
        } else if values[0]@ == encode_utf8("partial"@) {
            Ok(HxRequestType::Partial)
        } else if values[0]@ == encode_utf8("full"@) {
            Ok(HxRequestType::Full)
        } else {
            Err(Error::Invalid)
        }
    }

    /// The name of the header, which is its name in the catalogue.
    pub fn name() -> (name: &'static str)
        ensures
            name@ == "hx-request-type"@,
            name@ == HxRequestHeader::RequestType.wire_name(),
    {
        HxRequestHeader::RequestType.header_name()
    }

    /// Reads the header from its values.
    pub fn decode(values: &[HeaderValue]) -> (header: Result<HxRequestType, Error>)
        ensures
            header == Self::decoded(values@),
    {
        match just_one(values) {
            Some(value) => {
                if value.is("partial") {
                    Ok(HxRequestType::Partial)
                } else if value.is("full") {
                    Ok(HxRequestType::Full)
                } else {
                    Err(Error::invalid())
                }
            },
            None => Err(Error::invalid()),
        }
    }

    /// A request header is not sent by a server: there is no value.
    pub fn encode(&self) -> (value: Result<HeaderValue, Error>)
        ensures
            value matches Err(e) && e == Error::WrongDirection,
    {
        Err(Error::WrongDirection)
    }

    /// Reads the header for a handler: the read is reported to the ledger of
    /// `store`, whatever comes of it, and the values are decoded.
    pub fn from_request_parts(store: &mut Store, values: &[HeaderValue]) -> (header: Result<
        HxRequestType,
        Error,
    >)
        ensures
            final(store)@ == after_report(old(store)@, HxRequestHeader::RequestType),
            header == Self::decoded(values@),
    {
        store.report(HxRequestHeader::RequestType);
        HxRequestType::decode(values)
    }
}

} // verus!
