//! The `hx-history-restore-request` request header.

use crate::auto_vary::HxRequestHeader;
use crate::auto_vary::Store;
use crate::auto_vary::after_report;
use crate::header::Error;
use crate::header::HeaderValue;
use crate::header::decode_flag;
use crate::header::is_flag;
use vstd::prelude::*;

verus! {

/// Indicates that the request is for history restoration after a miss in the local history cache.
#[derive(Debug, Clone, Copy, PartialEq, Eq, Hash, Structural)]
pub struct HxHistoryRestoreRequest;

impl HxHistoryRestoreRequest {
    /// The name of the header, which is its name in the catalogue.
    pub fn name() -> (name: &'static str)
        ensures
            name@ == "hx-history-restore-request"@,
            name@ == HxRequestHeader::HistoryRestoreRequest.wire_name(),
    {
        HxRequestHeader::HistoryRestoreRequest.header_name()
    }

    /// Reads the header from its values: there must be one, and it must be
    /// the word `true`.
    pub fn decode(values: &[HeaderValue]) -> (header: Result<HxHistoryRestoreRequest, Error>)
        ensures
            header is Ok <==> is_flag(values@),
            header matches Err(e) ==> e == Error::Invalid,
    {
        if decode_flag(values) {
            Ok(HxHistoryRestoreRequest)
        } else {
            Err(Error::invalid())
        }
    }

    /// A request header is not sent by a server: there is no value.
    pub fn encode(&self) -> (value: Result<HeaderValue, Error>)
        ensures
            value matches Err(e) && e == Error::WrongDirection,
    {
        Err(Error::WrongDirection)
    }

    /// Reads the header for a handler: the read is reported to the ledger of
    /// `store`, whatever comes of it, and the values are decoded.
    pub fn from_request_parts(store: &mut Store, values: &[HeaderValue]) -> (header: Result<
        HxHistoryRestoreRequest,
        Error,
    >)
        ensures
            final(store)@ == after_report(old(store)@, HxRequestHeader::HistoryRestoreRequest),
            header is Ok <==> is_flag(values@),
            header matches Err(e) ==> e == Error::Invalid,
    {
        store.report(HxRequestHeader::HistoryRestoreRequest);
        HxHistoryRestoreRequest::decode(values)
    }
}

} // verus!
