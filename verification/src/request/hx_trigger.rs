//! The `hx-trigger` request header.

use crate::auto_vary::HxRequestHeader;
use crate::auto_vary::Store;
use crate::auto_vary::after_report;
use crate::header::Error;
use crate::header::HeaderValue;
use crate::header::is_text;
use crate::header::is_visible_ascii;
use crate::header::just_one;
use crate::util::value_string::HeaderValueString;
use vstd::prelude::*;
use vstd::string::StringSliceAdditionalSpecFns;

verus! {

/// The `id` of the triggered element, if it has one.
#[derive(Debug, Clone, PartialEq, Eq, Hash)]
pub struct HxTrigger(pub HeaderValueString);

impl View for HxTrigger {
    type V = Seq<u8>;

    open spec fn view(&self) -> Seq<u8> {
        self.0@
    }
}

impl std::ops::Deref for HxTrigger {
    type Target = str;

    fn deref(&self) -> (inner: &str)
        ensures
            inner.spec_bytes() == self@,
    {
        self.0.as_str()
    }
}

impl HxTrigger {
    /// The header with a text that holds visible ASCII only.
    pub fn from_static(src: &'static str) -> (header: HxTrigger)
        requires
            is_visible_ascii(src.spec_bytes()),
        ensures
            header@ == src.spec_bytes(),
    {
        HxTrigger(HeaderValueString::from_static(src))
    }

    /// The text of the header.
    pub fn as_str(&self) -> (text: &str)
        ensures
            text.spec_bytes() == self@,
    {
        self.0.as_str()
    }

    /// The name of the header, which is its name in the catalogue.
    pub fn name() -> (name: &'static str)
        ensures
            name@ == "hx-trigger"@,
            name@ == HxRequestHeader::Trigger.wire_name(),
    {
        HxRequestHeader::Trigger.header_name()
    }

    /// Reads the header from its values: there must be one, and its bytes
    /// must be UTF-8.
    pub fn decode(values: &[HeaderValue]) -> (header: Result<HxTrigger, Error>)
        ensures
            header is Ok <==> is_text(values@),
            header matches Ok(h) ==> h@ == values@[0]@,
            header matches Err(e) ==> e == Error::Invalid,
    {
        match just_one(values) {
            Some(value) => match HeaderValueString::try_from_header_value(value) {
                Ok(text) => Ok(HxTrigger(text)),
                Err(e) => Err(e),
            },
            None => Err(Error::invalid()),
        }
    }

    /// A request header is not sent by a server: there is no value.
    pub fn encode(&self) -> (value: Result<HeaderValue, Error>)
        ensures
            value matches Err(e) && e == Error::WrongDirection,
    {
        Err(Error::WrongDirection)
    }

    /// Reads the header for a handler: the read is reported to the ledger of
    /// `store`, whatever comes of it, and the values are decoded.
    pub fn from_request_parts(store: &mut Store, values: &[HeaderValue]) -> (header: Result<
        HxTrigger,
        Error,
    >)
        ensures
            final(store)@ == after_report(old(store)@, HxRequestHeader::Trigger),
            header is Ok <==> is_text(values@),
            header matches Ok(h) ==> h@ == values@[0]@,
            header matches Err(e) ==> e == Error::Invalid,
    {
        store.report(HxRequestHeader::Trigger);
        HxTrigger::decode(values)
    }
}

} // verus!
