//! The `hx-target` request header.

use crate::auto_vary::HxRequestHeader;
use crate::auto_vary::Store;
use crate::auto_vary::after_report;
use crate::header::Error;
use crate::header::HeaderValue;
use crate::header::is_text;
use crate::header::just_one;
use crate::util::value_string::HeaderValueString;
use crate::util::value_string::has_hash;
use crate::util::value_string::id_of;
use crate::util::value_string::tag_of;
use vstd::prelude::*;
use vstd::string::StringSliceAdditionalSpecFns;

verus! {

/// The target element, named as `tag#id`; the id may be missing.
#[derive(Debug, Clone, PartialEq, Eq, Hash)]
pub struct HxTarget(pub HeaderValueString);

impl View for HxTarget {
    type V = Seq<u8>;

    open spec fn view(&self) -> Seq<u8> {
        self.0@
    }
}

impl HxTarget {
    /// The tag of the element: what stands before the first `#`.
    pub fn tag(&self) -> (tag: &str)
        ensures
            tag.spec_bytes() == tag_of(self@),
    {
        self.0.tag()
    }

    /// The id of the element, if it has one: what stands behind the first
    /// `#`.
    pub fn id(&self) -> (id: Option<&str>)
        ensures
            id is Some <==> has_hash(self@),
            id matches Some(s) ==> Some(s.spec_bytes()) == id_of(self@),
    {
        self.0.id()
    }

    /// The text of the header.
    pub fn as_str(&self) -> (text: &str)
        ensures
            text.spec_bytes() == self@,
    {
        self.0.as_str()
    }

    /// The name of the header, which is its name in the catalogue.
    pub fn name() -> (name: &'static str)
        ensures
            name@ == "hx-target"@,
            name@ == HxRequestHeader::Target.wire_name(),
    {
        HxRequestHeader::Target.header_name()
    }

    /// Reads the header from its values: there must be one, and its bytes
    /// must be UTF-8.
    pub fn decode(values: &[HeaderValue]) -> (header: Result<HxTarget, Error>)
        ensures
            header is Ok <==> is_text(values@),
            header matches Ok(h) ==> h@ == values@[0]@,
            header matches Err(e) ==> e == Error::Invalid,
    {
        match just_one(values) {
            Some(value) => match HeaderValueString::try_from_header_value(value) {
                Ok(text) => Ok(HxTarget(text)),
                Err(e) => Err(e),
            },
            None => Err(Error::invalid()),
        }
    }

    /// A request header is not sent by a server: there is no value.
    pub fn encode(&self) -> (value: Result<HeaderValue, Error>)
        ensures
            value matches Err(e) && e == Error::WrongDirection,
    {
        Err(Error::WrongDirection)
    }

    /// Reads the header for a handler: the read is reported to the ledger of
    /// `store`, whatever comes of it, and the values are decoded.
    pub fn from_request_parts(store: &mut Store, values: &[HeaderValue]) -> (header: Result<
        HxTarget,
        Error,
    >)
        ensures
            final(store)@ == after_report(old(store)@, HxRequestHeader::Target),
            header is Ok <==> is_text(values@),
            header matches Ok(h) ==> h@ == values@[0]@,
            header matches Err(e) ==> e == Error::Invalid,
    {
        store.report(HxRequestHeader::Target);
        HxTarget::decode(values)
    }
}

} // verus!
