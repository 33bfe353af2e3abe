//! The `hx-current-url` request header.

use crate::auto_vary::HxRequestHeader;
use crate::auto_vary::Store;
use crate::auto_vary::after_report;
use crate::header::Error;
use crate::header::HeaderValue;
use crate::util::uri::Uri;
use crate::util::uri::decode_uri;
use crate::util::uri::decoded_uri;
use vstd::prelude::*;

verus! {

/// The current URL of the browser.
#[derive(Debug, Clone, PartialEq, Eq, Hash)]
pub struct HxCurrentUrl(pub Uri);

impl View for HxCurrentUrl {
    type V = Seq<u8>;

    open spec fn view(&self) -> Seq<u8> {
        self.0@
    }
}

impl HxCurrentUrl {
    /// The URI of the header.
    pub fn as_uri(&self) -> (uri: &Uri)
        ensures
            uri@ == self@,
    {
        &self.0
    }

    /// The name of the header, which is its name in the catalogue.
    pub fn name() -> (name: &'static str)
        ensures
            name@ == "hx-current-url"@,
            name@ == HxRequestHeader::CurrentUrl.wire_name(),
    {
        HxRequestHeader::CurrentUrl.header_name()
    }

    /// Reads the header from its values: there must be one, and its bytes
    /// must be UTF-8 and a URI.
    pub fn decode(values: &[HeaderValue]) -> (header: Result<HxCurrentUrl, Error>)
        ensures
            header matches Ok(h) ==> decoded_uri(values@) == Ok::<Seq<u8>, Error>(h@),
            header matches Err(e) ==> decoded_uri(values@) == Err::<Seq<u8>, Error>(e),
    {
        match decode_uri(values) {
            Ok(uri) => Ok(HxCurrentUrl(uri)),
            Err(e) => Err(e),
        }
    }

    /// A request header is not sent by a server: there is no value.
    pub fn encode(&self) -> (value: Result<HeaderValue, Error>)
        ensures
            value matches Err(e) && e == Error::WrongDirection,
    {
        Err(Error::WrongDirection)
    }

    /// Reads the header for a handler: the read is reported to the ledger of
    /// `store`, whatever comes of it, and the values are decoded.
    pub fn from_request_parts(store: &mut Store, values: &[HeaderValue]) -> (header: Result<
        HxCurrentUrl,
        Error,
    >)
        ensures
            final(store)@ == after_report(old(store)@, HxRequestHeader::CurrentUrl),
            header matches Ok(h) ==> decoded_uri(values@) == Ok::<Seq<u8>, Error>(h@),
            header matches Err(e) ==> decoded_uri(values@) == Err::<Seq<u8>, Error>(e),
    {
        store.report(HxRequestHeader::CurrentUrl);
        HxCurrentUrl::decode(values)
    }
}

impl std::ops::Deref for HxCurrentUrl {
    type Target = Uri;

    fn deref(&self) -> (inner: &Uri)
        ensures
            inner@ == self@,
    {
        &self.0
    }
}

impl From<Uri> for HxCurrentUrl {
    fn from(uri: Uri) -> (header: HxCurrentUrl) {
        HxCurrentUrl(uri)
    }
}

impl vstd::std_specs::convert::FromSpecImpl<Uri> for HxCurrentUrl {
    open spec fn obeys_from_spec() -> bool {
        true
    }

    open spec fn from_spec(uri: Uri) -> HxCurrentUrl {
        HxCurrentUrl(uri)
    }
}

impl From<HxCurrentUrl> for Uri {
    fn from(header: HxCurrentUrl) -> (uri: Uri) {
        header.0
    }
}

impl vstd::std_specs::convert::FromSpecImpl<HxCurrentUrl> for Uri {
    open spec fn obeys_from_spec() -> bool {
        true
    }

    open spec fn from_spec(header: HxCurrentUrl) -> Uri {
        header.0
    }
}

} // verus!
