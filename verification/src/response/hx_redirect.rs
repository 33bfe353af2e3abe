//! The `hx-redirect` response header.

use crate::header::Error;
use crate::header::HeaderValue;
use crate::util::uri::Uri;
use crate::util::uri::decode_uri;
use crate::util::uri::decoded_uri;
use crate::util::uri::encode_uri;
use crate::util::uri::encoded_uri;
use vstd::prelude::*;

verus! {

/// Makes the client go to a new location.
#[derive(Debug, Clone, PartialEq, Eq, Hash)]
pub struct HxRedirect(pub Uri);

impl View for HxRedirect {
    type V = Seq<u8>;

    open spec fn view(&self) -> Seq<u8> {
        self.0@
    }
}

impl HxRedirect {
    /// The URI of the header.
    pub fn as_uri(&self) -> (uri: &Uri)
        ensures
            uri@ == self@,
    {
        &self.0
    }

    /// The name of the header.
    pub fn name() -> (name: &'static str)
        ensures
            name@ == "hx-redirect"@,
    {
        "hx-redirect"
    }

    /// Reads the header from its values: there must be one, and its bytes
    /// must be UTF-8 and a URI.
    pub fn decode(values: &[HeaderValue]) -> (header: Result<HxRedirect, Error>)
        ensures
            header matches Ok(h) ==> decoded_uri(values@) == Ok::<Seq<u8>, Error>(h@),
            header matches Err(e) ==> decoded_uri(values@) == Err::<Seq<u8>, Error>(e),
    {
        match decode_uri(values) {
            Ok(uri) => Ok(HxRedirect(uri)),
            Err(e) => Err(e),
        }
    }

    /// The value of the header: the text of the URI.
    pub fn encode(&self) -> (value: Result<HeaderValue, Error>)
        ensures
            value matches Ok(v) ==> encoded_uri(self@) == Ok::<Seq<u8>, Error>(v@),
            value matches Err(e) ==> encoded_uri(self@) == Err::<Seq<u8>, Error>(e),
    {
        encode_uri(&self.0)
    }
}

impl std::ops::Deref for HxRedirect {
    type Target = Uri;

    fn deref(&self) -> (inner: &Uri)
        ensures
            inner@ == self@,
    {
        &self.0
    }
}

impl From<Uri> for HxRedirect {
    fn from(uri: Uri) -> (header: HxRedirect) {
        HxRedirect(uri)
    }
}

impl vstd::std_specs::convert::FromSpecImpl<Uri> for HxRedirect {
    open spec fn obeys_from_spec() -> bool {
        true
    }

    open spec fn from_spec(uri: Uri) -> HxRedirect {
        HxRedirect(uri)
    }
}

impl From<HxRedirect> for Uri {
    fn from(header: HxRedirect) -> (uri: Uri) {
        header.0
    }
}

impl vstd::std_specs::convert::FromSpecImpl<HxRedirect> for Uri {
    open spec fn obeys_from_spec() -> bool {
        true
    }

    open spec fn from_spec(header: HxRedirect) -> Uri {
        header.0
    }
}

} // verus!
