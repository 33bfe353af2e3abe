//! The `hx-push-url` response header.

use crate::header::is_header_value;
use crate::header::just_one;
use crate::header::lemma_visible_chars;
use crate::header::Error;
use crate::header::HeaderValue;
use crate::util::uri::uri_text;
use crate::util::uri::Uri;
use crate::util::uri::UriExt;
use vstd::prelude::*;
use vstd::utf8::encode_utf8;
use vstd::utf8::valid_utf8;

verus! {

/// Pushes a new URL into the history stack.
#[derive(Debug, Clone, PartialEq, Eq, Hash)]
pub struct HxPushUrl(HxPushUrlValue);

/// What the header holds.
#[derive(Debug, Clone, PartialEq, Eq, Hash)]
enum HxPushUrlValue {
    Prevent,
    Url(Uri),
}

impl View for HxPushUrl {
    type V = Option<Seq<u8>>;

    /// The text of the URL, or nothing where the update is prevented.
    closed spec fn view(&self) -> Option<Seq<u8>> {
        match self.0 {
            HxPushUrlValue::Prevent => None,
            HxPushUrlValue::Url(uri) => Some(uri@),
        }
    }
}

impl HxPushUrl {
    /// What one header value holds: the word `false` prevents the update,
    /// anything else must be UTF-8 and a URI.
    pub open spec fn decoded(value: Seq<u8>) -> Result<Option<Seq<u8>>, Error> {
        if value == encode_utf8("false"@) {
            Ok(None)
        } else if valid_utf8(value) {
            match uri_text(value) {
                Some(text) => Ok(Some(text)),
                None => Err(Error::Invalid),
            }
        } else {
            Err(Error::Invalid)
        }
    }

    /// The header value of what the header holds: the word `false`, or the
    /// text of the URL, which must be legal in a header value.
    pub open spec fn encoded(held: Option<Seq<u8>>) -> Option<Seq<u8>> {
        match held {
            None => Some(encode_utf8("false"@)),
            Some(text) => if is_header_value(text) {
                Some(text)
            } else {
                None
            },
        }
    }

    /// Prevents the history of the browser from being updated.
    pub fn prevent() -> (header: HxPushUrl)
        ensures
            header@ is None,
    {
        HxPushUrl(HxPushUrlValue::Prevent)
    }

    /// A URL to be pushed into the location bar.
    pub fn url(uri: Uri) -> (header: HxPushUrl)
        ensures
            header@ == Some(uri@),
    {
        HxPushUrl(HxPushUrlValue::Url(uri))
    }

    /// The URL, or nothing where the history is not to be updated.
    pub fn get(&self) -> (uri: Option<&Uri>)
        ensures
            uri is Some <==> self@ is Some,
            uri matches Some(u) ==> Some(u@) == self@,
    {
        match &self.0 {
            HxPushUrlValue::Prevent => None,
            HxPushUrlValue::Url(uri) => Some(uri),
        }
    }

    /// Reads the header from one value.
    pub fn from_header_value(value: &HeaderValue) -> (header: Result<HxPushUrl, Error>)
        ensures
            header matches Ok(h) ==> Self::decoded(value@) == Ok::<Option<Seq<u8>>, Error>(h@),
            header matches Err(e) ==> Self::decoded(value@) == Err::<Option<Seq<u8>>, Error>(e),
    {
        if value.is("false") {
            Ok(HxPushUrl(HxPushUrlValue::Prevent))
        } else {
            match value.to_uri() {
                Ok(uri) => Ok(HxPushUrl(HxPushUrlValue::Url(uri))),
                Err(e) => Err(e),
            }
        }
    }

    /// The header value of the header, if there is one.
    pub fn to_header_value(&self) -> (value: Option<HeaderValue>)
        ensures
            value is Some <==> Self::encoded(self@) is Some,
            value matches Some(v) ==> Some(v@) == Self::encoded(self@),
    {
        match &self.0 {
            HxPushUrlValue::Prevent => {
                proof {
                    reveal_strlit("false");
                    lemma_visible_chars("false"@);
                }
                Some(HeaderValue::from_static("false"))
            },
            HxPushUrlValue::Url(uri) => HeaderValue::from_uri(uri),
        }
    }

    /// A value that is sent as it is printed comes back as it was sent: the
    /// word `false`, and a header value of UTF-8 that is the text of its own
    /// URI, are decoded to what is encoded as the same value.
    pub proof fn lemma_round_trip(value: Seq<u8>)
        requires
            is_header_value(value),
            value == encode_utf8("false"@) || (valid_utf8(value) && uri_text(value) == Some(
                value,
            )),
        ensures
            Self::decoded(value) is Ok,
            Self::encoded(Self::decoded(value)->Ok_0) == Some(value),
    {
    }

    /// The name of the header.
    pub fn name() -> (name: &'static str)
        ensures
            name@ == "hx-push-url"@,
    {
        "hx-push-url"
    }

    /// What the values of the header hold: there must be one value.
    pub open spec fn decoded_values(values: Seq<HeaderValue>) -> Result<Option<Seq<u8>>, Error> {
        if values.len() == 1 {
            Self::decoded(values[0]@)
        } else {
            Err(Error::Invalid)
        }
    }

    /// Reads the header from its values: there must be one.
    pub fn decode(values: &[HeaderValue]) -> (header: Result<Self, Error>)
        ensures
            header matches Ok(h) ==> Self::decoded_values(values@) == Ok::<Option<Seq<u8>>, Error>(
                h@,
            ),
            header matches Err(e) ==> Self::decoded_values(values@) == Err::<
                Option<Seq<u8>>,
                Error,
            >(e),
    {
        match just_one(values) {
            Some(value) => Self::from_header_value(value),
            None => Err(Error::invalid()),
        }
    }

    /// The value of the header.
    pub fn encode(&self) -> (value: Result<HeaderValue, Error>)
        ensures
            value is Ok <==> Self::encoded(self@) is Some,
            value matches Ok(v) ==> Some(v@) == Self::encoded(self@),
            value matches Err(e) ==> e == Error::Invalid,
    {
        match self.to_header_value() {
            Some(value) => Ok(value),
            None => Err(Error::invalid()),
        }
    }
}

} // verus!
