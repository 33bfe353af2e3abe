//! URIs as header values.

use crate::header::is_header_value;
use crate::header::just_one;
use crate::header::Error;
use crate::header::HeaderValue;
use vstd::prelude::*;
use vstd::string::StringSliceAdditionalSpecFns;
use vstd::utf8::encode_utf8;
use vstd::utf8::valid_utf8;

verus! {

/// What `http::Uri` makes of a byte string: nothing where it is no URI, else
/// the text as which the URI is printed.
pub uninterp spec fn uri_text(src: Seq<u8>) -> Option<Seq<u8>>;

/// `http::Uri::try_from` on a byte string, and the text that the URI then
/// prints through `Display`: the result is that of `uri_text`.
#[verifier::external_body]
fn http_uri_text(src: &[u8]) -> (text: Option<String>)
    ensures
        text is Some <==> uri_text(src@) is Some,
        text matches Some(s) ==> uri_text(src@) == Some(encode_utf8(s@)),
{
    match http::Uri::try_from(src) {
        Ok(uri) => Some(uri.to_string()),
        Err(_) => None,
    }
}

/// A URI, held as the text that it is printed as.
#[derive(Debug, PartialEq, Eq, Hash)]
pub struct Uri {
    text: String,
}

impl View for Uri {
    type V = Seq<u8>;

    closed spec fn view(&self) -> Seq<u8> {
        encode_utf8(self.text@)
    }
}

impl Clone for Uri {
    fn clone(&self) -> (uri: Uri)
        ensures
            uri@ == self@,
    {
        proof {
            use_type_invariant(self);
        }
        Uri { text: self.text.clone() }
    }
}

impl Uri {
    #[verifier::type_invariant]
    spec fn parsed(self) -> bool {
        exists|src: Seq<u8>| uri_text(src) == Some(encode_utf8(self.text@))
    }

    /// Reads a byte string as a URI.
    pub fn parse(src: &[u8]) -> (uri: Result<Uri, Error>)
        ensures
            uri is Ok <==> uri_text(src@) is Some,
            uri matches Ok(u) ==> Some(u@) == uri_text(src@),
            uri matches Err(e) ==> e == Error::Invalid,
    {
        match http_uri_text(src) {
            Some(text) => Ok(Uri { text }),
            None => Err(Error::invalid()),
        }
    }

    /// The URI as text.
    pub fn as_str(&self) -> (text: &str)
        ensures
            text.spec_bytes() == self@,
    {
        self.text.as_str()
    }
}

/// The URI that the values of a header hold: there must be one value, whose
/// bytes are UTF-8 and a URI.
pub open spec fn decoded_uri(values: Seq<HeaderValue>) -> Result<Seq<u8>, Error> {
    if values.len() == 1 && valid_utf8(values[0]@) {
        match uri_text(values[0]@) {
            Some(text) => Ok(text),
            None => Err(Error::Invalid),
        }
    } else {
        Err(Error::Invalid)
    }
}

/// The header value of a URI: its text, which must be legal in a header value.
pub open spec fn encoded_uri(uri: Seq<u8>) -> Result<Seq<u8>, Error> {
    if is_header_value(uri) {
        Ok(uri)
    } else {
        Err(Error::Invalid)
    }
}

/// A URI that is sent as it is printed comes back as it was sent: where a
/// header value of UTF-8 is the text of its own URI, decoding it and encoding
/// the result gives the value again.
pub proof fn lemma_uri_round_trip(values: Seq<HeaderValue>)
    requires
        values.len() == 1,
        is_header_value(values[0]@),
        valid_utf8(values[0]@),
        uri_text(values[0]@) == Some(values[0]@),
    ensures
        decoded_uri(values) == Ok::<Seq<u8>, Error>(values[0]@),
        encoded_uri(decoded_uri(values)->Ok_0) == Ok::<Seq<u8>, Error>(values[0]@),
{
}

/// Reads the values of a header as a URI.
pub fn decode_uri(values: &[HeaderValue]) -> (uri: Result<Uri, Error>)
    ensures
        uri matches Ok(u) ==> decoded_uri(values@) == Ok::<Seq<u8>, Error>(u@),
        uri matches Err(e) ==> decoded_uri(values@) == Err::<Seq<u8>, Error>(e),
{
    match just_one(values) {
        Some(value) => value.to_uri(),
        None => Err(Error::invalid()),
    }
}

/// The header value of a URI.
pub fn encode_uri(uri: &Uri) -> (value: Result<HeaderValue, Error>)
    ensures
        value matches Ok(v) ==> encoded_uri(uri@) == Ok::<Seq<u8>, Error>(v@),
        value matches Err(e) ==> encoded_uri(uri@) == Err::<Seq<u8>, Error>(e),
{
    match HeaderValue::from_uri(uri) {
        Some(value) => Ok(value),
        None => Err(Error::invalid()),
    }
}

/// Header values that hold a URI.
pub trait UriExt: Sized {
    /// The bytes of the value.
    spec fn wire(&self) -> Seq<u8>;

    /// Reads the value as a URI: its bytes must be UTF-8 and a URI.
    fn to_uri(&self) -> (uri: Result<Uri, Error>)
        ensures
            uri is Ok <==> valid_utf8(self.wire()) && uri_text(self.wire()) is Some,
            uri matches Ok(u) ==> Some(u@) == uri_text(self.wire()),
            uri matches Err(e) ==> e == Error::Invalid,
    ;

    /// The header value that holds `uri`, if its text is legal in one.
    fn from_uri(uri: &Uri) -> (value: Option<Self>)
        ensures
            value is Some <==> is_header_value(uri@),
            value matches Some(v) ==> v.wire() == uri@,
    ;
}

impl UriExt for HeaderValue {
    open spec fn wire(&self) -> Seq<u8> {
        self@
    }

    fn to_uri(&self) -> (uri: Result<Uri, Error>) {
        match self.to_text() {
            Some(text) => Uri::parse(text.as_str().as_bytes()),
            None => Err(Error::invalid()),
        }
    }

    fn from_uri(uri: &Uri) -> (value: Option<Self>) {
        HeaderValue::from_str(uri.as_str())
    }
}

} // verus!
