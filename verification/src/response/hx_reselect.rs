//! The `hx-reselect` response header.

use crate::header::Error;
use crate::header::HeaderValue;
use crate::header::is_header_value;
use crate::header::is_text;
use crate::header::is_visible_ascii;
use crate::header::just_one;
use crate::util::value_string::HeaderValueString;
use vstd::prelude::*;
use vstd::string::StringSliceAdditionalSpecFns;
use vstd::utf8::encode_utf8;

verus! {

/// A CSS selector that chooses which part of the response is swapped in.
#[derive(Debug, Clone, PartialEq, Eq, Hash)]
pub struct HxReselect(pub HeaderValueString);

impl View for HxReselect {
    type V = Seq<u8>;

    open spec fn view(&self) -> Seq<u8> {
        self.0@
    }
}

impl std::ops::Deref for HxReselect {
    type Target = str;

    fn deref(&self) -> (inner: &str)
        ensures
            inner.spec_bytes() == self@,
    {
        self.0.as_str()
    }
}

impl HxReselect {
    /// The header with a text that holds visible ASCII only.
    pub fn from_static(src: &'static str) -> (header: HxReselect)
        requires
            is_visible_ascii(src.spec_bytes()),
        ensures
            header@ == src.spec_bytes(),
    {
        HxReselect(HeaderValueString::from_static(src))
    }

    /// The header with the text `src`, if every byte of it is legal in a
    /// header value.
    pub fn from_string(src: String) -> (header: Option<HxReselect>)
        ensures
            header is Some <==> is_header_value(encode_utf8(src@)),
            header matches Some(h) ==> h@ == encode_utf8(src@),
    {
        match HeaderValueString::from_string(src) {
            Some(text) => Some(HxReselect(text)),
            None => None,
        }
    }

    /// The text of the header.
    pub fn as_str(&self) -> (text: &str)
        ensures
            text.spec_bytes() == self@,
    {
        self.0.as_str()
    }

    /// The name of the header.
    pub fn name() -> (name: &'static str)
        ensures
            name@ == "hx-reselect"@,
    {
        "hx-reselect"
    }

    /// Reads the header from its values: there must be one, and its bytes
    /// must be UTF-8.
    pub fn decode(values: &[HeaderValue]) -> (header: Result<HxReselect, Error>)
        ensures
            header is Ok <==> is_text(values@),
            header matches Ok(h) ==> h@ == values@[0]@,
            header matches Err(e) ==> e == Error::Invalid,
    {
        match just_one(values) {
            Some(value) => match HeaderValueString::try_from_header_value(value) {
                Ok(text) => Ok(HxReselect(text)),
                Err(e) => Err(e),
            },
            None => Err(Error::invalid()),
        }
    }

    /// The value of the header: its text.
    pub fn encode(&self) -> (value: Result<HeaderValue, Error>)
        ensures
            value matches Ok(v) && v@ == self@,
    {
        Ok(self.0.as_header_value())
    }
}

} // verus!
