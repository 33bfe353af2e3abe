//! Header values as they travel on the wire.

use vstd::prelude::*;
use vstd::slice::slice_to_vec;
use vstd::string::StrSliceExecFns;
use vstd::string::StringSliceAdditionalSpecFns;
use vstd::utf8::encode_utf8;
use vstd::utf8::is_ascii_chars;
use vstd::utf8::is_ascii_chars_encode_utf8;
use vstd::utf8::valid_utf8;

verus! {

/// A byte that may stand in a header value: anything from the space upwards
/// but the delete character, and the tab.
pub open spec fn is_value_byte(b: u8) -> bool {
    (b >= 32 && b != 127) || b == 9
}

/// A byte of the printable part of ASCII, or the tab.
pub open spec fn is_visible_byte(b: u8) -> bool {
    (b >= 32 && b < 127) || b == 9
}

/// The bytes form a legal header value.
pub open spec fn is_header_value(bytes: Seq<u8>) -> bool {
    forall|i: int| 0 <= i < bytes.len() ==> is_value_byte(#[trigger] bytes[i])
}

/// A byte that may stand in a header name: a letter, a digit, or one of
/// ``!#$%&'*+-.^_`|~``.
pub open spec fn is_name_byte(b: u8) -> bool {
    b == 33 || (35 <= b <= 39) || b == 42 || b == 43 || b == 45 || b == 46 || (48 <= b <= 57) || (
    65 <= b <= 90) || (94 <= b <= 122) || b == 124 || b == 126
}

/// The bytes form a legal header name.
pub open spec fn is_header_name(bytes: Seq<u8>) -> bool {
    &&& 1 <= bytes.len() <= 65535
    &&& forall|i: int| 0 <= i < bytes.len() ==> is_name_byte(#[trigger] bytes[i])
}

/// The bytes form a header value of printable ASCII and tabs.
pub open spec fn is_visible_ascii(bytes: Seq<u8>) -> bool {
    forall|i: int| 0 <= i < bytes.len() ==> is_visible_byte(#[trigger] bytes[i])
}

/// A text of printable ASCII characters is, as bytes, visible ASCII.
pub proof fn lemma_visible_chars(chars: Seq<char>)
    requires
        forall|i: int| 0 <= i < chars.len() ==> ' ' <= #[trigger] chars[i] <= '~',
    ensures
        is_visible_ascii(encode_utf8(chars)),
        is_header_value(encode_utf8(chars)),
        encode_utf8(chars).len() == chars.len(),
        forall|i: int| 0 <= i < chars.len() ==> encode_utf8(chars)[i] == #[trigger] chars[i] as u8,
{
    assert(is_ascii_chars(chars));
    is_ascii_chars_encode_utf8(chars);
    let bytes = encode_utf8(chars);
    assert forall|i: int| 0 <= i < bytes.len() implies is_visible_byte(#[trigger] bytes[i]) by {
        assert(bytes[i] == chars[i] as u8);
    }
}

/// `http::HeaderValue::from_bytes` accepts a byte string exactly when every
/// byte of it is at least 32 and not 127, or is the tab.
#[verifier::external_body]
fn http_accepts_value(src: &[u8]) -> (ok: bool)
    ensures
        ok == is_header_value(src@),
{
    http::HeaderValue::from_bytes(src).is_ok()
}

/// `String::from_utf8`: the text of a byte string, which there is exactly
/// when the bytes are UTF-8, and which then has those bytes.
#[verifier::external_body]
fn std_utf8_text(bytes: Vec<u8>) -> (text: Option<String>)
    ensures
        text is Some <==> valid_utf8(bytes@),
        text matches Some(s) ==> encode_utf8(s@) == bytes@,
{
    String::from_utf8(bytes).ok()
}

/// `http::HeaderName::from_bytes` accepts a byte string exactly when it holds
/// between 1 and 65535 bytes, each of them a letter, a digit or one of
/// ``!#$%&'*+-.^_`|~``.
#[verifier::external_body]
fn http_accepts_name(src: &[u8]) -> (ok: bool)
    ensures
        ok == is_header_name(src@),
{
    http::HeaderName::from_bytes(src).is_ok()
}

/// Why a header could not be decoded or encoded.
#[derive(Clone, Copy, Debug, PartialEq, Eq, Hash, Structural)]
pub enum Error {
    /// The values on the wire do not have the form of this header.
    Invalid,
    /// The header travels the other way: a request header has no encoding, a
    /// response header no decoding.
    WrongDirection,
}

impl Error {
    /// The error of a value that does not have the header's form.
    pub fn invalid() -> (error: Error)
        ensures
            error == Error::Invalid,
    {
        Error::Invalid
    }

    /// A short description of the error.
    pub fn message(&self) -> (text: &'static str)
        ensures
            text@ == (match *self {
                Error::Invalid => "invalid HTTP header"@,
                Error::WrongDirection => "header not used in this direction"@,
            }),
    {
        match self {
            Error::Invalid => "invalid HTTP header",
            Error::WrongDirection => "header not used in this direction",
        }
    }
}

/// Whether two byte strings are the same.
pub fn bytes_eq(a: &[u8], b: &[u8]) -> (same: bool)
    ensures
        same == (a@ == b@),
{
    if a.len() != b.len() {
        return false;
    }
    let mut i: usize = 0;
    while i < a.len()
        invariant
            i <= a.len(),
            a.len() == b.len(),
            forall|j: int| 0 <= j < i ==> a@[j] == b@[j],
        decreases a.len() - i,
    {
        if a[i] != b[i] {
            return false;
        }
        i += 1;
    }
    assert(a@ =~= b@);
    true
}

/// One header value: a byte string without control characters.
#[derive(Debug, PartialEq, Eq, Hash)]
pub struct HeaderValue {
    bytes: Vec<u8>,
}

impl View for HeaderValue {
    type V = Seq<u8>;

    closed spec fn view(&self) -> Seq<u8> {
        self.bytes@
    }
}

impl Clone for HeaderValue {
    fn clone(&self) -> (value: Self)
        ensures
            value@ == self@,
    {
        proof {
            use_type_invariant(self);
        }
        HeaderValue { bytes: slice_to_vec(self.bytes.as_slice()) }
    }
}

impl HeaderValue {
    #[verifier::type_invariant]
    spec fn well_formed(self) -> bool {
        is_header_value(self.bytes@)
    }

    /// Makes a header value of `src`, if every byte of it is legal.
    pub fn from_bytes(src: &[u8]) -> (value: Option<HeaderValue>)
        ensures
            value is Some <==> is_header_value(src@),
            value matches Some(v) ==> v@ == src@,
    {
        if http_accepts_value(src) {
            Some(HeaderValue { bytes: slice_to_vec(src) })
        } else {
            None
        }
    }

    /// Makes a header value of a text that holds visible ASCII only.
    pub fn from_static(src: &'static str) -> (value: HeaderValue)
        requires
            is_visible_ascii(src.spec_bytes()),
        ensures
            value@ == src.spec_bytes(),
    {
        HeaderValue { bytes: src.as_bytes_vec() }
    }

    /// Makes a header value of the bytes of `src`, if every one of them is legal.
    pub fn from_str(src: &str) -> (value: Option<HeaderValue>)
        ensures
            value is Some <==> is_header_value(src.spec_bytes()),
            value matches Some(v) ==> v@ == src.spec_bytes(),
    {
        HeaderValue::from_bytes(src.as_bytes())
    }

    /// The number of bytes.
    pub fn len(&self) -> (n: usize)
        ensures
            n == self@.len(),
    {
        self.bytes.len()
    }

    /// Whether the value holds no byte.
    pub fn is_empty(&self) -> (empty: bool)
        ensures
            empty == (self@.len() == 0),
    {
        self.bytes.len() == 0
    }

    /// Whether the value is, byte for byte, the text `token`.
    pub fn is(&self, token: &str) -> (same: bool)
        ensures
            same == (self@ == token.spec_bytes()),
    {
        bytes_eq(self.bytes.as_slice(), token.as_bytes())
    }

    /// The value as text, if its bytes are UTF-8.
    pub fn to_text(&self) -> (text: Option<String>)
        ensures
            text is Some <==> valid_utf8(self@),
            text matches Some(s) ==> encode_utf8(s@) == self@,
    {
        std_utf8_text(slice_to_vec(self.bytes.as_slice()))
    }

    /// The bytes of the value, every one of them legal.
    pub fn as_bytes(&self) -> (bytes: &[u8])
        ensures
            bytes@ == self@,
            is_header_value(self@),
    {
        proof {
            use_type_invariant(self);
        }
        self.bytes.as_slice()
    }
}

/// The views of a list of values.
pub open spec fn views(values: Seq<HeaderValue>) -> Seq<Seq<u8>> {
    values.map_values(|v: HeaderValue| v@)
}

/// The values are those of a header that holds a text: one value, whose
/// bytes are UTF-8.
pub open spec fn is_text(values: Seq<HeaderValue>) -> bool {
    values.len() == 1 && valid_utf8(values[0]@)
}

/// Whether the bytes form a legal header name.
pub fn is_legal_name(src: &[u8]) -> (legal: bool)
    ensures
        legal == is_header_name(src@),
{
    http_accepts_name(src)
}

/// The values are those of a flag that is set: one value, the word `true`.
pub open spec fn is_flag(values: Seq<HeaderValue>) -> bool {
    values.len() == 1 && values[0]@ == encode_utf8("true"@)
}

/// The word `true` on the wire is the four bytes `t`, `r`, `u`, `e`.
pub proof fn lemma_true_word()
    ensures
        encode_utf8("true"@) == seq![116u8, 114u8, 117u8, 101u8],
{
    reveal_strlit("true");
    let word = "true"@;
    lemma_visible_chars(word);
    assert(word[0] == 't' && word[1] == 'r' && word[2] == 'u' && word[3] == 'e');
    assert(encode_utf8(word) =~= seq![116u8, 114u8, 117u8, 101u8]);
}

/// Whether the values are those of a flag that is set.
pub fn decode_flag(values: &[HeaderValue]) -> (set: bool)
    ensures
        set == is_flag(values@),
{
    match just_one(values) {
        Some(value) => value.is("true"),
        None => false,
    }
}

/// The value of a flag that is set: the word `true`.
pub fn true_value() -> (value: HeaderValue)
    ensures
        value@ == encode_utf8("true"@),
{
    proof {
        reveal_strlit("true");
        lemma_visible_chars("true"@);
    }
    HeaderValue::from_static("true")
}

/// The value of a header that was sent exactly once.
pub fn just_one(values: &[HeaderValue]) -> (one: Option<&HeaderValue>)
    ensures
        one is Some <==> values@.len() == 1,
        one matches Some(v) ==> *v == values@[0],
{
    if values.len() == 1 {
        Some(&values[0])
    } else {
        None
    }
}

} // verus!
