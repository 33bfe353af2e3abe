//! Header values that are also texts.

use crate::header::bytes_eq;
use crate::header::is_header_value;
use crate::header::is_visible_ascii;
use crate::header::Error;
use crate::header::HeaderValue;
use vstd::prelude::*;
use vstd::string::StringExecFns;
use vstd::string::StringSliceAdditionalSpecFns;
use vstd::utf8::encode_utf8;
use vstd::utf8::encode_utf8_valid_utf8;
use vstd::utf8::is_char_boundary;
use vstd::utf8::is_char_boundary_iff_not_is_continuation_byte;
use vstd::utf8::valid_utf8;

verus! {

/// The byte `#`, which parts an element's tag from its id.
pub const HASH: u8 = 35;

/// The first `#` of `bytes` stands at place `i`.
pub open spec fn first_hash_at(bytes: Seq<u8>, i: int) -> bool {
    &&& 0 <= i < bytes.len()
    &&& bytes[i] == HASH
    &&& forall|j: int| 0 <= j < i ==> bytes[j] != HASH
}

/// Whether `bytes` holds a `#`.
pub open spec fn has_hash(bytes: Seq<u8>) -> bool {
    exists|i: int| first_hash_at(bytes, i)
}

/// What stands before the first `#` of `bytes`: all of it, if there is none.
pub open spec fn tag_of(bytes: Seq<u8>) -> Seq<u8> {
    if has_hash(bytes) {
        bytes.take(choose|i: int| first_hash_at(bytes, i))
    } else {
        bytes
    }
}

/// What stands behind the first `#` of `bytes`, if there is one.
pub open spec fn id_of(bytes: Seq<u8>) -> Option<Seq<u8>> {
    if has_hash(bytes) {
        Some(bytes.skip((choose|i: int| first_hash_at(bytes, i)) + 1))
    } else {
        None
    }
}

/// The first `#` stands at one place only.
pub proof fn lemma_first_hash_unique(bytes: Seq<u8>, i: int, k: int)
    requires
        first_hash_at(bytes, i),
        first_hash_at(bytes, k),
    ensures
        i == k,
{
}

/// The place of the first `#` in `bytes`, or the length of `bytes`.
pub fn find_hash(bytes: &[u8]) -> (at: usize)
    ensures
        at <= bytes@.len(),
        at < bytes@.len() ==> first_hash_at(bytes@, at as int),
        at == bytes@.len() ==> !has_hash(bytes@),
{
    let mut i: usize = 0;
    while i < bytes.len()
        invariant
            i <= bytes.len(),
            forall|j: int| 0 <= j < i ==> bytes@[j] != HASH,
        decreases bytes.len() - i,
    {
        if bytes[i] == HASH {
            return i;
        }
        i += 1;
    }
    i
}

/// A header value that is a text: legal as a header value, and UTF-8.
#[derive(Debug, PartialEq, Eq, Hash)]
pub struct HeaderValueString {
    text: String,
}

impl View for HeaderValueString {
    type V = Seq<u8>;

    closed spec fn view(&self) -> Seq<u8> {
        encode_utf8(self.text@)
    }
}

impl Clone for HeaderValueString {
    fn clone(&self) -> (text: HeaderValueString)
        ensures
            text@ == self@,
    {
        proof {
            use_type_invariant(self);
        }
        HeaderValueString { text: self.text.clone() }
    }
}

impl HeaderValueString {
    #[verifier::type_invariant]
    spec fn well_formed(self) -> bool {
        is_header_value(encode_utf8(self.text@))
    }

    /// Reads a header value as a text: it is one exactly when its bytes are
    /// UTF-8.
    pub fn try_from_header_value(value: &HeaderValue) -> (text: Result<Self, Error>)
        ensures
            text is Ok <==> valid_utf8(value@),
            text matches Ok(s) ==> s@ == value@,
            text matches Err(e) ==> e == Error::Invalid,
    {
        let _ = value.as_bytes();
        match value.to_text() {
            Some(text) => Ok(HeaderValueString { text }),
            None => Err(Error::invalid()),
        }
    }

    /// Makes a header value of a text, if every byte of it is legal in one.
    pub fn from_string(src: String) -> (text: Option<Self>)
        ensures
            text is Some <==> is_header_value(encode_utf8(src@)),
            text matches Some(s) ==> s@ == encode_utf8(src@),
    {
        match HeaderValue::from_str(src.as_str()) {
            Some(_) => Some(HeaderValueString { text: src }),
            None => None,
        }
    }

    /// Makes a header value of a text that holds visible ASCII only.
    pub fn from_static(src: &'static str) -> (text: HeaderValueString)
        requires
            is_visible_ascii(src.spec_bytes()),
        ensures
            text@ == src.spec_bytes(),
    {
        HeaderValueString { text: String::from_str(src) }
    }

    /// The text.
    pub fn as_str(&self) -> (text: &str)
        ensures
            text.spec_bytes() == self@,
    {
        self.text.as_str()
    }

    /// The text as a header value.
    pub fn as_header_value(&self) -> (value: HeaderValue)
        ensures
            value@ == self@,
    {
        proof {
            use_type_invariant(self);
        }
        HeaderValue::from_str(self.text.as_str()).unwrap()
    }

    /// Whether this text and `other` are the same.
    pub fn same_as(&self, other: &HeaderValueString) -> (same: bool)
        ensures
            same == (self@ == other@),
    {
        bytes_eq(self.text.as_str().as_bytes(), other.text.as_str().as_bytes())
    }

    /// The tag of an element that is named as `tag#id`: what stands before
    /// the first `#`, or all of the text where there is none.
    pub fn tag(&self) -> (tag: &str)
        ensures
            tag.spec_bytes() == tag_of(self@),
    {
        let text = self.text.as_str();
        let wire = text.as_bytes();
        let at = find_hash(wire);
        assert(wire@ == self@);
        if at < wire.len() {
            proof {
                let bytes = text.spec_bytes();
                encode_utf8_valid_utf8(text@);
                is_char_boundary_iff_not_is_continuation_byte(bytes, at as int);
                lemma_first_hash_unique(bytes, at as int, choose|i: int| first_hash_at(bytes, i));
            }
            let (tag, _) = text.split_at(at);
            assert(tag.spec_bytes() =~= self@.take(at as int));
            tag
        } else {
            text
        }
    }

    /// The id of an element that is named as `tag#id`: what stands behind the
    /// first `#`, if there is one.
    pub fn id(&self) -> (id: Option<&str>)
        ensures
            id is Some <==> has_hash(self@),
            id matches Some(s) ==> Some(s.spec_bytes()) == id_of(self@),
    {
        let text = self.text.as_str();
        let wire = text.as_bytes();
        let at = find_hash(wire);
        assert(wire@ == self@);
        if at < wire.len() {
            proof {
                let bytes = text.spec_bytes();
                encode_utf8_valid_utf8(text@);
                is_char_boundary_iff_not_is_continuation_byte(bytes, at as int);
                lemma_first_hash_unique(bytes, at as int, choose|i: int| first_hash_at(bytes, i));
            }
            let (_, rest) = text.split_at(at);
            proof {
                let bytes = rest.spec_bytes();
                encode_utf8_valid_utf8(rest@);
                assert(bytes[0] == HASH);
                reveal_with_fuel(is_char_boundary, 2);
                assert(is_char_boundary(bytes, 1));
            }
            let (_, id) = rest.split_at(1);
            proof {
                assert(id.spec_bytes() =~= text.spec_bytes().skip(at + 1));
            }
            Some(id)
        } else {
            None
        }
    }
}

} // verus!
