//! How a response is swapped in.

use crate::header::bytes_eq;
use crate::header::lemma_visible_chars;
use crate::header::Error;
use crate::header::HeaderValue;
use vstd::prelude::*;
use vstd::string::StringSliceAdditionalSpecFns;
use vstd::utf8::encode_utf8;

verus! {

/// How the response is swapped in, relative to the target of the request.
#[derive(Debug, Clone, Copy, PartialEq, Eq, Hash, Structural)]
pub enum SwapOption {
    /// Replace the inner html of the target element.
    InnerHtml,
    /// Replace the entire target element with the response.
    OuterHtml,
    /// Replace the text content of the target element, without parsing the
    /// response as HTML.
    TextContent,
    /// Insert the response before the target element.
    BeforeBegin,
    /// Insert the response before the first child of the target element.
    AfterBegin,
    /// Insert the response after the last child of the target element.
    BeforeEnd,
    /// Insert the response after the target element.
    AfterEnd,
    /// Delete the target element regardless of the response.
    Delete,
    /// Do not append content from the response.
    NoSwap,
}

impl Default for SwapOption {
    fn default() -> (option: SwapOption)
        ensures
            option == SwapOption::InnerHtml,
    {
        SwapOption::InnerHtml
    }
}

impl SwapOption {
    /// The word that stands for this option on the wire.
    pub open spec fn token(self) -> Seq<char> {
        match self {
            SwapOption::InnerHtml => "innerHTML"@,
            SwapOption::OuterHtml => "outerHTML"@,
            SwapOption::TextContent => "textContent"@,
            SwapOption::BeforeBegin => "beforebegin"@,
            SwapOption::AfterBegin => "afterbegin"@,
            SwapOption::BeforeEnd => "beforeend"@,
            SwapOption::AfterEnd => "afterend"@,
            SwapOption::Delete => "delete"@,
            SwapOption::NoSwap => "none"@,
        }
    }

    /// The bytes that stand for this option on the wire.
    pub open spec fn wire(self) -> Seq<u8> {
        encode_utf8(self.token())
    }

    /// The word that stands for this option on the wire.
    pub fn as_str(&self) -> (token: &'static str)
        ensures
            token@ == self.token(),
    {
        match self {
            SwapOption::InnerHtml => "innerHTML",
            SwapOption::OuterHtml => "outerHTML",
            SwapOption::TextContent => "textContent",
            SwapOption::BeforeBegin => "beforebegin",
            SwapOption::AfterBegin => "afterbegin",
            SwapOption::BeforeEnd => "beforeend",
            SwapOption::AfterEnd => "afterend",
            SwapOption::Delete => "delete",
            SwapOption::NoSwap => "none",
        }
    }

    /// The words are made of letters, and no two options share one.
    pub proof fn lemma_tokens(a: SwapOption, b: SwapOption)
        ensures
            forall|i: int| 0 <= i < a.token().len() ==> ' ' <= #[trigger] a.token()[i] <= '~',
            a.wire() == b.wire() ==> a == b,
    {
        reveal_strlit("innerHTML");
        reveal_strlit("outerHTML");
        reveal_strlit("textContent");
        reveal_strlit("beforebegin");
        reveal_strlit("afterbegin");
        reveal_strlit("beforeend");
        reveal_strlit("afterend");
        reveal_strlit("delete");
        reveal_strlit("none");
        lemma_visible_chars(a.token());
        lemma_visible_chars(b.token());
        if a.wire() == b.wire() {
            assert(a.token().len() == b.token().len());
            assert(a.token()[0] as u8 == a.wire()[0]);
            assert(b.token()[0] as u8 == b.wire()[0]);
            assert(a.token()[1] as u8 == a.wire()[1]);
            assert(b.token()[1] as u8 == b.wire()[1]);
        }
    }

    /// The header value of this option.
    pub fn to_header_value(self) -> (value: HeaderValue)
        ensures
            value@ == self.wire(),
    {
        let token = self.as_str();
        proof {
            Self::lemma_tokens(self, self);
            lemma_visible_chars(token@);
        }
        HeaderValue::from_static(token)
    }

    /// The option that has `token` as its word, letter for letter.
    pub fn from_token(token: &[u8]) -> (option: Option<SwapOption>)
        ensures
            option matches Some(o) ==> token@ == o.wire(),
            option is None <==> (forall|o: SwapOption| token@ != o.wire()),
    {
        let option = if is_word(token, "innerHTML") {
            Some(SwapOption::InnerHtml)
        } else if is_word(token, "outerHTML") {
            Some(SwapOption::OuterHtml)
        } else if is_word(token, "textContent") {
            Some(SwapOption::TextContent)
        } else if is_word(token, "beforebegin") {
            Some(SwapOption::BeforeBegin)
        } else if is_word(token, "afterbegin") {
            Some(SwapOption::AfterBegin)
        } else if is_word(token, "beforeend") {
            Some(SwapOption::BeforeEnd)
        } else if is_word(token, "afterend") {
            Some(SwapOption::AfterEnd)
        } else if is_word(token, "delete") {
            Some(SwapOption::Delete)
        } else if is_word(token, "none") {
            Some(SwapOption::NoSwap)
        } else {
            None
        };
        match option {
            Some(o) => {
                assert(token@ == o.wire());
            },
            None => {
                assert forall|o: SwapOption| token@ != o.wire() by {
                    assert(o.wire() == encode_utf8(o.token()));
                }
            },
        }
        option
    }

    /// The option that a header value stands for: the one whose word it is,
    /// letter for letter.
    pub fn from_header_value(value: &HeaderValue) -> (option: Result<SwapOption, Error>)
        ensures
            option matches Ok(o) ==> value@ == o.wire(),
            option is Err <==> (forall|o: SwapOption| value@ != o.wire()),
            option matches Err(e) ==> e == Error::Invalid,
    {
        match Self::from_token(value.as_bytes()) {
            Some(o) => Ok(o),
            None => Err(Error::invalid()),
        }
    }
}

/// Whether `token` is, byte for byte, the text `word`.
fn is_word(token: &[u8], word: &str) -> (same: bool)
    ensures
        same == (token@ == word.spec_bytes()),
{
    bytes_eq(token, word.as_bytes())

}

} // verus!
