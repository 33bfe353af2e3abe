//! The `hx-reswap` response header.

use crate::header::just_one;
use crate::header::Error;
use crate::header::HeaderValue;
use crate::response::options::swap_option::SwapOption;
use vstd::prelude::*;

verus! {

/// How the response is to be swapped in.
#[derive(Debug, Clone, Copy, PartialEq, Eq, Hash, Structural)]
pub struct HxReswap(pub SwapOption);

impl View for HxReswap {
    type V = SwapOption;

    open spec fn view(&self) -> SwapOption {
        self.0
    }
}

impl HxReswap {
    /// Replace the inner html of the target element.
    pub fn inner_html() -> (header: HxReswap)
        ensures
            header@ == SwapOption::InnerHtml,
    {
        HxReswap(SwapOption::InnerHtml)
    }

    /// Replace the entire target element with the response.
    pub fn outer_html() -> (header: HxReswap)
        ensures
            header@ == SwapOption::OuterHtml,
    {
        HxReswap(SwapOption::OuterHtml)
    }

    /// Replace the text content of the target element, without parsing the
    /// response as HTML.
    pub fn text_content() -> (header: HxReswap)
        ensures
            header@ == SwapOption::TextContent,
    {
        HxReswap(SwapOption::TextContent)
    }

    /// Insert the response before the target element.
    pub fn before_begin() -> (header: HxReswap)
        ensures
            header@ == SwapOption::BeforeBegin,
    {
        HxReswap(SwapOption::BeforeBegin)
    }

    /// Insert the response before the first child of the target element.
    pub fn after_begin() -> (header: HxReswap)
        ensures
            header@ == SwapOption::AfterBegin,
    {
        HxReswap(SwapOption::AfterBegin)
    }

    /// Insert the response after the last child of the target element.
    pub fn before_end() -> (header: HxReswap)
        ensures
            header@ == SwapOption::BeforeEnd,
    {
        HxReswap(SwapOption::BeforeEnd)
    }

    /// Insert the response after the target element.
    pub fn after_end() -> (header: HxReswap)
        ensures
            header@ == SwapOption::AfterEnd,
    {
        HxReswap(SwapOption::AfterEnd)
    }

    /// Delete the target element regardless of the response.
    pub fn delete() -> (header: HxReswap)
        ensures
            header@ == SwapOption::Delete,
    {
        HxReswap(SwapOption::Delete)
    }

    /// Do not append content from the response.
    pub fn none() -> (header: HxReswap)
        ensures
            header@ == SwapOption::NoSwap,
    {
        HxReswap(SwapOption::NoSwap)
    }

    /// The option that the header holds.
    pub fn swap_option(&self) -> (option: SwapOption)
        ensures
            option == self@,
    {
        self.0
    }

    /// The name of the header.
    pub fn name() -> (name: &'static str)
        ensures
            name@ == "hx-reswap"@,
    {
        "hx-reswap"
    }

    /// Reads the header from its values: there must be one, and it must be
    /// the word of an option.
    pub fn decode(values: &[HeaderValue]) -> (header: Result<HxReswap, Error>)
        ensures
            header matches Ok(h) ==> values@.len() == 1 && values@[0]@ == h@.wire(),
            header is Err <==> (values@.len() != 1 || forall|o: SwapOption|
                values@[0]@ != o.wire()),
            header matches Err(e) ==> e == Error::Invalid,
    {
        match just_one(values) {
            Some(value) => match SwapOption::from_header_value(value) {
                Ok(option) => Ok(HxReswap(option)),
                Err(e) => Err(e),
            },
            None => Err(Error::invalid()),
        }
    }

    /// The value of the header.
    pub fn encode(&self) -> (value: Result<HeaderValue, Error>)
        ensures
            value matches Ok(v) && v@ == self@.wire(),
    {
        Ok(self.0.to_header_value())
    }
}

impl std::ops::Deref for HxReswap {
    type Target = SwapOption;

    fn deref(&self) -> (option: &SwapOption)
        ensures
            *option == self@,
    {
        &self.0
    }
}

impl From<SwapOption> for HxReswap {
    fn from(option: SwapOption) -> (header: HxReswap) {
        HxReswap(option)
    }
}

impl vstd::std_specs::convert::FromSpecImpl<SwapOption> for HxReswap {
    open spec fn obeys_from_spec() -> bool {
        true
    }

    open spec fn from_spec(option: SwapOption) -> HxReswap {
        HxReswap(option)
    }
}

impl From<HxReswap> for SwapOption {
    fn from(header: HxReswap) -> (option: SwapOption) {
        header.0
    }
}

impl vstd::std_specs::convert::FromSpecImpl<HxReswap> for SwapOption {
    open spec fn obeys_from_spec() -> bool {
        true
    }

    open spec fn from_spec(header: HxReswap) -> SwapOption {
        header.0
    }
}

} // verus!
