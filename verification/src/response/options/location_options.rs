//! The options of the `hx-location` response header.

use crate::response::options::swap_option::SwapOption;
use crate::util::json::Json;
use vstd::prelude::*;
use vstd::string::StringSliceAdditionalSpecFns;
use vstd::utf8::encode_utf8;

verus! {

/// The options of a location as plain values: texts and documents as bytes.
pub ghost struct OptionsView {
    pub source: Option<Seq<u8>>,
    pub event: Option<Seq<u8>>,
    pub handler: Option<Seq<u8>>,
    pub target: Option<Seq<u8>>,
    pub swap: Option<SwapOption>,
    pub values: Option<Seq<u8>>,
    pub headers: Option<Seq<u8>>,
    pub select: Option<Seq<u8>>,
}

impl OptionsView {
    /// No option is set.
    pub open spec fn unset() -> OptionsView {
        OptionsView {
            source: None,
            event: None,
            handler: None,
            target: None,
            swap: None,
            values: None,
            headers: None,
            select: None,
        }
    }

    /// Whether at least one option is set.
    pub open spec fn any_set(self) -> bool {
        self != Self::unset()
    }
}

/// The bytes of a text that may be missing.
pub open spec fn text_view(text: Option<String>) -> Option<Seq<u8>> {
    match text {
        Some(t) => Some(encode_utf8(t@)),
        None => None,
    }
}

/// The bytes of a document that may be missing.
pub open spec fn document_view(document: Option<Json>) -> Option<Seq<u8>> {
    match document {
        Some(d) => Some(d@),
        None => None,
    }
}

/// Options for the `hx-location` header.
#[derive(Debug, Clone, PartialEq, Eq)]
pub struct LocationOptions {
    source: Option<String>,
    event: Option<String>,
    handler: Option<String>,
    target: Option<String>,
    swap: Option<SwapOption>,
    values: Option<Json>,
    headers: Option<Json>,
    select: Option<String>,
}

impl View for LocationOptions {
    type V = OptionsView;

    closed spec fn view(&self) -> OptionsView {
        OptionsView {
            source: text_view(self.source),
            event: text_view(self.event),
            handler: text_view(self.handler),
            target: text_view(self.target),
            swap: self.swap,
            values: document_view(self.values),
            headers: document_view(self.headers),
            select: text_view(self.select),
        }
    }
}

/// The text behind a reference, if there is one.
fn text_ref(text: &Option<String>) -> (r: Option<&str>)
    ensures
        r is Some <==> text is Some,
        r matches Some(s) ==> Some(s.spec_bytes()) == text_view(*text),
{
    match text {
        Some(t) => Some(t.as_str()),
        None => None,
    }
}

impl Default for LocationOptions {
    fn default() -> (options: LocationOptions)
        ensures
            options@ == OptionsView::unset(),
    {
        LocationOptions {
            source: None,
            event: None,
            handler: None,
            target: None,
            swap: None,
            values: None,
            headers: None,
            select: None,
        }
    }
}

impl LocationOptions {
    /// Options of which none is set.
    pub fn new() -> (options: LocationOptions)
        ensures
            options@ == OptionsView::unset(),
    {
        LocationOptions {
            source: None,
            event: None,
            handler: None,
            target: None,
            swap: None,
            values: None,
            headers: None,
            select: None,
        }
    }

    /// Whether at least one option is set.
    pub fn any_set(&self) -> (any: bool)
        ensures
            any == self@.any_set(),
    {
        self.source.is_some() || self.event.is_some() || self.handler.is_some()
            || self.target.is_some() || self.swap.is_some() || self.values.is_some()
            || self.headers.is_some() || self.select.is_some()
    }

    /// Sets the source element of the request.
    pub fn with_source(self, source: String) -> (options: LocationOptions)
        ensures
            options@ == (OptionsView { source: Some(encode_utf8(source@)), ..self@ }),
    {
        let mut options = self;
        options.source = Some(source);
        options
    }

    /// Sets an event that triggered the request.
    pub fn with_event(self, event: String) -> (options: LocationOptions)
        ensures
            options@ == (OptionsView { event: Some(encode_utf8(event@)), ..self@ }),
    {
        let mut options = self;
        options.event = Some(event);
        options
    }

    /// Sets a callback that handles the response HTML.
    pub fn with_handler(self, handler: String) -> (options: LocationOptions)
        ensures
            options@ == (OptionsView { handler: Some(encode_utf8(handler@)), ..self@ }),
    {
        let mut options = self;
        options.handler = Some(handler);
        options
    }

    /// Sets the target to swap the response into.
    pub fn with_target(self, target: String) -> (options: LocationOptions)
        ensures
            options@ == (OptionsView { target: Some(encode_utf8(target@)), ..self@ }),
    {
        let mut options = self;
        options.target = Some(target);
        options
    }

    /// Sets how the response is swapped in relative to the target.
    pub fn with_swap(self, swap: SwapOption) -> (options: LocationOptions)
        ensures
            options@ == (OptionsView { swap: Some(swap), ..self@ }),
    {
        let mut options = self;
        options.swap = Some(swap);
        options
    }

    /// Sets the values to submit with the request, as a JSON document.
    pub fn with_values(self, values: Json) -> (options: LocationOptions)
        ensures
            options@ == (OptionsView { values: Some(values@), ..self@ }),
    {
        let mut options = self;
        options.values = Some(values);
        options
    }

    /// Sets the headers to submit with the request, as a JSON object.
    pub fn with_headers(self, headers: Json) -> (options: LocationOptions)
        ensures
            options@ == (OptionsView { headers: Some(headers@), ..self@ }),
    {
        let mut options = self;
        options.headers = Some(headers);
        options
    }

    /// Sets a CSS selector that picks the part of the response to swap in.
    pub fn with_select(self, select: String) -> (options: LocationOptions)
        ensures
            options@ == (OptionsView { select: Some(encode_utf8(select@)), ..self@ }),
    {
        let mut options = self;
        options.select = Some(select);
        options
    }

    /// The source element of the request.
    pub fn source(&self) -> (source: Option<&str>)
        ensures
            source is Some <==> self@.source is Some,
            source matches Some(s) ==> Some(s.spec_bytes()) == self@.source,
    {
        text_ref(&self.source)
    }

    /// The event that triggered the request.
    pub fn event(&self) -> (event: Option<&str>)
        ensures
            event is Some <==> self@.event is Some,
            event matches Some(s) ==> Some(s.spec_bytes()) == self@.event,
    {
        text_ref(&self.event)
    }

    /// The callback that handles the response HTML.
    pub fn handler(&self) -> (handler: Option<&str>)
        ensures
            handler is Some <==> self@.handler is Some,
            handler matches Some(s) ==> Some(s.spec_bytes()) == self@.handler,
    {
        text_ref(&self.handler)
    }

    /// The target to swap the response into.
    pub fn target(&self) -> (target: Option<&str>)
        ensures
            target is Some <==> self@.target is Some,
            target matches Some(s) ==> Some(s.spec_bytes()) == self@.target,
    {
        text_ref(&self.target)
    }

    /// How the response is swapped in relative to the target.
    pub fn swap(&self) -> (swap: Option<SwapOption>)
        ensures
            swap == self@.swap,
    {
        self.swap
    }

    /// The values to submit with the request.
    pub fn values(&self) -> (values: Option<&Json>)
        ensures
            values is Some <==> self@.values is Some,
            values matches Some(d) ==> Some(d@) == self@.values,
    {
        self.values.as_ref()
    }

    /// The headers to submit with the request.
    pub fn headers(&self) -> (headers: Option<&Json>)
        ensures
            headers is Some <==> self@.headers is Some,
            headers matches Some(d) ==> Some(d@) == self@.headers,
    {
        self.headers.as_ref()
    }

    /// The CSS selector that picks the part of the response to swap in.
    pub fn select(&self) -> (select: Option<&str>)
        ensures
            select is Some <==> self@.select is Some,
            select matches Some(s) ==> Some(s.spec_bytes()) == self@.select,
    {
        text_ref(&self.select)
    }
}

} // verus!
