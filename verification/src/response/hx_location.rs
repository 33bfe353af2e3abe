//! The `hx-location` response header.

use crate::header::bytes_eq;
use crate::header::is_header_name;
use crate::header::is_header_value;
use crate::header::is_legal_name;
use crate::header::just_one;
use crate::header::Error;
use crate::header::HeaderValue;
use crate::response::options::location_options::LocationOptions;
use crate::response::options::location_options::OptionsView;
use crate::response::options::swap_option::SwapOption;
use crate::util::json::document_views;
use crate::util::json::frame_object;
use crate::util::json::json_quoted;
use crate::util::json::json_shape;
use crate::util::json::member_views;
use crate::util::json::object_text;
use crate::util::json::read_shape;
use crate::util::json::Json;
use crate::util::json::JsonMember;
use crate::util::json::JsonShape;
use crate::util::json::Shape;
use crate::util::uri::uri_text;
use crate::util::uri::Uri;
use vstd::prelude::*;
use vstd::string::StringExecFns;
use vstd::string::StringSliceAdditionalSpecFns;
use vstd::utf8::encode_utf8;

verus! {

/// The members so far with one more, whose value is the JSON string of
/// `text`; the same members where there is no text.
pub open spec fn with_text(
    members: Seq<(Seq<u8>, Seq<u8>)>,
    key: Seq<char>,
    text: Option<Seq<u8>>,
) -> Seq<(Seq<u8>, Seq<u8>)> {
    match text {
        Some(t) => members.push((encode_utf8(key), json_quoted(t))),
        None => members,
    }
}

/// The members so far with one more, whose value is `document`; the same
/// members where there is no document.
pub open spec fn with_document(
    members: Seq<(Seq<u8>, Seq<u8>)>,
    key: Seq<char>,
    document: Option<Seq<u8>>,
) -> Seq<(Seq<u8>, Seq<u8>)> {
    match document {
        Some(d) => members.push((encode_utf8(key), d)),
        None => members,
    }
}

/// The word of a swap option that may be missing.
pub open spec fn swap_word(swap: Option<SwapOption>) -> Option<Seq<u8>> {
    match swap {
        Some(option) => Some(option.wire()),
        None => None,
    }
}

/// The members of the object that stands for a location: the path, then the
/// options that are set, in the order of their declaration.
pub open spec fn location_members(path: Seq<u8>, options: OptionsView) -> Seq<
    (Seq<u8>, Seq<u8>),
> {
    let members = with_text(Seq::empty(), "path"@, Some(path));
    let members = with_text(members, "source"@, options.source);
    let members = with_text(members, "event"@, options.event);
    let members = with_text(members, "handler"@, options.handler);
    let members = with_text(members, "target"@, options.target);
    let members = with_text(members, "swap"@, swap_word(options.swap));
    let members = with_document(members, "values"@, options.values);
    let members = with_document(members, "headers"@, options.headers);
    with_text(members, "select"@, options.select)
}

/// The text that stands for a location: the text of the path where no option
/// is set, else one JSON object.
pub open spec fn location_text(location: (Seq<u8>, Option<OptionsView>)) -> Seq<u8> {
    match location.1 {
        Some(options) if options.any_set() => object_text(
            location_members(location.0, options),
        ),
        _ => location.0,
    }
}

/// The header value of a location: its text, where it is legal in a header
/// value.
pub open spec fn encoded(location: (Seq<u8>, Option<OptionsView>)) -> Option<Seq<u8>> {
    if is_header_value(location_text(location)) {
        Some(location_text(location))
    } else {
        None
    }
}

/// The document of the first member with the given key.
pub open spec fn lookup(members: Seq<(Seq<u8>, Seq<u8>)>, key: Seq<u8>) -> Option<Seq<u8>>
    decreases members.len(),
{
    if members.len() == 0 {
        None
    } else if members[0].0 == key {
        Some(members[0].1)
    } else {
        lookup(members.drop_first(), key)
    }
}

/// The text of a member that is to be a string: a member that is missing or
/// `null` holds none, and any other document is refused.
pub open spec fn member_text(document: Option<Seq<u8>>) -> Result<Option<Seq<u8>>, Error> {
    match document {
        None => Ok(None),
        Some(d) => match json_shape(d) {
            Shape::Null => Ok(None),
            Shape::Text(text) => Ok(Some(text)),
            _ => Err(Error::Invalid),
        },
    }
}

/// The swap option of a member: its text must be the word of an option.
pub open spec fn member_swap(document: Option<Seq<u8>>) -> Result<Option<SwapOption>, Error> {
    match member_text(document) {
        Ok(None) => Ok(None),
        Ok(Some(text)) => if exists|o: SwapOption| text == o.wire() {
            Ok(Some(choose|o: SwapOption| text == o.wire()))
        } else {
            Err(Error::Invalid)
        },
        Err(e) => Err(e),
    }
}

/// The document of a member that may be any document: a member that is
/// missing or `null` holds none.
pub open spec fn member_document(document: Option<Seq<u8>>) -> Option<Seq<u8>> {
    match document {
        None => None,
        Some(d) => if json_shape(d) == Shape::Null {
            None
        } else {
            Some(d)
        },
    }
}

/// The document is a header value, or several: a string that is legal in a
/// header value, or an array of such strings.
pub open spec fn is_header_values(document: Seq<u8>) -> bool {
    match json_shape(document) {
        Shape::Text(text) => is_header_value(text),
        Shape::Array(items) => forall|i: int|
            0 <= i < items.len() ==> (json_shape(#[trigger] items[i]) matches Shape::Text(text)
                && is_header_value(text)),
        _ => false,
    }
}

/// The document is a map of headers: an object in which every key is a legal
/// header name and every value a header value, or several.
pub open spec fn is_header_map(document: Seq<u8>) -> bool {
    match json_shape(document) {
        Shape::Object(members) => forall|i: int|
            0 <= i < members.len() ==> (is_header_name((#[trigger] members[i]).0)
                && is_header_values(members[i].1)),
        _ => false,
    }
}

/// The document of a member that is to be a map of headers: a member that is
/// missing or `null` holds none, and any other document that is no map of
/// headers is refused.
pub open spec fn member_headers(document: Option<Seq<u8>>) -> Result<Option<Seq<u8>>, Error> {
    match document {
        None => Ok(None),
        Some(d) => if json_shape(d) == Shape::Null {
            Ok(None)
        } else if is_header_map(d) {
            Ok(Some(d))
        } else {
            Err(Error::Invalid)
        },
    }
}

/// The bytes of a key.
pub open spec fn key(name: Seq<char>) -> Seq<u8> {
    encode_utf8(name)
}

/// The options that the members of an object hold.
pub open spec fn decoded_options(members: Seq<(Seq<u8>, Seq<u8>)>) -> Result<OptionsView, Error> {
    match (
        member_text(lookup(members, key("source"@))),
        member_text(lookup(members, key("event"@))),
        member_text(lookup(members, key("handler"@))),
        member_text(lookup(members, key("target"@))),
        member_swap(lookup(members, key("swap"@))),
        member_headers(lookup(members, key("headers"@))),
        member_text(lookup(members, key("select"@))),
    ) {
        (Ok(source), Ok(event), Ok(handler), Ok(target), Ok(swap), Ok(headers), Ok(select)) => Ok(
            OptionsView {
                source,
                event,
                handler,
                target,
                swap,
                values: member_document(lookup(members, key("values"@))),
                headers,
                select,
            },
        ),
        _ => Err(Error::Invalid),
    }
}

/// The location that the members of an object hold: the path must be there,
/// a string that is a URI, and every option that is there must have its
/// form. Where no option is set, the location has no options.
pub open spec fn decoded_object(members: Seq<(Seq<u8>, Seq<u8>)>) -> Result<
    (Seq<u8>, Option<OptionsView>),
    Error,
> {
    match member_text(lookup(members, key("path"@))) {
        Ok(Some(path)) => match (uri_text(path), decoded_options(members)) {
            (Some(uri), Ok(options)) => Ok(
                (
                    uri,
                    if options.any_set() {
                        Some(options)
                    } else {
                        None
                    },
                ),
            ),
            _ => Err(Error::Invalid),
        },
        _ => Err(Error::Invalid),
    }
}

/// The location that the values of the header hold: there must be one value,
/// a JSON string that is a URI, or a JSON object.
pub open spec fn decoded(values: Seq<HeaderValue>) -> Result<
    (Seq<u8>, Option<OptionsView>),
    Error,
> {
    if values.len() != 1 {
        Err(Error::Invalid)
    } else {
        match json_shape(values[0]@) {
            Shape::Text(text) => match uri_text(text) {
                Some(uri) => Ok((uri, None)),
                None => Err(Error::Invalid),
            },
            Shape::Object(members) => decoded_object(members),
            _ => Err(Error::Invalid),
        }
    }
}

/// Adds the member of the given name and text, if there is a text.
fn add_text(members: &mut Vec<JsonMember>, name: &str, text: Option<&str>)
    ensures
        member_views(final(members)@) == with_text(
            member_views(old(members)@),
            name@,
            match text {
                Some(t) => Some(t.spec_bytes()),
                None => None,
            },
        ),
{
    match text {
        Some(t) => {
            let ghost before = member_views(members@);
            let member = JsonMember { key: String::from_str(name), value: Json::string(t) };
            let ghost added = member@;
            members.push(member);
            assert(member_views(members@) =~= before.push(added));
        },
        None => {},
    }
}

/// Adds the member of the given name and document, if there is a document.
fn add_document(members: &mut Vec<JsonMember>, name: &str, document: Option<&Json>)
    ensures
        member_views(final(members)@) == with_document(
            member_views(old(members)@),
            name@,
            match document {
                Some(d) => Some(d@),
                None => None,
            },
        ),
{
    match document {
        Some(d) => {
            let ghost before = member_views(members@);
            let member = JsonMember { key: String::from_str(name), value: d.clone() };
            let ghost added = member@;
            members.push(member);
            assert(member_views(members@) =~= before.push(added));
        },
        None => {},
    }
}

/// Whether the document is a header value, or several.
fn holds_header_values(document: &Json) -> (held: bool)
    ensures
        held == is_header_values(document@),
{
    match document.shape() {
        JsonShape::Text(text) => HeaderValue::from_str(text.as_str()).is_some(),
        JsonShape::Array(items) => {
            let mut i: usize = 0;
            while i < items.len()
                invariant
                    i <= items.len(),
                    json_shape(document@) == Shape::Array(document_views(items@)),
                    forall|j: int|
                        0 <= j < i ==> (json_shape(#[trigger] document_views(items@)[j])
                            matches Shape::Text(text) && is_header_value(text)),
                decreases items.len() - i,
            {
                let legal = match items[i].shape() {
                    JsonShape::Text(text) => HeaderValue::from_str(text.as_str()).is_some(),
                    _ => false,
                };
                if !legal {
                    assert(document_views(items@)[i as int] == items@[i as int]@);
                    return false;
                }
                assert(document_views(items@)[i as int] == items@[i as int]@);
                i += 1;
            }
            true
        },
        _ => false,
    }
}

/// An object with a member that is no header is no map of headers.
proof fn lemma_no_header_map(document: Seq<u8>, members: Seq<(Seq<u8>, Seq<u8>)>, i: int)
    requires
        json_shape(document) == Shape::Object(members),
        0 <= i < members.len(),
        !is_header_name(members[i].0) || !is_header_values(members[i].1),
    ensures
        !is_header_map(document),
{
    let held = json_shape(document)->Object_0;
    assert(held == members);
    assert(held[i] == members[i]);
    if is_header_map(document) {
        assert(is_header_name(held[i].0) && is_header_values(held[i].1));
    }
}

/// Whether the document is a map of headers.
fn holds_header_map(document: &Json) -> (held: bool)
    ensures
        held == is_header_map(document@),
{
    match document.shape() {
        JsonShape::Object(members) => {
            let mut i: usize = 0;
            while i < members.len()
                invariant
                    i <= members.len(),
                    json_shape(document@) == Shape::Object(member_views(members@)),
                    forall|j: int|
                        0 <= j < i ==> is_header_name((#[trigger] member_views(members@)[j]).0)
                            && is_header_values(member_views(members@)[j].1),
                decreases members.len() - i,
            {
                let ghost all = member_views(members@);
                assert(all[i as int] == members@[i as int]@);
                if !is_legal_name(members[i].key.as_str().as_bytes()) {
                    proof {
                        lemma_no_header_map(document@, all, i as int);
                    }
                    return false;
                }
                if !holds_header_values(&members[i].value) {
                    proof {
                        lemma_no_header_map(document@, all, i as int);
                    }
                    return false;
                }
                i += 1;
            }
            true
        },
        _ => false,
    }
}

/// The document of the first member with the given key.
fn find_member<'a>(members: &'a [JsonMember], name: &str) -> (document: Option<&'a Json>)
    ensures
        document is Some <==> lookup(member_views(members@), key(name@)) is Some,
        document matches Some(d) ==> Some(d@) == lookup(member_views(members@), key(name@)),
{
    let ghost all = member_views(members@);
    let mut i: usize = 0;
    proof {
        assert(all.skip(0) =~= all);
    }
    while i < members.len()
        invariant
            i <= members.len(),
            all == member_views(members@),
            lookup(all, key(name@)) == lookup(all.skip(i as int), key(name@)),
        decreases members.len() - i,
    {
        proof {
            assert(all.skip(i as int)[0] == members@[i as int]@);
            assert(all.skip(i as int).drop_first() =~= all.skip(i + 1));
        }
        if bytes_eq(members[i].key.as_str().as_bytes(), name.as_bytes()) {
            return Some(&members[i].value);
        }
        i += 1;
    }
    None
}

/// The text of a member that is to be a string.
fn read_text(document: Option<&Json>) -> (text: Result<Option<String>, Error>)
    ensures
        text matches Ok(Some(t)) ==> member_text(
            match document {
                Some(d) => Some(d@),
                None => None,
            },
        ) == Ok::<Option<Seq<u8>>, Error>(Some(encode_utf8(t@))),
        text matches Ok(None) ==> member_text(
            match document {
                Some(d) => Some(d@),
                None => None,
            },
        ) == Ok::<Option<Seq<u8>>, Error>(None),
        text matches Err(e) ==> member_text(
            match document {
                Some(d) => Some(d@),
                None => None,
            },
        ) == Err::<Option<Seq<u8>>, Error>(e),
{
    match document {
        None => Ok(None),
        Some(d) => match d.shape() {
            JsonShape::Null => Ok(None),
            JsonShape::Text(text) => Ok(Some(text)),
            _ => Err(Error::invalid()),
        },
    }
}

/// Allows a client-side redirect that does not reload the whole page.
#[derive(Debug, Clone, PartialEq, Eq)]
pub struct HxLocation {
    path: Uri,
    options: Option<LocationOptions>,
}

impl View for HxLocation {
    type V = (Seq<u8>, Option<OptionsView>);

    closed spec fn view(&self) -> (Seq<u8>, Option<OptionsView>) {
        (
            self.path@,
            match self.options {
                Some(options) => Some(options@),
                None => None,
            },
        )
    }
}

impl HxLocation {
    /// The location of a path, without options.
    pub fn new(path: Uri) -> (location: HxLocation)
        ensures
            location@ == (path@, None::<OptionsView>),
    {
        HxLocation { path, options: None }
    }

    /// The location with the given options in place of those it had.
    pub fn with_options(self, options: LocationOptions) -> (location: HxLocation)
        ensures
            location@ == (self@.0, Some(options@)),
    {
        let mut location = self;
        location.options = Some(options);
        location
    }

    /// The path of the location.
    pub fn path(&self) -> (path: &Uri)
        ensures
            path@ == self@.0,
    {
        &self.path
    }

    /// The options of the location, if it has any.
    pub fn options(&self) -> (options: Option<&LocationOptions>)
        ensures
            options is Some <==> self@.1 is Some,
            options matches Some(o) ==> Some(o@) == self@.1,
    {
        self.options.as_ref()
    }

    /// The source element of the request.
    pub fn source(&self) -> (source: Option<&str>)
        ensures
            source is Some <==> (self@.1 matches Some(o) && o.source is Some),
            source matches Some(s) ==> Some(s.spec_bytes()) == self@.1->0.source,
    {
        match &self.options {
            Some(options) => options.source(),
            None => None,
        }
    }

    /// The event that triggered the request.
    pub fn event(&self) -> (event: Option<&str>)
        ensures
            event is Some <==> (self@.1 matches Some(o) && o.event is Some),
            event matches Some(s) ==> Some(s.spec_bytes()) == self@.1->0.event,
    {
        match &self.options {
            Some(options) => options.event(),
            None => None,
        }
    }

    /// The callback that handles the response HTML.
    pub fn handler(&self) -> (handler: Option<&str>)
        ensures
            handler is Some <==> (self@.1 matches Some(o) && o.handler is Some),
            handler matches Some(s) ==> Some(s.spec_bytes()) == self@.1->0.handler,
    {
        match &self.options {
            Some(options) => options.handler(),
            None => None,
        }
    }

    /// The target to swap the response into.
    pub fn target(&self) -> (target: Option<&str>)
        ensures
            target is Some <==> (self@.1 matches Some(o) && o.target is Some),
            target matches Some(s) ==> Some(s.spec_bytes()) == self@.1->0.target,
    {
        match &self.options {
            Some(options) => options.target(),
            None => None,
        }
    }

    /// How the response is swapped in relative to the target.
    pub fn swap(&self) -> (swap: Option<SwapOption>)
        ensures
            swap == (match self@.1 {
                Some(o) => o.swap,
                None => None,
            }),
    {
        match &self.options {
            Some(options) => options.swap(),
            None => None,
        }
    }

    /// The values to submit with the request.
    pub fn values(&self) -> (values: Option<&Json>)
        ensures
            values is Some <==> (self@.1 matches Some(o) && o.values is Some),
            values matches Some(d) ==> Some(d@) == self@.1->0.values,
    {
        match &self.options {
            Some(options) => options.values(),
            None => None,
        }
    }

    /// The headers to submit with the request.
    pub fn headers(&self) -> (headers: Option<&Json>)
        ensures
            headers is Some <==> (self@.1 matches Some(o) && o.headers is Some),
            headers matches Some(d) ==> Some(d@) == self@.1->0.headers,
    {
        match &self.options {
            Some(options) => options.headers(),
            None => None,
        }
    }

    /// The CSS selector that picks the part of the response to swap in.
    pub fn select(&self) -> (select: Option<&str>)
        ensures
            select is Some <==> (self@.1 matches Some(o) && o.select is Some),
            select matches Some(s) ==> Some(s.spec_bytes()) == self@.1->0.select,
    {
        match &self.options {
            Some(options) => options.select(),
            None => None,
        }
    }

    /// The name of the header.
    pub fn name() -> (name: &'static str)
        ensures
            name@ == "hx-location"@,
    {
        "hx-location"
    }

    /// The options that the members of an object hold.
    pub fn decode_options(members: &[JsonMember]) -> (options: Result<LocationOptions, Error>)
        ensures
            options matches Ok(o) ==> decoded_options(member_views(members@)) == Ok::<
                OptionsView,
                Error,
            >(o@),
            options matches Err(e) ==> decoded_options(member_views(members@)) == Err::<
                OptionsView,
                Error,
            >(e),
    {
        let mut options = LocationOptions::new();
        match read_text(find_member(members, "source")) {
            Ok(Some(text)) => {
                options = options.with_source(text);
            },
            Ok(None) => {},
            Err(e) => {
                return Err(e);
            },
        }
        match read_text(find_member(members, "event")) {
            Ok(Some(text)) => {
                options = options.with_event(text);
            },
            Ok(None) => {},
            Err(e) => {
                return Err(e);
            },
        }
        match read_text(find_member(members, "handler")) {
            Ok(Some(text)) => {
                options = options.with_handler(text);
            },
            Ok(None) => {},
            Err(e) => {
                return Err(e);
            },
        }
        match read_text(find_member(members, "target")) {
            Ok(Some(text)) => {
                options = options.with_target(text);
            },
            Ok(None) => {},
            Err(e) => {
                return Err(e);
            },
        }
        match read_text(find_member(members, "swap")) {
            Ok(Some(text)) => match SwapOption::from_token(text.as_str().as_bytes()) {
                Some(swap) => {
                    proof {
                        let word = encode_utf8(text@);
                        let chosen = choose|o: SwapOption| word == o.wire();
                        SwapOption::lemma_tokens(swap, chosen);
                    }
                    options = options.with_swap(swap);
                },
                None => {
                    return Err(Error::invalid());
                },
            },
            Ok(None) => {},
            Err(e) => {
                return Err(e);
            },
        }
        match find_member(members, "values") {
            Some(document) => match document.shape() {
                JsonShape::Null => {},
                _ => {
                    options = options.with_values(document.clone());
                },
            },
            None => {},
        }
        match find_member(members, "headers") {
            Some(document) => match document.shape() {
                JsonShape::Null => {},
                _ => {
                    if holds_header_map(document) {
                        options = options.with_headers(document.clone());
                    } else {
                        return Err(Error::invalid());
                    }
                },
            },
            None => {},
        }
        match read_text(find_member(members, "select")) {
            Ok(Some(text)) => {
                options = options.with_select(text);
            },
            Ok(None) => {},
            Err(e) => {
                return Err(e);
            },
        }
        Ok(options)
    }

    /// The location that the members of an object hold.
    pub fn decode_object(members: &[JsonMember]) -> (location: Result<HxLocation, Error>)
        ensures
            location matches Ok(l) ==> decoded_object(member_views(members@)) == Ok::<
                (Seq<u8>, Option<OptionsView>),
                Error,
            >(l@),
            location matches Err(e) ==> decoded_object(member_views(members@)) == Err::<
                (Seq<u8>, Option<OptionsView>),
                Error,
            >(e),
    {
        let path = match read_text(find_member(members, "path")) {
            Ok(Some(text)) => match Uri::parse(text.as_str().as_bytes()) {
                Ok(uri) => uri,
                Err(e) => {
                    return Err(e);
                },
            },
            _ => {
                return Err(Error::invalid());
            },
        };
        match Self::decode_options(members) {
            Ok(options) => {
                if options.any_set() {
                    Ok(HxLocation { path, options: Some(options) })
                } else {
                    Ok(HxLocation { path, options: None })
                }
            },
            Err(e) => Err(e),
        }
    }

    /// Reads the header from its values.
    pub fn decode(values: &[HeaderValue]) -> (location: Result<HxLocation, Error>)
        ensures
            location matches Ok(l) ==> decoded(values@) == Ok::<
                (Seq<u8>, Option<OptionsView>),
                Error,
            >(l@),
            location matches Err(e) ==> decoded(values@) == Err::<
                (Seq<u8>, Option<OptionsView>),
                Error,
            >(e),
    {
        match just_one(values) {
            Some(value) => match read_shape(value.as_bytes()) {
                JsonShape::Text(text) => match Uri::parse(text.as_str().as_bytes()) {
                    Ok(uri) => Ok(HxLocation::new(uri)),
                    Err(e) => Err(e),
                },
                JsonShape::Object(members) => Self::decode_object(members.as_slice()),
                _ => Err(Error::invalid()),
            },
            None => Err(Error::invalid()),
        }
    }

    /// The members of the object that stands for the location with the given
    /// options.
    fn members(&self, options: &LocationOptions) -> (members: Vec<JsonMember>)
        ensures
            member_views(members@) == location_members(self.path@, options@),
    {
        let mut members: Vec<JsonMember> = Vec::new();
        assert(member_views(members@) =~= Seq::<(Seq<u8>, Seq<u8>)>::empty());
        add_text(&mut members, "path", Some(self.path.as_str()));
        add_text(&mut members, "source", options.source());
        add_text(&mut members, "event", options.event());
        add_text(&mut members, "handler", options.handler());
        add_text(&mut members, "target", options.target());
        let swap = match options.swap() {
            Some(option) => Some(option.as_str()),
            None => None,
        };
        add_text(&mut members, "swap", swap);
        add_document(&mut members, "values", options.values());
        add_document(&mut members, "headers", options.headers());
        add_text(&mut members, "select", options.select());
        members
    }

    /// The header value of the location, if there is one.
    pub fn to_header_value(&self) -> (value: Option<HeaderValue>)
        ensures
            value is Some <==> encoded(self@) is Some,
            value matches Some(v) ==> Some(v@) == encoded(self@),
    {
        match &self.options {
            Some(options) => {
                if options.any_set() {
                    let members = self.members(options);
                    let text = frame_object(members.as_slice());
                    HeaderValue::from_bytes(text.as_slice())
                } else {
                    HeaderValue::from_str(self.path.as_str())
                }
            },
            None => HeaderValue::from_str(self.path.as_str()),
        }
    }

    /// The value of the header.
    pub fn encode(&self) -> (value: Result<HeaderValue, Error>)
        ensures
            value is Ok <==> encoded(self@) is Some,
            value matches Ok(v) ==> Some(v@) == encoded(self@),
            value matches Err(e) ==> e == Error::Invalid,
    {
        match self.to_header_value() {
            Some(value) => Ok(value),
            None => Err(Error::invalid()),
        }
    }
}

} // verus!
