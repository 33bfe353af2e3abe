//! The `hx-trigger-after-swap` response header.

use crate::header::Error;
use crate::header::HeaderValue;
use crate::response::options::events::encoded;
use crate::response::options::events::Event;
use crate::response::options::events::Events;
use crate::util::json::Json;
use vstd::prelude::*;
use vstd::string::StringSliceAdditionalSpecFns;

verus! {

/// Triggers events on the client after the swap step.
#[derive(Debug, Clone, PartialEq, Eq, Hash)]
pub struct HxTriggerAfterSwap(pub Events);

impl View for HxTriggerAfterSwap {
    type V = Seq<(Seq<u8>, Option<Seq<u8>>)>;

    open spec fn view(&self) -> Seq<(Seq<u8>, Option<Seq<u8>>)> {
        self.0@
    }
}

impl HxTriggerAfterSwap {
    /// The header that triggers the event of the given name.
    pub fn event(name: &str) -> (header: HxTriggerAfterSwap)
        ensures
            header@ == seq![(name.spec_bytes(), None::<Seq<u8>>)],
    {
        let mut events = Events::with_capacity(1);
        events.push(Event::new(name));
        assert(events@ =~= seq![(name.spec_bytes(), None::<Seq<u8>>)]);
        HxTriggerAfterSwap(events)
    }

    /// The header that triggers the events of the given names, in their
    /// order.
    pub fn events(names: &[&str]) -> (header: HxTriggerAfterSwap)
        ensures
            header@.len() == names@.len(),
            forall|i: int|
                0 <= i < names@.len() ==> header@[i] == (
                    (#[trigger] names@[i]).spec_bytes(),
                    None::<Seq<u8>>,
                ),
    {
        let mut events = Events::with_capacity(names.len());
        let mut i: usize = 0;
        while i < names.len()
            invariant
                i <= names.len(),
                events@.len() == i,
                forall|j: int|
                    0 <= j < i ==> events@[j] == (
                        (#[trigger] names@[j]).spec_bytes(),
                        None::<Seq<u8>>,
                    ),
            decreases names.len() - i,
        {
            events.push(Event::new(names[i]));
            i += 1;
        }
        HxTriggerAfterSwap(events)
    }

    /// The header that triggers the event of the given name with the given
    /// data.
    pub fn event_with_data(name: &str, data: Json) -> (header: HxTriggerAfterSwap)
        ensures
            header@ == seq![(name.spec_bytes(), Some(data@))],
    {
        let mut events = Events::with_capacity(1);
        let ghost document = data@;
        events.push(Event::new_with_data(name, data));
        assert(events@ =~= seq![(name.spec_bytes(), Some(document))]);
        HxTriggerAfterSwap(events)
    }

    /// The name of the header.
    pub fn name() -> (name: &'static str)
        ensures
            name@ == "hx-trigger-after-swap"@,
    {
        "hx-trigger-after-swap"
    }

    /// A response header is not sent by a client: nothing is read.
    pub fn decode(values: &[HeaderValue]) -> (header: Result<HxTriggerAfterSwap, Error>)
        ensures
            header matches Err(e) && e == Error::WrongDirection,
    {
        Err(Error::WrongDirection)
    }

    /// The value of the header: the events as one header value.
    pub fn encode(&self) -> (value: Result<HeaderValue, Error>)
        ensures
            value is Ok <==> encoded(self@) is Some,
            value matches Ok(v) ==> Some(v@) == encoded(self@),
            value matches Err(e) ==> e == Error::Invalid,
    {
        match self.0.to_header_value() {
            Some(value) => Ok(value),
            None => Err(Error::invalid()),
        }
    }
}

impl std::ops::Deref for HxTriggerAfterSwap {
    type Target = Events;

    fn deref(&self) -> (inner: &Events)
        ensures
            inner@ == self@,
    {
        &self.0
    }
}

impl From<Events> for HxTriggerAfterSwap {
    fn from(events: Events) -> (header: HxTriggerAfterSwap) {
        HxTriggerAfterSwap(events)
    }
}

impl vstd::std_specs::convert::FromSpecImpl<Events> for HxTriggerAfterSwap {
    open spec fn obeys_from_spec() -> bool {
        true
    }

    open spec fn from_spec(events: Events) -> HxTriggerAfterSwap {
        HxTriggerAfterSwap(events)
    }
}

} // verus!
