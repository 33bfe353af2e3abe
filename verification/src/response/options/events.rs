//! The events that a response triggers on the client.

use crate::header::is_header_value;
use crate::header::HeaderValue;
use crate::util::json::frame_object;
use crate::util::json::is_sorted;
use crate::util::json::lemma_put;
use crate::util::json::member_views;
use crate::util::json::object_text;
use crate::util::json::put;
use crate::util::json::put_member;
use crate::util::json::Json;
use crate::util::json::JsonMember;
use crate::util::json::COMMA;
use vstd::prelude::*;
use vstd::string::StringExecFns;
use vstd::string::StringSliceAdditionalSpecFns;
use vstd::utf8::encode_utf8;

verus! {

/// An event that is triggered on the client: its name, and the data that
/// goes with it, if any.
#[derive(Debug, Clone, PartialEq, Eq, Hash)]
pub struct Event {
    name: String,
    data: Option<Json>,
}

impl View for Event {
    type V = (Seq<u8>, Option<Seq<u8>>);

    closed spec fn view(&self) -> (Seq<u8>, Option<Seq<u8>>) {
        (
            encode_utf8(self.name@),
            match self.data {
                Some(data) => Some(data@),
                None => None,
            },
        )
    }
}

impl Event {
    /// An event with the given name and no data.
    pub fn new(name: &str) -> (event: Event)
        ensures
            event@ == (name.spec_bytes(), None::<Seq<u8>>),
    {
        Event { name: String::from_str(name), data: None }
    }

    /// An event with the given name and data.
    pub fn new_with_data(name: &str, data: Json) -> (event: Event)
        ensures
            event@ == (name.spec_bytes(), Some(data@)),
    {
        Event { name: String::from_str(name), data: Some(data) }
    }

    /// The name of the event.
    pub fn name(&self) -> (name: &str)
        ensures
            name.spec_bytes() == self@.0,
    {
        self.name.as_str()
    }

    /// The data of the event.
    pub fn data(&self) -> (data: Option<&Json>)
        ensures
            data is Some <==> self@.1 is Some,
            data matches Some(d) ==> Some(d@) == self@.1,
    {
        self.data.as_ref()
    }
}

/// The events as plain values.
pub open spec fn event_views(events: Seq<Event>) -> Seq<(Seq<u8>, Option<Seq<u8>>)> {
    events.map_values(|e: Event| e@)
}

/// Whether one of the events carries data.
pub open spec fn any_data(events: Seq<(Seq<u8>, Option<Seq<u8>>)>) -> bool {
    exists|i: int| 0 <= i < events.len() && (#[trigger] events[i]).1 is Some
}

/// The document that stands for the data of an event: `null` where it has
/// none.
pub open spec fn payload(data: Option<Seq<u8>>) -> Seq<u8> {
    match data {
        Some(document) => document,
        None => encode_utf8("null"@),
    }
}

/// The members of the object that stands for the events: one for each name,
/// in the order of the names, with the data of the last event of that name.
pub open spec fn members_of(events: Seq<(Seq<u8>, Option<Seq<u8>>)>) -> Seq<
    (Seq<u8>, Seq<u8>),
>
    decreases events.len(),
{
    if events.len() == 0 {
        Seq::empty()
    } else {
        put(members_of(events.drop_last()), events.last().0, payload(events.last().1))
    }
}

/// The names of the events, with a comma between two of them.
pub open spec fn joined(events: Seq<(Seq<u8>, Option<Seq<u8>>)>) -> Seq<u8>
    decreases events.len(),
{
    if events.len() == 0 {
        Seq::empty()
    } else if events.len() == 1 {
        events[0].0
    } else {
        joined(events.drop_last()) + seq![COMMA] + events.last().0
    }
}

/// The text that stands for the events. No event gives the empty text.
/// Events without data give their names with commas between them. Where one
/// event carries data, all of them form one JSON object.
pub open spec fn events_text(events: Seq<(Seq<u8>, Option<Seq<u8>>)>) -> Seq<u8> {
    if events.len() == 0 {
        Seq::empty()
    } else if any_data(events) {
        object_text(members_of(events))
    } else {
        joined(events)
    }
}

/// The header value of the events: their text, where it is legal in a header
/// value.
pub open spec fn encoded(events: Seq<(Seq<u8>, Option<Seq<u8>>)>) -> Option<Seq<u8>> {
    if is_header_value(events_text(events)) {
        Some(events_text(events))
    } else {
        None
    }
}

/// Event `i` is the last of its name.
pub open spec fn is_last_of_name(events: Seq<(Seq<u8>, Option<Seq<u8>>)>, i: int) -> bool {
    &&& 0 <= i < events.len()
    &&& forall|j: int| i < j < events.len() ==> (#[trigger] events[j]).0 != events[i].0
}

/// The object of the events has its keys in order, each once: a key with a
/// value is among its members exactly where the last event of that name
/// carries that value.
pub proof fn lemma_members_of(events: Seq<(Seq<u8>, Option<Seq<u8>>)>)
    ensures
        is_sorted(members_of(events)),
        forall|k: Seq<u8>, v: Seq<u8>|
            members_of(events).contains((k, v)) <==> (exists|i: int|
                #![trigger events[i]]
                is_last_of_name(events, i) && events[i].0 == k && payload(events[i].1) == v),
    decreases events.len(),
{
    if events.len() == 0 {
        assert forall|k: Seq<u8>, v: Seq<u8>| !members_of(events).contains((k, v)) by {}
    } else {
        let before = events.drop_last();
        let last = events.last();
        let n = events.len() - 1;
        lemma_members_of(before);
        lemma_put(members_of(before), last.0, payload(last.1));
        let after = members_of(events);
        assert forall|k: Seq<u8>, v: Seq<u8>|
            after.contains((k, v)) <==> (exists|i: int|
                #![trigger events[i]]
                is_last_of_name(events, i) && events[i].0 == k && payload(events[i].1)
                    == v) by {
            if after.contains((k, v)) {
                if k == last.0 {
                    assert(v == payload(last.1));
                    assert(is_last_of_name(events, n) && events[n].0 == k);
                } else {
                    assert(members_of(before).contains((k, v)));
                    let i = choose|i: int|
                        #![trigger before[i]]
                        is_last_of_name(before, i) && before[i].0 == k && payload(before[i].1)
                            == v;
                    assert(events[i] == before[i]);
                    assert forall|j: int| i < j < events.len() implies (#[trigger] events[j]).0
                        != events[i].0 by {
                        if j < n {
                            assert(events[j] == before[j]);
                        }
                    }
                    assert(is_last_of_name(events, i));
                }
            }
            if exists|i: int|
                #![trigger events[i]]
                is_last_of_name(events, i) && events[i].0 == k && payload(events[i].1) == v {
                let i = choose|i: int|
                    #![trigger events[i]]
                    is_last_of_name(events, i) && events[i].0 == k && payload(events[i].1) == v;
                if i == n {
                } else {
                    assert(events[n].0 != events[i].0);
                    assert(before[i] == events[i]);
                    assert forall|j: int| i < j < before.len() implies (#[trigger] before[j]).0
                        != before[i].0 by {
                        assert(before[j] == events[j]);
                    }
                    assert(is_last_of_name(before, i));
                    assert(members_of(before).contains((k, v)));
                }
            }
        }
    }
}

/// The events that a response triggers, in the order in which they were
/// added.
#[derive(Debug, Clone, PartialEq, Eq, Hash)]
pub struct Events {
    list: Vec<Event>,
}

impl View for Events {
    type V = Seq<(Seq<u8>, Option<Seq<u8>>)>;

    closed spec fn view(&self) -> Seq<(Seq<u8>, Option<Seq<u8>>)> {
        event_views(self.list@)
    }
}

impl std::ops::Deref for Events {
    type Target = Vec<Event>;

    fn deref(&self) -> (inner: &Vec<Event>)
        ensures
            event_views(inner@) == self@,
    {
        &self.list
    }
}

impl Default for Events {
    fn default() -> (events: Events)
        ensures
            events@ == Seq::<(Seq<u8>, Option<Seq<u8>>)>::empty(),
    {
        Events::new()
    }
}

impl Events {
    /// No events.
    pub fn new() -> (events: Events)
        ensures
            events@ == Seq::<(Seq<u8>, Option<Seq<u8>>)>::empty(),
    {
        let events = Events { list: Vec::new() };
        assert(events@ =~= Seq::<(Seq<u8>, Option<Seq<u8>>)>::empty());
        events
    }

    /// No events, with room for `capacity` of them.
    pub fn with_capacity(capacity: usize) -> (events: Events)
        ensures
            events@ == Seq::<(Seq<u8>, Option<Seq<u8>>)>::empty(),
    {
        let events = Events { list: Vec::with_capacity(capacity) };
        assert(events@ =~= Seq::<(Seq<u8>, Option<Seq<u8>>)>::empty());
        events
    }

    /// Adds an event behind those that are there.
    pub fn push(&mut self, event: Event)
        ensures
            final(self)@ == old(self)@.push(event@),
    {
        self.list.push(event);
        assert(self@ =~= old(self)@.push(event@));
    }

    /// The number of events.
    pub fn len(&self) -> (n: usize)
        ensures
            n == self@.len(),
    {
        self.list.len()
    }

    /// Whether there is no event.
    pub fn is_empty(&self) -> (empty: bool)
        ensures
            empty == (self@.len() == 0),
    {
        self.list.len() == 0
    }

    /// The event at place `i`.
    pub fn get(&self, i: usize) -> (event: Option<&Event>)
        ensures
            event is Some <==> i < self@.len(),
            event matches Some(e) ==> e@ == self@[i as int],
    {
        if i < self.list.len() {
            Some(&self.list[i])
        } else {
            None
        }
    }

    /// Whether one of the events carries data.
    pub fn has_data(&self) -> (any: bool)
        ensures
            any == any_data(self@),
    {
        let mut i: usize = 0;
        while i < self.list.len()
            invariant
                i <= self.list.len(),
                forall|j: int| 0 <= j < i ==> (#[trigger] self@[j]).1 is None,
            decreases self.list.len() - i,
        {
            if self.list[i].data.is_some() {
                assert(self@[i as int].1 is Some);
                return true;
            }
            i += 1;
        }
        false
    }

    /// The names of the events, with a comma between two of them.
    fn join_names(&self) -> (text: Vec<u8>)
        ensures
            text@ == joined(self@),
    {
        let mut text: Vec<u8> = Vec::new();
        let mut i: usize = 0;
        proof {
            assert(self@.take(0) =~= Seq::<(Seq<u8>, Option<Seq<u8>>)>::empty());
        }
        while i < self.list.len()
            invariant
                i <= self.list.len(),
                text@ == joined(self@.take(i as int)),
            decreases self.list.len() - i,
        {
            proof {
                assert(self@.take(i + 1).drop_last() =~= self@.take(i as int));
                assert(self@.take(i + 1).last() == self.list@[i as int]@);
                assert(self@.take(i + 1)[0] == self@[0]);
            }
            let ghost before = text@;
            if i > 0 {
                text.push(COMMA);
            }
            text.extend_from_slice(self.list[i].name.as_str().as_bytes());
            proof {
                if i == 0 {
                    assert(text@ =~= self@[0].0);
                } else {
                    assert(text@ =~= before + seq![COMMA] + self@[i as int].0);
                }
            }
            i += 1;
        }
        proof {
            assert(self@.take(self.list.len() as int) =~= self@);
        }
        text
    }

    /// The members of the object that stands for the events.
    fn members(&self) -> (members: Vec<JsonMember>)
        ensures
            member_views(members@) == members_of(self@),
    {
        let mut members: Vec<JsonMember> = Vec::new();
        let mut i: usize = 0;
        proof {
            assert(self@.take(0) =~= Seq::<(Seq<u8>, Option<Seq<u8>>)>::empty());
            assert(member_views(members@) =~= Seq::<(Seq<u8>, Seq<u8>)>::empty());
        }
        while i < self.list.len()
            invariant
                i <= self.list.len(),
                member_views(members@) == members_of(self@.take(i as int)),
            decreases self.list.len() - i,
        {
            proof {
                assert(self@.take(i + 1).drop_last() =~= self@.take(i as int));
                assert(self@.take(i + 1).last() == self.list@[i as int]@);
            }
            let event = &self.list[i];
            let value = match &event.data {
                Some(data) => data.clone(),
                None => Json::null(),
            };
            put_member(&mut members, JsonMember { key: event.name.clone(), value });
            i += 1;
        }
        proof {
            assert(self@.take(self.list.len() as int) =~= self@);
        }
        members
    }

    /// The header value of the events, if there is one.
    pub fn to_header_value(&self) -> (value: Option<HeaderValue>)
        ensures
            value is Some <==> encoded(self@) is Some,
            value matches Some(v) ==> Some(v@) == encoded(self@),
    {
        let text = if self.list.len() == 0 {
            Vec::new()
        } else if self.has_data() {
            let members = self.members();
            frame_object(members.as_slice())
        } else {
            self.join_names()
        };
        HeaderValue::from_bytes(text.as_slice())
    }
}

} // verus!
