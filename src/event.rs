//! Event routing: a registry from event-type identifiers to handlers, fixed
//! once built, and the classification of inbound event frames.
use vstd::prelude::*;
use crate::json::{field_of, find_field, json_parse, parse_json, str_eq, Json};

verus! {

/// Registers event types; each registration gets the next handler index.
#[derive(Debug)]
pub struct EventDispatcherHandlerBuilder {
    pub event_types: Vec<String>,
}

/// The registry, read-only once built. Handler `i` serves `event_types[i]`.
#[derive(Debug)]
pub struct EventDispatcherHandler {
    event_types: Vec<String>,
}

/// The handler index registered for `t`.
pub open spec fn handler_index(types: Seq<String>, t: Seq<char>) -> Option<int>
    decreases types.len(),
{
    if types.len() == 0 {
        None
    } else if types[0]@ == t {
        Some(0)
    } else {
        match handler_index(types.drop_first(), t) {
            Some(i) => Some(i + 1),
            None => None,
        }
    }
}

/// Finds the handler index registered for `t`.
fn lookup(types: &Vec<String>, t: &str) -> (r: Option<usize>)
    ensures
        r matches Some(i) ==> handler_index(types@, t@) == Some(i as int),
        r is None ==> handler_index(types@, t@) is None,
{
    assert(types@.subrange(0, types@.len() as int) =~= types@);
    let mut i: usize = 0;
    while i < types.len()
        invariant
            i <= types@.len(),
            handler_index(types@, t@) == (match handler_index(types@.subrange(i as int, types@.len() as int), t@) {
                Some(j) => Some(j + i),
                None => None,
            }),
        decreases types.len() - i,
    {
        assert(types@.subrange(i as int, types@.len() as int).drop_first() =~= types@.subrange(
            i + 1,
            types@.len() as int,
        ));
        if str_eq(types[i].as_str(), t) {
            return Some(i);
        }
        i = i + 1;
    }
    None
}

impl EventDispatcherHandler {
    pub fn builder() -> (r: EventDispatcherHandlerBuilder)
        ensures
            r.event_types@.len() == 0,
    {
        EventDispatcherHandlerBuilder { event_types: Vec::new() }
    }

    pub closed spec fn types(self) -> Seq<String> {
        self.event_types@
    }

    /// The handler index registered for `event_type`.
    pub fn handler_for(&self, event_type: &str) -> (r: Option<usize>)
        ensures
            r matches Some(i) ==> handler_index(self.types(), event_type@) == Some(i as int),
            r is None ==> handler_index(self.types(), event_type@) is None,
    {
        lookup(&self.event_types, event_type)
    }

    /// Routes one inbound frame: to the handler registered for its event type,
    /// with the whole decoded frame as payload; a frame of an unregistered type
    /// is discarded; one that is no event frame is reported as malformed.
    pub fn dispatch(&self, frame: &[u8]) -> (r: Dispatch)
        ensures
            match event_type_of(json_parse(frame@)) {
                None => r is Malformed,
                Some(t) => match handler_index(self.types(), t@) {
                    Some(i) => r matches Dispatch::Handler(j, p) && j == i && Some(p) == json_parse(frame@),
                    None => r matches Dispatch::Unregistered(u) && u@ == t@,
                },
            },
    {
        let doc = parse_json(frame);
        let t = match read_event_type(&doc) {
            Some(t) => t,
            None => return Dispatch::Malformed,
        };
        match lookup(&self.event_types, t.as_str()) {
            Some(i) => match doc {
                Some(d) => Dispatch::Handler(i, d),
                None => Dispatch::Malformed,
            },
            None => Dispatch::Unregistered(t),
        }
    }
}

impl EventDispatcherHandlerBuilder {
    /// Registers `event_type` and returns its handler index; an event type
    /// that is already registered keeps its handler and gives `None`.
    pub fn register(&mut self, event_type: String) -> (r: Option<usize>)
        ensures
            handler_index(old(self).event_types@, event_type@) is Some ==> r is None && final(self).event_types
                == old(self).event_types,
            handler_index(old(self).event_types@, event_type@) is None ==> r == Some(
                old(self).event_types@.len() as usize,
            ) && final(self).event_types@ == old(self).event_types@.push(event_type),
    {
        match lookup(&self.event_types, event_type.as_str()) {
            Some(_) => None,
            None => {
                let n = self.event_types.len();
                self.event_types.push(event_type);
                Some(n)
            },
        }
    }

    /// Fixes the registry.
    pub fn build(self) -> (r: EventDispatcherHandler)
        ensures
            r.types() == self.event_types@,
    {
        EventDispatcherHandler { event_types: self.event_types }
    }
}

/// Where an inbound frame goes.
#[derive(Debug)]
pub enum Dispatch {
    /// To the handler with this index, with the decoded frame.
    Handler(usize, Json),
    /// No handler is registered for this event type: the frame is dropped.
    Unregistered(String),
    /// The frame carries no event type.
    Malformed,
}

/// The event type of a frame: `header.event_type`.
pub open spec fn event_type_of(doc: Option<Json>) -> Option<String> {
    match doc {
        Some(Json::Object(f)) => match field_of(f@, "header"@) {
            Some(Json::Object(h)) => match field_of(h@, "event_type"@) {
                Some(Json::Str(t)) => Some(t),
                _ => None,
            },
            _ => None,
        },
        _ => None,
    }
}

fn read_event_type(doc: &Option<Json>) -> (r: Option<String>)
    ensures
        r == event_type_of(*doc),
{
    match doc {
        Some(Json::Object(f)) => match find_field(f, "header") {
            Some(i) => match &f[i].1 {
                Json::Object(h) => match find_field(h, "event_type") {
                    Some(j) => match &h[j].1 {
                        Json::Str(t) => Some(t.clone()),
                        _ => None,
                    },
                    None => None,
                },
                _ => None,
            },
            None => None,
        },
        _ => None,
    }
}

} // verus!
