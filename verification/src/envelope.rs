//! The canonical, source-agnostic representation of one event. Produced by
//! decoding upstream transport payloads; consumed by the forwarding sender.

use vstd::prelude::*;

verus! {

/// One event, normalized: required `id`, `type` and `source` attributes,
/// optional timestamp, payload and payload content type. Retried deliveries
/// clone the envelope, so every attempt resends an identical payload.
#[derive(Debug, PartialEq, Eq)]
pub struct EventEnvelope {
    pub id: String,
    pub event_type: String,
    pub source: String,
    pub time: Option<String>,
    pub datacontenttype: Option<String>,
    pub data: Option<Vec<u8>>,
}

/// Specification-level envelope: the same attributes, over sequences.
#[verifier::ext_equal]
pub struct SpecEnvelope {
    pub id: Seq<char>,
    pub event_type: Seq<char>,
    pub source: Seq<char>,
    pub time: Option<Seq<char>>,
    pub datacontenttype: Option<Seq<char>>,
    pub data: Option<Seq<u8>>,
}

/// An optional string, viewed.
pub open spec fn opt_str_view(o: Option<String>) -> Option<Seq<char>> {
    match o {
        Some(s) => Some(s@),
        None => None,
    }
}

impl View for EventEnvelope {
    type V = SpecEnvelope;

    open spec fn view(&self) -> SpecEnvelope {
        SpecEnvelope {
            id: self.id@,
            event_type: self.event_type@,
            source: self.source@,
            time: opt_str_view(self.time),
            datacontenttype: opt_str_view(self.datacontenttype),
            data: match self.data {
                Some(v) => Some(v@),
                None => None,
            },
        }
    }
}

impl Clone for EventEnvelope {
    /// An exact copy: a retry resends an identical payload.
    fn clone(&self) -> (r: Self)
        ensures
            r@ == self@,
    {
        EventEnvelope {
            id: self.id.clone(),
            event_type: self.event_type.clone(),
            source: self.source.clone(),
            time: clone_opt_string(&self.time),
            datacontenttype: clone_opt_string(&self.datacontenttype),
            data: match &self.data {
                Some(v) => Some(vstd::slice::slice_to_vec(v.as_slice())),
                None => None,
            },
        }
    }
}

/// An exact copy of an optional string.
fn clone_opt_string(o: &Option<String>) -> (r: Option<String>)
    ensures
        r == *o,
{
    match o {
        Some(s) => Some(s.clone()),
        None => None,
    }
}

impl EventEnvelope {
    /// An envelope with the three required attributes and nothing optional.
    pub fn new(id: String, event_type: String, source: String) -> (e: EventEnvelope)
        ensures
            e.id == id,
            e.event_type == event_type,
            e.source == source,
            e.time is None,
            e.datacontenttype is None,
            e.data is None,
    {
        EventEnvelope { id, event_type, source, time: None, datacontenttype: None, data: None }
    }
}

} // verus!
