//! Side-effect records of a mutating call.
//!
//! A non-read-only callee may produce structured events and attributes.  After
//! a successful mutating call they are extracted from the instance and each
//! list is serialized independently into the envelope format: a list of
//! alternating UTF-8 items, key then value for attributes, type then encoded
//! attribute list for events.

use vstd::prelude::*;
use vstd::string::StrSliceExecFns;
use vstd::utf8::encode_utf8;
use crate::envelope::binary_list_fits;
use crate::envelope::enc_binary_list;
use crate::envelope::encode_binary_list;

verus! {

/// One key/value attribute of an event.
#[derive(Debug)]
pub struct AttributeRecord {
    pub key: String,
    pub value: String,
}

/// Mathematical model of an attribute.
#[verifier::ext_equal]
pub ghost struct AttributeRecordView {
    pub key: Seq<char>,
    pub value: Seq<char>,
}

impl View for AttributeRecord {
    type V = AttributeRecordView;

    open spec fn view(&self) -> AttributeRecordView {
        AttributeRecordView { key: self.key@, value: self.value@ }
    }
}

impl DeepView for AttributeRecord {
    type V = AttributeRecordView;

    open spec fn deep_view(&self) -> AttributeRecordView {
        self@
    }
}

/// One structured event produced by the callee.
#[derive(Debug)]
pub struct EventRecord {
    pub ty: String,
    pub attributes: Vec<AttributeRecord>,
}

/// Mathematical model of an event.
#[verifier::ext_equal]
pub ghost struct EventRecordView {
    pub ty: Seq<char>,
    pub attributes: Seq<AttributeRecordView>,
}

impl View for EventRecord {
    type V = EventRecordView;

    open spec fn view(&self) -> EventRecordView {
        EventRecordView { ty: self.ty@, attributes: self.attributes.deep_view() }
    }
}

impl DeepView for EventRecord {
    type V = EventRecordView;

    open spec fn deep_view(&self) -> EventRecordView {
        self@
    }
}

/// The flattened envelope items of an attribute list: key and value bytes,
/// alternating.
pub open spec fn attr_items(attrs: Seq<AttributeRecordView>) -> Seq<Seq<u8>> {
    Seq::new(
        2 * attrs.len(),
        |i: int|
            if i % 2 == 0 {
                encode_utf8(attrs[i / 2].key)
            } else {
                encode_utf8(attrs[i / 2].value)
            },
    )
}

/// Encoding of an attribute list.
pub open spec fn enc_attributes(attrs: Seq<AttributeRecordView>) -> Seq<u8> {
    enc_binary_list(attr_items(attrs))
}

/// An attribute list fits the envelope format.
pub open spec fn attrs_fit(attrs: Seq<AttributeRecordView>) -> bool {
    binary_list_fits(attr_items(attrs))
}

/// The flattened envelope items of an event list: type bytes and encoded
/// attribute list, alternating.
pub open spec fn event_items(evs: Seq<EventRecordView>) -> Seq<Seq<u8>> {
    Seq::new(
        2 * evs.len(),
        |i: int|
            if i % 2 == 0 {
                encode_utf8(evs[i / 2].ty)
            } else {
                enc_attributes(evs[i / 2].attributes)
            },
    )
}

/// Encoding of an event list.
pub open spec fn enc_events(evs: Seq<EventRecordView>) -> Seq<u8> {
    enc_binary_list(event_items(evs))
}

/// An event list fits the envelope format.
pub open spec fn events_fit(evs: Seq<EventRecordView>) -> bool {
    &&& forall|i: int| 0 <= i < evs.len() ==> attrs_fit(#[trigger] evs[i].attributes)
    &&& binary_list_fits(event_items(evs))
}

/// Serializes an attribute list; `None` when it does not fit the format.
pub fn encode_attributes(attrs: &Vec<AttributeRecord>) -> (r: Option<Vec<u8>>)
    ensures
        match r {
            Some(out) => attrs_fit(attrs.deep_view()) && out@ == enc_attributes(attrs.deep_view()),
            None => !attrs_fit(attrs.deep_view()),
        },
{
    let ghost dv = attrs.deep_view();
    let mut items: Vec<Vec<u8>> = Vec::new();
    let mut i: usize = 0;
    while i < attrs.len()
        invariant
            i <= attrs@.len(),
            dv == attrs.deep_view(),
            dv.len() == attrs@.len(),
            items.deep_view() =~= attr_items(dv).subrange(0, 2 * i),
        decreases attrs@.len() - i,
    {
        proof {
            assert(dv[i as int] == attrs@[i as int]@);
        }
        let ghost items0 = items.deep_view();
        items.push(attrs[i].key.as_str().as_bytes_vec());
        items.push(attrs[i].value.as_str().as_bytes_vec());
        proof {
            assert(items.deep_view() =~~= items0.push(encode_utf8(dv[i as int].key)).push(
                encode_utf8(dv[i as int].value),
            ));
            assert(items.deep_view() =~= attr_items(dv).subrange(0, 2 * (i + 1)));
        }
        i = i + 1;
    }
    proof {
        assert(attr_items(dv).subrange(0, attr_items(dv).len() as int) =~= attr_items(dv));
    }
    encode_binary_list(&items)
}

/// Serializes an event list; `None` when it does not fit the format.
pub fn encode_events(evs: &Vec<EventRecord>) -> (r: Option<Vec<u8>>)
    ensures
        match r {
            Some(out) => events_fit(evs.deep_view()) && out@ == enc_events(evs.deep_view()),
            None => !events_fit(evs.deep_view()),
        },
{
    let ghost dv = evs.deep_view();
    let mut items: Vec<Vec<u8>> = Vec::new();
    let mut i: usize = 0;
    while i < evs.len()
        invariant
            i <= evs@.len(),
            dv == evs.deep_view(),
            dv.len() == evs@.len(),
            forall|j: int| 0 <= j < i ==> attrs_fit(#[trigger] dv[j].attributes),
            items.deep_view() =~= event_items(dv).subrange(0, 2 * i),
        decreases evs@.len() - i,
    {
        proof {
            assert(dv[i as int] == evs@[i as int]@);
        }
        let attrs_payload = match encode_attributes(&evs[i].attributes) {
            Some(p) => p,
            None => {
                proof {
                    assert(!attrs_fit(dv[i as int].attributes));
                    assert(!(forall|j: int|
                        0 <= j < dv.len() ==> attrs_fit(#[trigger] dv[j].attributes)));
                }
                return None;
            },
        };
        let ghost items0 = items.deep_view();
        items.push(evs[i].ty.as_str().as_bytes_vec());
        items.push(attrs_payload);
        proof {
            assert(items.deep_view() =~~= items0.push(encode_utf8(dv[i as int].ty)).push(
                enc_attributes(dv[i as int].attributes),
            ));
            assert(items.deep_view() =~= event_items(dv).subrange(0, 2 * (i + 1)));
        }
        i = i + 1;
    }
    proof {
        assert(event_items(dv).subrange(0, event_items(dv).len() as int) =~= event_items(dv));
    }
    encode_binary_list(&items)
}

} // verus!
