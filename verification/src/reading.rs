//! Decoding of an inbound message into a reading, and the record that is
//! persisted for it.

use vstd::prelude::*;
use crate::json::{
    Json,
    JsonView,
    clone_members,
    int_field,
    int_member,
    lemma_members_join,
    members_view,
    parsed,
};

verus! {

/// One of the four top-level members that a message must carry.
#[derive(Clone, Copy, Debug, PartialEq, Eq)]
pub enum Field {
    Buffered,
    Device,
    Time,
    Values,
}

/// Why a payload is not a reading.
#[derive(Clone, Copy, Debug, PartialEq, Eq)]
pub enum DecodeError {
    /// The payload is not a JSON text.
    Syntax,
    /// The payload is JSON, but not an object.
    NotAnObject,
    /// The object lacks this member.
    Missing(Field),
    /// The member is there, but is not of the kind the reading needs: a
    /// string for the envelope members, an object for `values`.
    Invalid(Field),
}

/// A reading as the device reports it: three envelope strings, passed through
/// as they come, and an open set of named values.
#[derive(Debug, PartialEq, Eq)]
pub struct GrowattMessage {
    pub buffered: String,
    pub device: String,
    pub time: String,
    pub values: Vec<(String, Json)>,
}

/// A reading as mathematics. `values` maps each name to its value; of
/// several members with one name the last counts.
pub struct ReadingView {
    pub buffered: Seq<char>,
    pub device: Seq<char>,
    pub time: Seq<char>,
    pub values: Map<Seq<char>, JsonView>,
}

impl View for GrowattMessage {
    type V = ReadingView;

    open spec fn view(&self) -> ReadingView {
        ReadingView {
            buffered: self.buffered@,
            device: self.device@,
            time: self.time@,
            values: members_view(self.values@),
        }
    }
}

impl Clone for GrowattMessage {
    /// A copy that denotes the same reading.
    fn clone(&self) -> (r: GrowattMessage)
        ensures
            r@ == self@,
    {
        GrowattMessage {
            buffered: self.buffered.clone(),
            device: self.device.clone(),
            time: self.time.clone(),
            values: clone_members(&self.values),
        }
    }
}

/// The name under which a field travels.
pub open spec fn field_name(f: Field) -> Seq<char> {
    match f {
        Field::Buffered => "buffered"@,
        Field::Device => "device"@,
        Field::Time => "time"@,
        Field::Values => "values"@,
    }
}

/// The four field names differ from one another.
pub proof fn lemma_field_names_differ()
    ensures
        forall|f: Field, g: Field| f != g ==> field_name(f) != field_name(g),
{
    reveal_strlit("buffered");
    reveal_strlit("device");
    reveal_strlit("time");
    reveal_strlit("values");
    assert("buffered"@.len() == 8);
    assert("time"@.len() == 4);
    assert("device"@.len() == 6 && "device"@[0] == 'd');
    assert("values"@.len() == 6 && "values"@[0] == 'v');
}

/// What is wrong with field `f` of the object `m`, if anything.
pub open spec fn field_fault(m: Map<Seq<char>, JsonView>, f: Field) -> Option<DecodeError> {
    if !m.contains_key(field_name(f)) {
        Some(DecodeError::Missing(f))
    } else if f == Field::Values && !(m[field_name(f)] is Object) {
        Some(DecodeError::Invalid(f))
    } else if f != Field::Values && !(m[field_name(f)] is String) {
        Some(DecodeError::Invalid(f))
    } else {
        None
    }
}

/// The reading that a JSON value is, or the first fault in the order
/// `buffered`, `device`, `time`, `values`. Members other than these four are
/// ignored; every member of `values` is kept.
pub open spec fn decode_spec(doc: JsonView) -> Result<ReadingView, DecodeError> {
    match doc {
        JsonView::Object(m) => {
            if let Some(e) = field_fault(m, Field::Buffered) {
                Err(e)
            } else if let Some(e) = field_fault(m, Field::Device) {
                Err(e)
            } else if let Some(e) = field_fault(m, Field::Time) {
                Err(e)
            } else if let Some(e) = field_fault(m, Field::Values) {
                Err(e)
            } else {
                Ok(
                    ReadingView {
                        buffered: m["buffered"@]->String_0,
                        device: m["device"@]->String_0,
                        time: m["time"@]->String_0,
                        values: m["values"@]->Object_0,
                    },
                )
            }
        },
        _ => Err(DecodeError::NotAnObject),
    }
}

/// The reading that a payload is: the payload must be JSON, and the JSON a
/// reading.
pub open spec fn decode_text_spec(text: Option<JsonView>) -> Result<ReadingView, DecodeError> {
    match text {
        Some(doc) => decode_spec(doc),
        None => Err(DecodeError::Syntax),
    }
}

/// A decoder's result, with the reading taken by its view.
pub open spec fn decoded_view(r: Result<GrowattMessage, DecodeError>) -> Result<
    ReadingView,
    DecodeError,
> {
    match r {
        Ok(m) => Ok(m@),
        Err(e) => Err(e),
    }
}

/// How a slot that collects the member `name` stands while the members are
/// taken off the back of the list: with `rest` still to come and `full` the
/// whole object, the slot holds the member if it was met, and `rest` decides
/// otherwise.
spec fn slot_ok(
    full: Map<Seq<char>, JsonView>,
    rest: Map<Seq<char>, JsonView>,
    name: Seq<char>,
    slot: Option<Json>,
) -> bool {
    &&& full.contains_key(name) <==> (slot is Some || rest.contains_key(name))
    &&& slot matches Some(v) ==> full[name] == v@
    &&& (slot is None && rest.contains_key(name)) ==> full[name] == rest[name]
}

/// Decodes a JSON value into a reading.
pub fn decode_document(doc: Json) -> (r: Result<GrowattMessage, DecodeError>)
    ensures
        decoded_view(r) == decode_spec(doc@),
{
    let mut members = match doc {
        Json::Object(members) => members,
        _ => {
            return Err(DecodeError::NotAnObject);
        },
    };
    let ghost all = members@;
    let ghost full = members_view(all);
    let name_buffered = "buffered".to_owned();
    let name_device = "device".to_owned();
    let name_time = "time".to_owned();
    let name_values = "values".to_owned();
    proof {
        lemma_field_names_differ();
        assert(field_name(Field::Buffered) == "buffered"@);
        assert(field_name(Field::Device) == "device"@);
        assert(field_name(Field::Time) == "time"@);
        assert(field_name(Field::Values) == "values"@);
    }
    let mut buffered: Option<Json> = None;
    let mut device: Option<Json> = None;
    let mut time: Option<Json> = None;
    let mut values: Option<Json> = None;
    while members.len() > 0
        invariant
            full == members_view(all),
            name_buffered@ == "buffered"@,
            name_device@ == "device"@,
            name_time@ == "time"@,
            name_values@ == "values"@,
            "buffered"@ != "device"@,
            "buffered"@ != "time"@,
            "buffered"@ != "values"@,
            "device"@ != "time"@,
            "device"@ != "values"@,
            "time"@ != "values"@,
            slot_ok(full, members_view(members@), "buffered"@, buffered),
            slot_ok(full, members_view(members@), "device"@, device),
            slot_ok(full, members_view(members@), "time"@, time),
            slot_ok(full, members_view(members@), "values"@, values),
        decreases members.len(),
    {
        let ghost before = members@;
        let (name, value) = members.pop().unwrap();
        assert(members_view(before) == members_view(members@).insert(name@, value@));
        if name == name_buffered {
            if buffered.is_none() {
                buffered = Some(value);
            }
        } else if name == name_device {
            if device.is_none() {
                device = Some(value);
            }
        } else if name == name_time {
            if time.is_none() {
                time = Some(value);
            }
        } else if name == name_values {
            if values.is_none() {
                values = Some(value);
            }
        }
    }
    assert(members_view(members@) == Map::<Seq<char>, JsonView>::empty());
    let buffered = match buffered {
        None => {
            return Err(DecodeError::Missing(Field::Buffered));
        },
        Some(Json::String(s)) => s,
        Some(_) => {
            return Err(DecodeError::Invalid(Field::Buffered));
        },
    };
    let device = match device {
        None => {
            return Err(DecodeError::Missing(Field::Device));
        },
        Some(Json::String(s)) => s,
        Some(_) => {
            return Err(DecodeError::Invalid(Field::Device));
        },
    };
    let time = match time {
        None => {
            return Err(DecodeError::Missing(Field::Time));
        },
        Some(Json::String(s)) => s,
        Some(_) => {
            return Err(DecodeError::Invalid(Field::Time));
        },
    };
    let values = match values {
        None => {
            return Err(DecodeError::Missing(Field::Values));
        },
        Some(Json::Object(m)) => m,
        Some(_) => {
            return Err(DecodeError::Invalid(Field::Values));
        },
    };
    Ok(GrowattMessage { buffered, device, time, values })
}

/// Decodes a payload into a reading. The payload is read as JSON; what the
/// reading is, or which fault is reported, then follows from the value read.
pub fn decode(payload: &[u8]) -> (r: Result<GrowattMessage, DecodeError>)
    ensures
        decoded_view(r) == decode_text_spec(parsed(payload@)),
{
    match Json::parse(payload) {
        Some(doc) => decode_document(doc),
        None => Err(DecodeError::Syntax),
    }
}

/// The record that is persisted for a reading: the reading itself, written
/// once under a fresh key.
#[derive(Debug, PartialEq, Eq)]
pub struct DataRecord {
    pub buffered: String,
    pub device: String,
    pub time: String,
    pub values: Vec<(String, Json)>,
}

impl View for DataRecord {
    type V = ReadingView;

    open spec fn view(&self) -> ReadingView {
        ReadingView {
            buffered: self.buffered@,
            device: self.device@,
            time: self.time@,
            values: members_view(self.values@),
        }
    }
}

impl Clone for DataRecord {
    /// A copy that denotes the same reading.
    fn clone(&self) -> (r: DataRecord)
        ensures
            r@ == self@,
    {
        DataRecord {
            buffered: self.buffered.clone(),
            device: self.device.clone(),
            time: self.time.clone(),
            values: clone_members(&self.values),
        }
    }
}

impl From<GrowattMessage> for DataRecord {
    /// The record of a reading: the same four fields.
    fn from(value: GrowattMessage) -> (r: DataRecord) {
        DataRecord {
            buffered: value.buffered,
            device: value.device,
            time: value.time,
            values: value.values,
        }
    }
}

impl vstd::std_specs::convert::FromSpecImpl<GrowattMessage> for DataRecord {
    open spec fn obeys_from_spec() -> bool {
        true
    }

    open spec fn from_spec(value: GrowattMessage) -> DataRecord {
        DataRecord {
            buffered: value.buffered,
            device: value.device,
            time: value.time,
            values: value.values,
        }
    }
}

/// What the trigger needs of a reading.
#[derive(Clone, Copy, Debug, PartialEq, Eq)]
pub struct Tracking {
    /// The state of charge, where the reading carries one as an integer.
    pub soc: Option<i64>,
}

/// The state of charge among the values: the member `SOC`, where it is an
/// integer that fits `i64`.
pub open spec fn soc_spec(values: Map<Seq<char>, JsonView>) -> Option<i64> {
    int_member(values, "SOC"@)
}

/// The document that is written for a reading: one object that holds the
/// three envelope members and, beside them and not nested, every value. A
/// value named like an envelope member takes its place.
pub open spec fn document_spec(r: ReadingView) -> JsonView {
    JsonView::Object(
        map![
            "buffered"@ => JsonView::String(r.buffered),
            "device"@ => JsonView::String(r.device),
            "time"@ => JsonView::String(r.time),
        ].union_prefer_right(r.values),
    )
}

impl DataRecord {
    /// Extracts what the trigger needs. A reading without `SOC`, or with one
    /// that is not an integer, tracks nothing.
    pub fn track(&self) -> (t: Tracking)
        ensures
            t.soc == soc_spec(self@.values),
    {
        Tracking { soc: int_field(&self.values, "SOC") }
    }

    /// The document to persist.
    pub fn into_document(self) -> (doc: Json)
        ensures
            doc@ == document_spec(self@),
    {
        let mut members: Vec<(String, Json)> = Vec::new();
        members.push(("buffered".to_owned(), Json::String(self.buffered)));
        members.push(("device".to_owned(), Json::String(self.device)));
        members.push(("time".to_owned(), Json::String(self.time)));
        let ghost envelope = members@;
        let mut values = self.values;
        proof {
            let e0 = envelope.subrange(0, 0);
            let e1 = envelope.subrange(0, 1);
            let e2 = envelope.subrange(0, 2);
            assert(envelope.subrange(0, 3) == envelope);
            assert(e2.subrange(0, 1) == e1);
            assert(e1.subrange(0, 0) == e0);
            assert(members_view(e0) == Map::<Seq<char>, JsonView>::empty());
            assert(members_view(e1) == members_view(e0).insert(envelope[0].0@, envelope[0].1@));
            assert(members_view(e2) == members_view(e1).insert(envelope[1].0@, envelope[1].1@));
            assert(members_view(envelope) == members_view(e2).insert(
                envelope[2].0@,
                envelope[2].1@,
            ));
            assert(members_view(envelope) == map![
                "buffered"@ => JsonView::String(self.buffered@),
                "device"@ => JsonView::String(self.device@),
                "time"@ => JsonView::String(self.time@),
            ]);
            lemma_members_join(envelope, values@);
        }
        members.append(&mut values);
        Json::Object(members)
    }
}

/// A payload that is not JSON, is not an object, or has a fault in any of the
/// four fields is refused: no reading comes of it.
pub proof fn law_faulty_payload_is_refused(text: Option<JsonView>, f: Field)
    requires
        text is None || !(text->0 is Object) || field_fault(text->0->Object_0, f) is Some,
    ensures
        decode_text_spec(text) is Err,
{
}

/// A payload that is a JSON object without a fault in any of the four fields
/// is decoded, whatever else it holds.
pub proof fn law_sound_payload_is_decoded(text: Option<JsonView>)
    requires
        text is Some,
        text->0 is Object,
        forall|f: Field| field_fault(text->0->Object_0, f) is None,
    ensures
        decode_text_spec(text) is Ok,
{
    let m = text->0->Object_0;
    assert(field_fault(m, Field::Buffered) is None);
    assert(field_fault(m, Field::Device) is None);
    assert(field_fault(m, Field::Time) is None);
    assert(field_fault(m, Field::Values) is None);
}

/// A top-level member other than the four fields does not change what is
/// decoded.
pub proof fn law_other_members_are_ignored(
    m: Map<Seq<char>, JsonView>,
    name: Seq<char>,
    value: JsonView,
)
    requires
        forall|f: Field| name != field_name(f),
    ensures
        decode_spec(JsonView::Object(m.insert(name, value))) == decode_spec(JsonView::Object(m)),
{
    assert(name != field_name(Field::Buffered));
    assert(name != field_name(Field::Device));
    assert(name != field_name(Field::Time));
    assert(name != field_name(Field::Values));
}

/// Every member of `values`, known or not, is in the reading as it came, and
/// is in the document that is persisted for the reading, under its own name
/// and unchanged.
pub proof fn law_values_are_kept(doc: JsonView, name: Seq<char>)
    requires
        decode_spec(doc) is Ok,
        doc->Object_0["values"@]->Object_0.contains_key(name),
    ensures
        decode_spec(doc)->Ok_0.values == doc->Object_0["values"@]->Object_0,
        document_spec(decode_spec(doc)->Ok_0)->Object_0.contains_key(name),
        document_spec(decode_spec(doc)->Ok_0)->Object_0[name]
            == doc->Object_0["values"@]->Object_0[name],
{
}

/// The envelope members are in the document as strings, unless a value of the
/// same name has taken their place.
pub proof fn law_envelope_is_kept(r: ReadingView, f: Field)
    requires
        f != Field::Values,
        !r.values.contains_key(field_name(f)),
    ensures
        document_spec(r)->Object_0.contains_key(field_name(f)),
        document_spec(r)->Object_0[field_name(f)] == JsonView::String(
            match f {
                Field::Buffered => r.buffered,
                Field::Device => r.device,
                _ => r.time,
            },
        ),
{
    lemma_field_names_differ();
    assert(field_name(Field::Buffered) == "buffered"@);
    assert(field_name(Field::Device) == "device"@);
    assert(field_name(Field::Time) == "time"@);
}

/// Decoding is a function of the payload: two results for one payload are the
/// same reading, or the same fault.
pub proof fn law_decoding_is_repeatable(
    payload: Seq<u8>,
    first: Result<GrowattMessage, DecodeError>,
    second: Result<GrowattMessage, DecodeError>,
)
    requires
        decoded_view(first) == decode_text_spec(parsed(payload)),
        decoded_view(second) == decode_text_spec(parsed(payload)),
    ensures
        decoded_view(first) == decoded_view(second),
{
}

} // verus!
