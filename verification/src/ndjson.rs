//! The emitter-side structured event and its NDJSON wire form: a fixed
//! selection of keys over the event's fields, encoded as one JSON
//! object and ended with one newline.
//!
//! The selection — which keys are always present, which optional field
//! maps to which key, the custom fields last — is verified; the JSON
//! encoding of the selected entries is a trusted call.

use vstd::prelude::*;

verus! {

#[verifier::external_type_specification]
#[verifier::external_body]
pub struct ExValue(serde_json::Value);

/// A value one serialized entry carries: an unsigned number, text, or an
/// arbitrary JSON value passed through unchanged for the custom fields.
pub enum JsonVal {
    Unsigned(u64),
    Text(String),
    Raw(serde_json::Value),
}

/// The mathematical shape of an entry value: text as its characters.
pub enum JsonField {
    Unsigned(u64),
    Text(Seq<char>),
    Raw(serde_json::Value),
}

/// What an entry value stands for.
pub open spec fn json_val_view(v: JsonVal) -> JsonField {
    match v {
        JsonVal::Unsigned(n) => JsonField::Unsigned(n),
        JsonVal::Text(s) => JsonField::Text(s@),
        JsonVal::Raw(x) => JsonField::Raw(x),
    }
}

/// What a run of key/value entries stands for.
pub open spec fn entries_view(entries: Seq<(String, JsonVal)>) -> Seq<(Seq<char>, JsonField)> {
    entries.map(|i: int, p: (String, JsonVal)| (p.0@, json_val_view(p.1)))
}

/// One structured event on the emitter side.
pub struct Event {
    pub timestamp: u64,
    pub message: String,
    pub index: Option<String>,
    pub source: Option<String>,
    pub sourcetype: Option<String>,
    pub hostname: Option<String>,
    pub facility: Option<u8>,
    pub severity: Option<u8>,
    pub application_name: Option<String>,
    pub process_id: Option<u32>,
    pub message_id: Option<String>,
    /// Custom fields, each an arbitrary JSON value.
    pub fields: Vec<(String, serde_json::Value)>,
}

impl Event {
    /// An event with only the mandatory timestamp and message set.
    pub fn new(timestamp: u64, message: String) -> (r: Event)
        ensures
            r.timestamp == timestamp,
            r.message == message,
            r.index is None,
            r.source is None,
            r.sourcetype is None,
            r.hostname is None,
            r.facility is None,
            r.severity is None,
            r.application_name is None,
            r.process_id is None,
            r.message_id is None,
            r.fields@.len() == 0,
    {
        Event {
            timestamp,
            message,
            index: None,
            source: None,
            sourcetype: None,
            hostname: None,
            facility: None,
            severity: None,
            application_name: None,
            process_id: None,
            message_id: None,
            fields: Vec::new(),
        }
    }
}

/// The entry an optional text field contributes, under its key.
pub open spec fn opt_text_entry(key: Seq<char>, v: Option<String>) -> Seq<(Seq<char>, JsonField)> {
    match v {
        Some(s) => seq![(key, JsonField::Text(s@))],
        None => Seq::<(Seq<char>, JsonField)>::empty(),
    }
}

/// The entry an optional small number contributes, under its key.
pub open spec fn opt_u8_entry(key: Seq<char>, v: Option<u8>) -> Seq<(Seq<char>, JsonField)> {
    match v {
        Some(n) => seq![(key, JsonField::Unsigned(n as u64))],
        None => Seq::<(Seq<char>, JsonField)>::empty(),
    }
}

/// The entry an optional process id contributes, under its key.
pub open spec fn opt_u32_entry(key: Seq<char>, v: Option<u32>) -> Seq<(Seq<char>, JsonField)> {
    match v {
        Some(n) => seq![(key, JsonField::Unsigned(n as u64))],
        None => Seq::<(Seq<char>, JsonField)>::empty(),
    }
}

/// The entries of the custom fields, in their given order.
pub open spec fn custom_entries(fields: Seq<(String, serde_json::Value)>) -> Seq<
    (Seq<char>, JsonField),
> {
    fields.map(|i: int, p: (String, serde_json::Value)| (p.0@, JsonField::Raw(p.1)))
}

/// Every entry one event serializes to, in order: the mandatory `_time`
/// and `message`, then each set optional field under its key — the
/// facility under `pri` — then the custom fields.
pub open spec fn event_entries_spec(e: Event) -> Seq<(Seq<char>, JsonField)> {
    seq![("_time"@, JsonField::Unsigned(e.timestamp))] + seq![
        ("message"@, JsonField::Text(e.message@)),
    ] + opt_text_entry("index"@, e.index) + opt_text_entry("source"@, e.source) + opt_text_entry(
        "sourcetype"@,
        e.sourcetype,
    ) + opt_text_entry("hostname"@, e.hostname) + opt_u8_entry("pri"@, e.facility) + opt_u8_entry(
        "severity"@,
        e.severity,
    ) + opt_text_entry("application_name"@, e.application_name) + opt_u32_entry(
        "process_id"@,
        e.process_id,
    ) + opt_text_entry("message_id"@, e.message_id) + custom_entries(e.fields@)
}

/// Relies on serde_json::Value::clone: the copy carries the same JSON
/// value.
#[verifier::external_body]
fn clone_value(v: &serde_json::Value) -> (r: serde_json::Value)
    ensures
        r == *v,
{
    v.clone()
}

/// Appends one entry, keeping track of what the run stands for.
fn push_entry(out: &mut Vec<(String, JsonVal)>, key: String, val: JsonVal)
    ensures
        entries_view(final(out)@) == entries_view(old(out)@) + seq![(key@, json_val_view(val))],
{
    let ghost k = key@;
    let ghost v = json_val_view(val);
    out.push((key, val));
    proof {
        assert(entries_view(out@) =~= entries_view(old(out)@) + seq![(k, v)]);
    }
}

/// Selects the serialized entries of one event, exactly as
/// [`event_entries_spec`] lists them.
#[verifier::rlimit(50)]
pub fn event_entries(event: &Event) -> (r: Vec<(String, JsonVal)>)
    ensures
        entries_view(r@) == event_entries_spec(*event),
{
    let mut out: Vec<(String, JsonVal)> = Vec::new();
    let ghost mut acc: Seq<(Seq<char>, JsonField)> = Seq::empty();
    proof {
        assert(entries_view(out@) =~= acc);
    }
    push_entry(&mut out, "_time".to_owned(), JsonVal::Unsigned(event.timestamp));
    proof {
        let seg = seq![("_time"@, JsonField::Unsigned(event.timestamp))];
        assert(acc + seg =~= seg);
        acc = seg;
    }
    push_entry(&mut out, "message".to_owned(), JsonVal::Text(event.message.clone()));
    proof {
        acc = acc + seq![("message"@, JsonField::Text(event.message@))];
    }
    if let Some(v) = &event.index {
        push_entry(&mut out, "index".to_owned(), JsonVal::Text(v.clone()));
    }
    proof {
        let seg = opt_text_entry("index"@, event.index);
        if event.index is None {
            assert(acc + seg =~= acc);
        }
        acc = acc + seg;
    }
    if let Some(v) = &event.source {
        push_entry(&mut out, "source".to_owned(), JsonVal::Text(v.clone()));
    }
    proof {
        let seg = opt_text_entry("source"@, event.source);
        if event.source is None {
            assert(acc + seg =~= acc);
        }
        acc = acc + seg;
    }
    if let Some(v) = &event.sourcetype {
        push_entry(&mut out, "sourcetype".to_owned(), JsonVal::Text(v.clone()));
    }
    proof {
        let seg = opt_text_entry("sourcetype"@, event.sourcetype);
        if event.sourcetype is None {
            assert(acc + seg =~= acc);
        }
        acc = acc + seg;
    }
    if let Some(v) = &event.hostname {
        push_entry(&mut out, "hostname".to_owned(), JsonVal::Text(v.clone()));
    }
    proof {
        let seg = opt_text_entry("hostname"@, event.hostname);
        if event.hostname is None {
            assert(acc + seg =~= acc);
        }
        acc = acc + seg;
    }
    if let Some(v) = &event.facility {
        push_entry(&mut out, "pri".to_owned(), JsonVal::Unsigned(*v as u64));
    }
    proof {
        let seg = opt_u8_entry("pri"@, event.facility);
        if event.facility is None {
            assert(acc + seg =~= acc);
        }
        acc = acc + seg;
    }
    if let Some(v) = &event.severity {
        push_entry(&mut out, "severity".to_owned(), JsonVal::Unsigned(*v as u64));
    }
    proof {
        let seg = opt_u8_entry("severity"@, event.severity);
        if event.severity is None {
            assert(acc + seg =~= acc);
        }
        acc = acc + seg;
    }
    if let Some(v) = &event.application_name {
        push_entry(&mut out, "application_name".to_owned(), JsonVal::Text(v.clone()));
    }
    proof {
        let seg = opt_text_entry("application_name"@, event.application_name);
        if event.application_name is None {
            assert(acc + seg =~= acc);
        }
        acc = acc + seg;
    }
    if let Some(v) = &event.process_id {
        push_entry(&mut out, "process_id".to_owned(), JsonVal::Unsigned(*v as u64));
    }
    proof {
        let seg = opt_u32_entry("process_id"@, event.process_id);
        if event.process_id is None {
            assert(acc + seg =~= acc);
        }
        acc = acc + seg;
    }
    if let Some(v) = &event.message_id {
        push_entry(&mut out, "message_id".to_owned(), JsonVal::Text(v.clone()));
    }
    proof {
        let seg = opt_text_entry("message_id"@, event.message_id);
        if event.message_id is None {
            assert(acc + seg =~= acc);
        }
        acc = acc + seg;
    }
    let mut i: usize = 0;
    proof {
        assert(custom_entries(event.fields@.subrange(0, 0)) =~= Seq::<
            (Seq<char>, JsonField),
        >::empty());
        assert(acc + custom_entries(event.fields@.subrange(0, 0)) =~= acc);
    }
    while i < event.fields.len()
        invariant
            i <= event.fields@.len(),
            entries_view(out@) == acc + custom_entries(event.fields@.subrange(0, i as int)),
        decreases event.fields@.len() - i,
    {
        let pair = &event.fields[i];
        push_entry(&mut out, pair.0.clone(), JsonVal::Raw(clone_value(&pair.1)));
        proof {
            assert(custom_entries(event.fields@.subrange(0, i as int + 1)) =~= custom_entries(
                event.fields@.subrange(0, i as int),
            ) + seq![
                (event.fields@[i as int].0@, JsonField::Raw(event.fields@[i as int].1)),
            ]);
            assert((acc + custom_entries(event.fields@.subrange(0, i as int))) + seq![
                (event.fields@[i as int].0@, JsonField::Raw(event.fields@[i as int].1)),
            ] =~= acc + custom_entries(event.fields@.subrange(0, i as int + 1)));
        }
        i = i + 1;
    }
    proof {
        assert(event.fields@.subrange(0, event.fields@.len() as int) =~= event.fields@);
    }
    out
}

/// Relies on serde_json::Map::insert and serde_json::Value::to_string:
/// the entries become one JSON object whose text lists the keys in
/// sorted order, a later entry under a repeated key replacing the
/// earlier; the text of an object starts with `{` and ends with `}`.
#[verifier::external_body]
fn encode_object(entries: &Vec<(String, JsonVal)>) -> (r: Vec<u8>)
    ensures
        r@.len() >= 2,
        r@[0] == 123u8,
        r@[r@.len() - 1] == 125u8,
{
    let mut map = serde_json::Map::new();
    for (key, val) in entries {
        let value = match val {
            JsonVal::Unsigned(n) => serde_json::Value::from(*n),
            JsonVal::Text(s) => serde_json::Value::from(s.clone()),
            JsonVal::Raw(v) => v.clone(),
        };
        map.insert(key.clone(), value);
    }
    serde_json::Value::Object(map).to_string().into_bytes()
}

/// Serializes events as newline-delimited JSON.
pub struct NdJsonSerializer;

/// Renders one event as a run of bytes ending in the newline that frames
/// it.
pub trait Serializer {
    fn serialize(&self, event: &Event) -> (r: Vec<u8>)
        ensures
            r@.len() >= 1,
            r@[r@.len() - 1] == 10u8,
    ;
}

impl Serializer for NdJsonSerializer {
    /// One JSON object holding exactly the entries of
    /// [`event_entries_spec`], then one newline.  The selection and the
    /// newline are proved; the object encoding is the trusted call.
    fn serialize(&self, event: &Event) -> (r: Vec<u8>) {
        let entries = event_entries(event);
        let mut bytes = encode_object(&entries);
        bytes.push(10u8);
        bytes
    }
}

} // verus!
