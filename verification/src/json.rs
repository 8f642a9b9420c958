//! A model of the JSON documents that requests carry and that rows are
//! rendered into: an object is an association list of keys and values,
//! read and written the way `serde_json::Map` is.

use vstd::prelude::*;
use crate::text::signed_decimal;

verus! {

/// One JSON value as the shop logic reads it.
///
/// `Raw` holds any other JSON value (a fractional or out-of-range number, an
/// array or a nested object) as the JSON text that denotes it.
#[derive(Debug, Clone, PartialEq)]
pub enum JsonValue {
    Null,
    Bool(bool),
    Int(i64),
    Str(String),
    Raw(String),
}

/// The mathematical counterpart of [`JsonValue`].
pub enum JsonVal {
    Null,
    Bool(bool),
    Int(i64),
    Str(Seq<char>),
    Raw(Seq<char>),
}

impl View for JsonValue {
    type V = JsonVal;

    open spec fn view(&self) -> JsonVal {
        match self {
            JsonValue::Null => JsonVal::Null,
            JsonValue::Bool(b) => JsonVal::Bool(*b),
            JsonValue::Int(i) => JsonVal::Int(*i),
            JsonValue::Str(s) => JsonVal::Str(s@),
            JsonValue::Raw(t) => JsonVal::Raw(t@),
        }
    }
}

/// One `key: value` member of a JSON object.
#[derive(Debug, Clone, PartialEq)]
pub struct JsonEntry {
    pub key: String,
    pub value: JsonValue,
}

/// A JSON object: its members in insertion order.
#[derive(Debug, Clone, PartialEq)]
pub struct JsonObject {
    pub entries: Vec<JsonEntry>,
}

pub open spec fn entry_view(e: JsonEntry) -> (Seq<char>, JsonVal) {
    (e.key@, e.value@)
}

impl View for JsonObject {
    type V = Seq<(Seq<char>, JsonVal)>;

    open spec fn view(&self) -> Seq<(Seq<char>, JsonVal)> {
        self.entries@.map_values(|e: JsonEntry| entry_view(e))
    }
}

/// The body of a request: a JSON object, or some other JSON value.
#[derive(Debug, Clone, PartialEq)]
pub enum Payload {
    Object(JsonObject),
    Other(JsonValue),
}

impl View for Payload {
    type V = Option<Seq<(Seq<char>, JsonVal)>>;

    open spec fn view(&self) -> Option<Seq<(Seq<char>, JsonVal)>> {
        match self {
            Payload::Object(o) => Some(o@),
            Payload::Other(_) => None,
        }
    }
}

/// The value of the first member named `key`, as `serde_json::Map::get` finds it.
pub open spec fn lookup(entries: Seq<(Seq<char>, JsonVal)>, key: Seq<char>) -> Option<JsonVal>
    decreases entries.len(),
{
    if entries.len() == 0 {
        None
    } else if entries[0].0 == key {
        Some(entries[0].1)
    } else {
        lookup(entries.drop_first(), key)
    }
}

/// `Value::get`: the member `key` of an object; nothing for any other value.
pub open spec fn json_get(p: Option<Seq<(Seq<char>, JsonVal)>>, key: Seq<char>) -> Option<JsonVal> {
    match p {
        Some(entries) => lookup(entries, key),
        None => None,
    }
}

/// `Value::get(key).and_then(Value::as_str)`.
pub open spec fn get_str(p: Option<Seq<(Seq<char>, JsonVal)>>, key: Seq<char>) -> Option<Seq<char>> {
    match json_get(p, key) {
        Some(JsonVal::Str(s)) => Some(s),
        _ => None,
    }
}

/// `Value::get(key).and_then(Value::as_bool)`.
pub open spec fn get_bool(p: Option<Seq<(Seq<char>, JsonVal)>>, key: Seq<char>) -> Option<bool> {
    match json_get(p, key) {
        Some(JsonVal::Bool(b)) => Some(b),
        _ => None,
    }
}

/// `Value::get(key).and_then(Value::as_i64)`.
pub open spec fn get_int(p: Option<Seq<(Seq<char>, JsonVal)>>, key: Seq<char>) -> Option<i64> {
    match json_get(p, key) {
        Some(JsonVal::Int(i)) => Some(i),
        _ => None,
    }
}

pub open spec fn str_or(p: Option<Seq<(Seq<char>, JsonVal)>>, key: Seq<char>, default: Seq<char>) -> Seq<char> {
    match get_str(p, key) {
        Some(s) => s,
        None => default,
    }
}

pub open spec fn bool_or(p: Option<Seq<(Seq<char>, JsonVal)>>, key: Seq<char>, default: bool) -> bool {
    match get_bool(p, key) {
        Some(b) => b,
        None => default,
    }
}

pub open spec fn int_or(p: Option<Seq<(Seq<char>, JsonVal)>>, key: Seq<char>, default: i64) -> i64 {
    match get_int(p, key) {
        Some(i) => i,
        None => default,
    }
}

/// The hexadecimal digit (lower case) for `d < 16`.
pub open spec fn hex_digit(d: nat) -> char {
    if d < 10 {
        (48 + d) as char
    } else {
        (87 + d) as char
    }
}

/// How serde_json writes one character inside a JSON string.
pub open spec fn json_escape_char(c: char) -> Seq<char> {
    if c == '"' {
        seq!['\\', '"']
    } else if c == '\\' {
        seq!['\\', '\\']
    } else if c == '\u{8}' {
        seq!['\\', 'b']
    } else if c == '\t' {
        seq!['\\', 't']
    } else if c == '\n' {
        seq!['\\', 'n']
    } else if c == '\u{c}' {
        seq!['\\', 'f']
    } else if c == '\r' {
        seq!['\\', 'r']
    } else if (c as u32) < 0x20 {
        seq!['\\', 'u', '0', '0', hex_digit(((c as u32) / 16) as nat), hex_digit(((c as u32) % 16) as nat)]
    } else {
        seq![c]
    }
}

pub open spec fn json_escape(s: Seq<char>) -> Seq<char>
    decreases s.len(),
{
    if s.len() == 0 {
        Seq::empty()
    } else {
        json_escape(s.drop_last()) + json_escape_char(s.last())
    }
}

/// A JSON string literal for `s`: quotes around the escaped characters.
pub open spec fn json_quote(s: Seq<char>) -> Seq<char> {
    seq!['"'] + json_escape(s) + seq!['"']
}

/// The compact JSON text that serde_json writes for a value.
pub open spec fn json_text(v: JsonVal) -> Seq<char> {
    match v {
        JsonVal::Null => "null"@,
        JsonVal::Bool(b) => if b { "true"@ } else { "false"@ },
        JsonVal::Int(i) => signed_decimal(i as int),
        JsonVal::Str(s) => json_quote(s),
        JsonVal::Raw(t) => t,
    }
}

/// `payload.get(key).cloned().unwrap_or(default).to_string()`, with the
/// default given by its JSON text.
pub open spec fn json_text_or(p: Option<Seq<(Seq<char>, JsonVal)>>, key: Seq<char>, default: Seq<char>) -> Seq<char> {
    match json_get(p, key) {
        Some(v) => json_text(v),
        None => default,
    }
}

/// Whether `text` is a complete JSON document, as `serde_json::from_str` accepts it.
pub uninterp spec fn json_document_valid(text: Seq<char>) -> bool;

/// Calls `serde_json::to_string` on a string slice. The contract claims the
/// escaping that serde_json's serializer applies (its `ESCAPE` table and
/// `write_char_escape`): quotes around the text, `"` and `\` escaped with a
/// backslash, the control characters below U+0020 written as `\b`, `\t`,
/// `\n`, `\f`, `\r` or `\u00xx`, every other character unchanged. Writing into
/// a byte vector cannot fail.
#[verifier::external_body]
pub(crate) fn json_quote_str(s: &str) -> (quoted: String)
    ensures
        quoted@ == json_quote(s@),
{
    serde_json::to_string(s).unwrap_or_default()
}

/// Calls `serde_json::from_str::<serde_json::Value>` and reports whether it
/// succeeded. The contract claims only that the answer depends on the text
/// alone (the name `json_document_valid`); the JSON grammar is not restated.
#[verifier::external_body]
pub(crate) fn json_document_is_valid(text: &str) -> (valid: bool)
    ensures
        valid == json_document_valid(text@),
{
    serde_json::from_str::<serde_json::Value>(text).is_ok()
}

proof fn lemma_lookup_skip(entries: Seq<(Seq<char>, JsonVal)>, key: Seq<char>, i: int)
    requires
        0 <= i <= entries.len(),
        forall|j: int| 0 <= j < i ==> entries[j].0 != key,
    ensures
        lookup(entries, key) == lookup(entries.skip(i), key),
    decreases i,
{
    if i > 0 {
        assert(entries[0].0 != key);
        let rest = entries.drop_first();
        assert forall|j: int| 0 <= j < i - 1 implies rest[j].0 != key by {
            assert(rest[j] == entries[j + 1]);
        }
        lemma_lookup_skip(rest, key, i - 1);
        assert(rest.skip(i - 1) =~= entries.skip(i));
    } else {
        assert(entries.skip(0) =~= entries);
    }
}

proof fn lemma_lookup_update(entries: Seq<(Seq<char>, JsonVal)>, i: int, v: JsonVal, key: Seq<char>)
    requires
        0 <= i < entries.len(),
        forall|j: int| 0 <= j < i ==> entries[j].0 != entries[i].0,
    ensures
        lookup(entries.update(i, (entries[i].0, v)), key) == if key == entries[i].0 {
            Some(v)
        } else {
            lookup(entries, key)
        },
    decreases i,
{
    let updated = entries.update(i, (entries[i].0, v));
    if i > 0 {
        let rest = entries.drop_first();
        assert forall|j: int| 0 <= j < i - 1 implies #[trigger] rest[j].0 != rest[i - 1].0 by {
            assert(rest[j] == entries[j + 1]);
        }
        lemma_lookup_update(rest, i - 1, v, key);
        assert(updated.drop_first() =~= rest.update(i - 1, (entries[i].0, v)));
        assert(updated[0] == entries[0]);
    } else {
        assert(updated.drop_first() =~= entries.drop_first());
    }
}

proof fn lemma_lookup_push(entries: Seq<(Seq<char>, JsonVal)>, k: Seq<char>, v: JsonVal, key: Seq<char>)
    requires
        forall|j: int| 0 <= j < entries.len() ==> entries[j].0 != k,
    ensures
        lookup(entries.push((k, v)), key) == if key == k {
            Some(v)
        } else {
            lookup(entries, key)
        },
    decreases entries.len(),
{
    let pushed = entries.push((k, v));
    if entries.len() > 0 {
        let rest = entries.drop_first();
        assert forall|j: int| 0 <= j < rest.len() implies rest[j].0 != k by {
            assert(rest[j] == entries[j + 1]);
        }
        lemma_lookup_push(rest, k, v, key);
        assert(pushed.drop_first() =~= rest.push((k, v)));
        assert(pushed[0] == entries[0]);
    } else {
        assert(pushed.drop_first() =~= entries);
    }
}

impl JsonValue {
    /// A string value.
    pub fn string(s: &str) -> (v: JsonValue)
        ensures
            v@ == JsonVal::Str(s@),
    {
        JsonValue::Str(s.to_owned())
    }

    /// `Value::to_string`: the compact JSON text of the value.
    pub fn to_json_text(&self) -> (t: String)
        ensures
            t@ == json_text(self@),
    {
        match self {
            JsonValue::Null => "null".to_owned(),
            JsonValue::Bool(b) => if *b {
                "true".to_owned()
            } else {
                "false".to_owned()
            },
            JsonValue::Int(i) => crate::text::i64_to_decimal(*i),
            JsonValue::Str(s) => json_quote_str(s.as_str()),
            JsonValue::Raw(t) => t.clone(),
        }
    }
}

impl JsonObject {
    /// The empty object.
    pub fn new() -> (o: JsonObject)
        ensures
            o@ == Seq::<(Seq<char>, JsonVal)>::empty(),
    {
        JsonObject { entries: Vec::new() }
    }

    /// The position of the first member named `key`.
    fn position(&self, key: &str) -> (pos: Option<usize>)
        ensures
            match pos {
                Some(i) => i < self@.len() && self@[i as int].0 == key@ && forall|j: int|
                    0 <= j < i ==> self@[j].0 != key@,
                None => forall|j: int| 0 <= j < self@.len() ==> self@[j].0 != key@,
            },
    {
        let k = key.to_owned();
        let n = self.entries.len();
        for i in 0..n
            invariant
                n == self@.len(),
                k@ == key@,
                forall|j: int| 0 <= j < i ==> self@[j].0 != key@,
        {
            if self.entries[i].key == k {
                return Some(i);
            }
        }
        None
    }

    /// `Map::get`: the value of the member named `key`.
    pub fn get(&self, key: &str) -> (v: Option<&JsonValue>)
        ensures
            match v {
                Some(x) => lookup(self@, key@) == Some(x@),
                None => lookup(self@, key@) is None,
            },
    {
        match self.position(key) {
            Some(i) => {
                proof {
                    lemma_lookup_skip(self@, key@, i as int);
                }
                Some(&self.entries[i].value)
            },
            None => {
                proof {
                    lemma_lookup_skip(self@, key@, self@.len() as int);
                }
                None
            },
        }
    }

    /// `Map::insert`: the member named `key` takes the value `value`, in place
    /// if it exists, else as a new last member; every other member is kept.
    pub fn insert(&mut self, key: &str, value: JsonValue)
        ensures
            forall|k: Seq<char>|
                #![trigger lookup(final(self)@, k)]
                lookup(final(self)@, k) == if k == key@ {
                    Some(value@)
                } else {
                    lookup(old(self)@, k)
                },
    {
        let ghost old_view = self@;
        let ghost vv = value@;
        match self.position(key) {
            Some(i) => {
                let k = self.entries[i].key.clone();
                self.entries.set(i, JsonEntry { key: k, value });
                proof {
                    assert(self@ =~= old_view.update(i as int, (old_view[i as int].0, vv)));
                    assert forall|k: Seq<char>| #[trigger]
                        lookup(self@, k) == if k == key@ {
                            Some(vv)
                        } else {
                            lookup(old_view, k)
                        } by {
                        lemma_lookup_update(old_view, i as int, vv, k);
                    }
                }
            },
            None => {
                self.entries.push(JsonEntry { key: key.to_owned(), value });
                proof {
                    assert(self@ =~= old_view.push((key@, vv)));
                    assert forall|k: Seq<char>| #[trigger]
                        lookup(self@, k) == if k == key@ {
                            Some(vv)
                        } else {
                            lookup(old_view, k)
                        } by {
                        lemma_lookup_push(old_view, key@, vv, k);
                    }
                }
            },
        }
    }
}

/// `payload.get(k1).or_else(|| payload.get(k2))`: the first of two members that exists.
pub open spec fn json_get_either(p: Option<Seq<(Seq<char>, JsonVal)>>, k1: Seq<char>, k2: Seq<char>) -> Option<JsonVal> {
    match json_get(p, k1) {
        Some(v) => Some(v),
        None => json_get(p, k2),
    }
}

/// The string inside a value, as `Value::as_str` gives it.
pub open spec fn val_str(v: Option<JsonVal>) -> Option<Seq<char>> {
    match v {
        Some(JsonVal::Str(s)) => Some(s),
        _ => None,
    }
}

pub open spec fn opt_or(o: Option<Seq<char>>, default: Seq<char>) -> Seq<char> {
    match o {
        Some(s) => s,
        None => default,
    }
}

impl Payload {
    /// A body that is an empty JSON object.
    pub fn empty_object() -> (p: Payload)
        ensures
            p@ == Some(Seq::<(Seq<char>, JsonVal)>::empty()),
    {
        Payload::Object(JsonObject::new())
    }

    /// `Value::get`: the member `key` when the body is an object.
    pub fn get(&self, key: &str) -> (v: Option<&JsonValue>)
        ensures
            match v {
                Some(x) => json_get(self@, key@) == Some(x@),
                None => json_get(self@, key@) is None,
            },
    {
        match self {
            Payload::Object(o) => o.get(key),
            Payload::Other(_) => None,
        }
    }

    /// `get(k1).or_else(|| get(k2))`.
    pub fn get_either(&self, k1: &str, k2: &str) -> (v: Option<&JsonValue>)
        ensures
            match v {
                Some(x) => json_get_either(self@, k1@, k2@) == Some(x@),
                None => json_get_either(self@, k1@, k2@) is None,
            },
    {
        match self.get(k1) {
            Some(v) => Some(v),
            None => self.get(k2),
        }
    }

    /// `get(key).and_then(Value::as_str)`.
    pub fn get_str(&self, key: &str) -> (s: Option<&str>)
        ensures
            match s {
                Some(x) => get_str(self@, key@) == Some(x@),
                None => get_str(self@, key@) is None,
            },
    {
        match self.get(key) {
            Some(JsonValue::Str(s)) => Some(s.as_str()),
            _ => None,
        }
    }

    /// `get(key).and_then(Value::as_str).map(str::to_owned)`.
    pub fn opt_text(&self, key: &str) -> (s: Option<String>)
        ensures
            match s {
                Some(x) => get_str(self@, key@) == Some(x@),
                None => get_str(self@, key@) is None,
            },
    {
        match self.get_str(key) {
            Some(s) => Some(s.to_owned()),
            None => None,
        }
    }

    /// `get(key).and_then(Value::as_str).unwrap_or(default)`.
    pub fn str_or<'a>(&'a self, key: &str, default: &'a str) -> (s: &'a str)
        ensures
            s@ == str_or(self@, key@, default@),
    {
        match self.get_str(key) {
            Some(s) => s,
            None => default,
        }
    }

    /// [`Payload::str_or`], owned.
    pub fn text_or(&self, key: &str, default: &str) -> (s: String)
        ensures
            s@ == str_or(self@, key@, default@),
    {
        self.str_or(key, default).to_owned()
    }

    /// `get(key).and_then(Value::as_bool).unwrap_or(default)`.
    pub fn bool_or(&self, key: &str, default: bool) -> (b: bool)
        ensures
            b == bool_or(self@, key@, default),
    {
        match self.get(key) {
            Some(JsonValue::Bool(b)) => *b,
            _ => default,
        }
    }

    /// `get(key).and_then(Value::as_i64)`.
    pub fn opt_int(&self, key: &str) -> (i: Option<i64>)
        ensures
            i == get_int(self@, key@),
    {
        match self.get(key) {
            Some(JsonValue::Int(i)) => Some(*i),
            _ => None,
        }
    }

    /// `get(key).and_then(Value::as_i64).unwrap_or(default)`.
    pub fn int_or(&self, key: &str, default: i64) -> (i: i64)
        ensures
            i == int_or(self@, key@, default),
    {
        match self.get(key) {
            Some(JsonValue::Int(i)) => *i,
            _ => default,
        }
    }

    /// `get(key).cloned().unwrap_or(default).to_string()`, the default given
    /// by its JSON text.
    pub fn json_text_or(&self, key: &str, default: &str) -> (t: String)
        ensures
            t@ == json_text_or(self@, key@, default@),
    {
        match self.get(key) {
            Some(v) => v.to_json_text(),
            None => default.to_owned(),
        }
    }

    /// `Value::as_object_mut().map(|m| m.insert(key, value))`: sets a member
    /// when the body is an object and leaves any other body as it is.
    pub fn set_member(&mut self, key: &str, value: JsonValue)
        ensures
            old(self)@ is Some <==> final(self)@ is Some,
            old(self) matches Payload::Other(_) ==> *final(self) == *old(self),
            forall|k: Seq<char>|
                #![trigger json_get(final(self)@, k)]
                json_get(final(self)@, k) == if k == key@ && old(self)@ is Some {
                    Some(value@)
                } else {
                    json_get(old(self)@, k)
                },
    {
        match self {
            Payload::Object(o) => o.insert(key, value),
            Payload::Other(_) => {},
        }
    }
}

} // verus!
