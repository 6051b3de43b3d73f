//! A JSON document as plain values, with the lookups that the daemon performs.
use vstd::prelude::*;
use vstd::string::StringExecFns;

verus! {

/// A JSON value. Numbers are held as their decimal text. Objects keep their
/// members in order; a lookup by key finds the first member with that key.
#[derive(Debug, PartialEq)]
pub enum JsonValue {
    Null,
    Bool(bool),
    Number(String),
    String(String),
    Array(Vec<JsonValue>),
    Object(Vec<(String, JsonValue)>),
}

/// The mathematical model of a JSON value.
pub enum Json {
    Null,
    Bool(bool),
    Number(Seq<char>),
    Str(Seq<char>),
    Array(Seq<Json>),
    Object(Seq<(Seq<char>, Json)>),
}

pub open spec fn json_view(v: JsonValue) -> Json
    decreases v,
{
    match v {
        JsonValue::Null => Json::Null,
        JsonValue::Bool(b) => Json::Bool(b),
        JsonValue::Number(n) => Json::Number(n@),
        JsonValue::String(s) => Json::Str(s@),
        JsonValue::Array(items) => Json::Array(
            Seq::new(
                items@.len(),
                |i: int|
                    if 0 <= i < items@.len() {
                        proof {
                            assert(decreases_to!(items@ => items@[i]));
                        }
                        json_view(items@[i])
                    } else {
                        Json::Null
                    },
            ),
        ),
        JsonValue::Object(fields) => Json::Object(
            Seq::new(
                fields@.len(),
                |i: int|
                    if 0 <= i < fields@.len() {
                        proof {
                            assert(decreases_to!(fields@ => fields@[i]));
                            assert(decreases_to!(fields@[i] => fields@[i].1));
                        }
                        (fields@[i].0@, json_view(fields@[i].1))
                    } else {
                        (Seq::empty(), Json::Null)
                    },
            ),
        ),
    }
}

impl View for JsonValue {
    type V = Json;

    open spec fn view(&self) -> Json {
        json_view(*self)
    }
}

/// The value of the first member named `key`, if any.
pub open spec fn lookup(fields: Seq<(Seq<char>, Json)>, key: Seq<char>) -> Option<Json>
    decreases fields.len(),
{
    if fields.len() == 0 {
        None
    } else if fields[0].0 == key {
        Some(fields[0].1)
    } else {
        lookup(fields.drop_first(), key)
    }
}

/// `value.get(key)`: a member of an object; nothing for any other value.
pub open spec fn get_key(v: Json, key: Seq<char>) -> Option<Json> {
    match v {
        Json::Object(fields) => lookup(fields, key),
        _ => None,
    }
}

/// `value.get(i)`: an element of an array; nothing for any other value.
pub open spec fn get_pos(v: Json, i: int) -> Option<Json> {
    match v {
        Json::Array(items) => if 0 <= i < items.len() {
            Some(items[i])
        } else {
            None
        },
        _ => None,
    }
}

/// `value[key]`: the member, or `null` where there is none.
pub open spec fn index_key(v: Json, key: Seq<char>) -> Json {
    match get_key(v, key) {
        Some(x) => x,
        None => Json::Null,
    }
}

/// `value[i]`: the element, or `null` where there is none.
pub open spec fn index_pos(v: Json, i: int) -> Json {
    match get_pos(v, i) {
        Some(x) => x,
        None => Json::Null,
    }
}

/// `value.as_str()`: the text of a string value.
pub open spec fn str_of(v: Json) -> Option<Seq<char>> {
    match v {
        Json::Str(s) => Some(s),
        _ => None,
    }
}

/// Whether the member at position `i` is the first one named `key`.
pub open spec fn first_member(fields: Seq<(Seq<char>, Json)>, key: Seq<char>, i: int) -> bool {
    &&& 0 <= i < fields.len()
    &&& fields[i].0 == key
    &&& forall|j: int| 0 <= j < i ==> fields[j].0 != key
}

/// A lookup finds the first member with the key, wherever it stands among
/// the members.
pub proof fn lemma_lookup_finds(fields: Seq<(Seq<char>, Json)>, key: Seq<char>, i: int)
    requires
        first_member(fields, key, i),
    ensures
        lookup(fields, key) == Some(fields[i].1),
    decreases i,
{
    if i > 0 {
        let rest = fields.drop_first();
        assert forall|j: int| 0 <= j < i - 1 implies rest[j].0 != key by {
            assert(rest[j] == fields[j + 1]);
        }
        assert(rest[i - 1] == fields[i]);
        lemma_lookup_finds(rest, key, i - 1);
        assert(fields[0].0 != key);
    }
}

/// A lookup of a key that no member has finds nothing.
pub proof fn lemma_lookup_absent(fields: Seq<(Seq<char>, Json)>, key: Seq<char>)
    requires
        forall|j: int| 0 <= j < fields.len() ==> fields[j].0 != key,
    ensures
        lookup(fields, key) is None,
    decreases fields.len(),
{
    if fields.len() > 0 {
        let rest = fields.drop_first();
        assert forall|j: int| 0 <= j < rest.len() implies rest[j].0 != key by {
            assert(rest[j] == fields[j + 1]);
        }
        assert(fields[0].0 != key);
        lemma_lookup_absent(rest, key);
    }
}

/// Scalars are modelled as themselves: the flag, the number's text and the
/// string's characters, unchanged.
pub proof fn lemma_scalar_views(b: bool, text: String)
    ensures
        JsonValue::Null@ == Json::Null,
        JsonValue::Bool(b)@ == Json::Bool(b),
        JsonValue::Number(text)@ == Json::Number(text@),
        JsonValue::String(text)@ == Json::Str(text@),
{
}

proof fn lemma_lookup_step(fields: Seq<(Seq<char>, Json)>, i: int, key: Seq<char>)
    requires
        0 <= i < fields.len(),
        fields[i].0 != key,
    ensures
        lookup(fields.skip(i), key) == lookup(fields.skip(i + 1), key),
{
    assert(fields.skip(i).drop_first() =~= fields.skip(i + 1));
}

/// The model of an object's member list.
pub open spec fn members_view(fields: Seq<(String, JsonValue)>) -> Seq<(Seq<char>, Json)> {
    fields.map_values(|f: (String, JsonValue)| (f.0@, f.1@))
}

/// The model of an array's element list.
pub open spec fn items_view(items: Seq<JsonValue>) -> Seq<Json> {
    items.map_values(|v: JsonValue| v@)
}

pub proof fn lemma_object_members(fields: Vec<(String, JsonValue)>)
    ensures
        JsonValue::Object(fields)@ == Json::Object(members_view(fields@)),
{
    match JsonValue::Object(fields)@ {
        Json::Object(fs) => {
            assert(fs =~= members_view(fields@));
        },
        _ => {},
    }
}

pub proof fn lemma_array_items(items: Vec<JsonValue>)
    ensures
        JsonValue::Array(items)@ == Json::Array(items_view(items@)),
{
    match JsonValue::Array(items)@ {
        Json::Array(xs) => {
            assert(xs =~= items_view(items@));
        },
        _ => {},
    }
}

impl JsonValue {
    proof fn lemma_object_view(fields: Vec<(String, JsonValue)>, i: int)
        requires
            0 <= i < fields@.len(),
        ensures
            JsonValue::Object(fields)@ matches Json::Object(fs) && fs.len() == fields@.len()
                && fs[i] == (fields@[i].0@, fields@[i].1@),
    {
    }

    proof fn lemma_array_view(items: Vec<JsonValue>, i: int)
        requires
            0 <= i < items@.len(),
        ensures
            JsonValue::Array(items)@ matches Json::Array(xs) && xs.len() == items@.len()
                && xs[i] == items@[i]@,
    {
    }

    /// The member named `key` of an object (`serde_json::Value::get` with a
    /// string index).
    pub fn get(&self, key: &str) -> (res: Option<&JsonValue>)
        ensures
            match res {
                Some(x) => get_key(self@, key@) == Some(x@),
                None => get_key(self@, key@) is None,
            },
    {
        match self.position(key) {
            Some(i) => match self {
                JsonValue::Object(fields) => Some(&fields[i].1),
                _ => None,
            },
            None => None,
        }
    }

    /// The element at position `i` of an array (`serde_json::Value::get` with
    /// an integer index).
    pub fn get_index(&self, i: usize) -> (res: Option<&JsonValue>)
        ensures
            match res {
                Some(x) => get_pos(self@, i as int) == Some(x@),
                None => get_pos(self@, i as int) is None,
            },
    {
        match self {
            JsonValue::Array(items) => {
                if i < items.len() {
                    proof {
                        JsonValue::lemma_array_view(*items, i as int);
                    }
                    Some(&items[i])
                } else {
                    None
                }
            },
            _ => None,
        }
    }

    /// The text of a string value (`serde_json::Value::as_str`).
    pub fn as_str(&self) -> (res: Option<&str>)
        ensures
            match res {
                Some(s) => str_of(self@) == Some(s@),
                None => str_of(self@) is None,
            },
    {
        match self {
            JsonValue::String(s) => Some(s.as_str()),
            _ => None,
        }
    }

    /// Position of the first member named `key` of an object.
    fn position(&self, key: &str) -> (res: Option<usize>)
        ensures
            match res {
                Some(i) => self matches JsonValue::Object(fields) && i < fields@.len()
                    && get_key(self@, key@) == Some(fields@[i as int].1@),
                None => get_key(self@, key@) is None,
            },
    {
        match self {
            JsonValue::Object(fields) => {
                let n = fields.len();
                let ghost fs = match self@ {
                    Json::Object(fs) => fs,
                    _ => Seq::empty(),
                };
                proof {
                    assert(fs.skip(0) =~= fs);
                }
                let mut i: usize = 0;
                while i < n
                    invariant
                        n == fields@.len(),
                        i <= n,
                        *self == JsonValue::Object(*fields),
                        self@ == Json::Object(fs),
                        fs.len() == n,
                        forall|j: int| 0 <= j < n ==> #[trigger] fs[j] == (fields@[j].0@, fields@[j].1@),
                        lookup(fs, key@) == lookup(fs.skip(i as int), key@),
                    decreases n - i,
                {
                    proof {
                        JsonValue::lemma_object_view(*fields, i as int);
                    }
                    if crate::text::str_eq(fields[i].0.as_str(), key) {
                        proof {
                            assert(fs.skip(i as int)[0] == fs[i as int]);
                        }
                        return Some(i);
                    }
                    proof {
                        lemma_lookup_step(fs, i as int, key@);
                    }
                    i = i + 1;
                }
                None
            },
            _ => None,
        }
    }

    /// Moves out the value of the first member named `key` of an object.
    pub fn take_key(self, key: &str) -> (res: Option<JsonValue>)
        ensures
            match res {
                Some(x) => get_key(self@, key@) == Some(x@),
                None => get_key(self@, key@) is None,
            },
    {
        match self.position(key) {
            Some(i) => match self {
                JsonValue::Object(fields) => {
                    let mut fields = fields;
                    let (_, v) = fields.remove(i);
                    Some(v)
                },
                _ => None,
            },
            None => None,
        }
    }

    /// An object member with the given name.
    pub fn member(key: &str, value: JsonValue) -> (res: (String, JsonValue))
        ensures
            res.0@ == key@,
            res.1 == value,
    {
        (String::from_str(key), value)
    }

    /// A string value.
    pub fn text(s: &str) -> (res: JsonValue)
        ensures
            res@ == Json::Str(s@),
    {
        JsonValue::String(String::from_str(s))
    }
}

} // verus!
