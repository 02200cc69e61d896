//! A JSON document as the library reads it, and typed reading of its members.
use vstd::prelude::*;

verus! {

#[verifier::external_type_specification]
#[verifier::external_body]
pub struct ExJsonError(serde_json::Error);

#[verifier::external_type_specification]
#[verifier::external_body]
pub struct ExJsonValue(serde_json::Value);

/// A parsed JSON document. A number is kept as its integer value when it is an
/// integer that fits in an `i64`, and as `None` otherwise (a fraction, an
/// exponent, or an integer out of range).
#[derive(Debug)]
pub enum Json {
    Null,
    Bool(bool),
    Number(Option<i64>),
    Str(String),
    Array(Vec<Json>),
    Object(Vec<(String, Json)>),
}

/// The document that a text denotes, or `None` where the parser refuses it:
/// text that is not valid JSON, arrays and objects nested more than 128 deep,
/// and numbers beyond the range of an `f64`.
pub uninterp spec fn json_document(text: Seq<char>) -> Option<Json>;

/// Relies on serde_json::from_str into a serde_json::Value: the text is parsed
/// as one JSON document, which depends on the text alone.
#[verifier::external_body]
fn parse_document(text: &str) -> (r: Result<Json, serde_json::Error>)
    ensures
        r is Ok <==> json_document(text@) is Some,
        r matches Ok(j) ==> json_document(text@) == Some(j),
{
    serde_json::from_str::<serde_json::Value>(text).map(json_of_value)
}

/// Relies on serde_json::Value's variants and on serde_json::Number::as_i64:
/// moves a parsed value into the library's own document type, one variant for
/// each variant.
#[verifier::external_body]
fn json_of_value(v: serde_json::Value) -> Json {
    match v {
        serde_json::Value::Null => Json::Null,
        serde_json::Value::Bool(b) => Json::Bool(b),
        serde_json::Value::Number(n) => Json::Number(n.as_i64()),
        serde_json::Value::String(s) => Json::Str(s),
        serde_json::Value::Array(a) => Json::Array(a.into_iter().map(json_of_value).collect()),
        serde_json::Value::Object(m) => Json::Object(
            m.into_iter().map(|(k, x)| (k, json_of_value(x))).collect(),
        ),
    }
}

/// Parses `text` as a JSON document.
pub fn parse_json(text: &str) -> (r: Result<Json, serde_json::Error>)
    ensures
        r is Ok <==> json_document(text@) is Some,
        r matches Ok(j) ==> json_document(text@) == Some(j),
{
    parse_document(text)
}

/// Relies on serde_json::Error's `Display`: the error's message.
#[verifier::external_body]
pub(crate) fn json_error_text(e: &serde_json::Error) -> String {
    e.to_string()
}

/// `i` is the first entry of `entries` under `key`.
pub open spec fn key_at(entries: Seq<(String, Json)>, key: Seq<char>, i: int) -> bool {
    &&& 0 <= i < entries.len()
    &&& entries[i].0@ == key
    &&& forall|k: int| 0 <= k < i ==> entries[k].0@ != key
}

/// The member of an object under `key` (the first one, should the key repeat);
/// `None` where `j` is no object or has no such member.
pub open spec fn member(j: Json, key: Seq<char>) -> Option<Json> {
    match j {
        Json::Object(entries) => if exists|i: int| key_at(entries@, key, i) {
            Some(entries@[choose|i: int| key_at(entries@, key, i)].1)
        } else {
            None
        },
        _ => None,
    }
}

/// Whether two texts hold the same characters.
pub fn same_text(a: &str, b: &str) -> (r: bool)
    ensures
        r == (a@ == b@),
{
    let n = a.unicode_len();
    if n != b.unicode_len() {
        return false;
    }
    let mut i: usize = 0;
    while i < n
        invariant
            n == a@.len(),
            n == b@.len(),
            i <= n,
            forall|k: int| 0 <= k < i ==> a@[k] == b@[k],
        decreases n - i,
    {
        if a.get_char(i) != b.get_char(i) {
            return false;
        }
        i = i + 1;
    }
    assert(a@ =~= b@);
    true
}

/// The member of `j` under `key`.
pub fn member_of<'a>(j: &'a Json, key: &str) -> (r: Option<&'a Json>)
    ensures
        r is None <==> member(*j, key@) is None,
        r matches Some(x) ==> member(*j, key@) == Some(*x),
{
    match j {
        Json::Object(entries) => {
            let mut i: usize = 0;
            while i < entries.len()
                invariant
                    *j == Json::Object(*entries),
                    i <= entries@.len(),
                    forall|k: int| 0 <= k < i ==> entries@[k].0@ != key@,
                decreases entries@.len() - i,
            {
                if same_text(entries[i].0.as_str(), key) {
                    assert(key_at(entries@, key@, i as int));
                    let ghost c = choose|c: int| key_at(entries@, key@, c);
                    assert(c == i) by {
                        if c < i {
                            assert(entries@[c].0@ != key@);
                        } else if c > i {
                            assert(entries@[i as int].0@ != key@);
                        }
                    }
                    assert(exists|c: int| key_at(entries@, key@, c));
                    assert(j->Object_0 == *entries);
                    assert(member(*j, key@) == Some(entries@[c].1));
                    return Some(&entries[i].1);
                }
                i = i + 1;
            }
            None
        },
        _ => None,
    }
}

/// A value that a JSON document can denote, read the way a derived
/// deserializer reads it: unknown members are ignored, a missing or `null`
/// member reads as `None` for an optional field, and any other mismatch fails.
pub trait FromJson: Sized {
    /// `j` has the shape of a value of this type.
    spec fn json_shape(j: Json) -> bool;

    /// `v` is the value that `j` denotes.
    spec fn json_value(j: Json, v: Self) -> bool;

    /// What a value of this type looks like in JSON, in words.
    spec fn shape() -> Seq<char>;

    /// What a value of this type looks like in JSON, for messages.
    fn shape_name() -> (r: &'static str)
        ensures
            r@ == Self::shape(),
    ;

    fn from_json(j: &Json) -> (r: Option<Self>)
        ensures
            r is Some <==> Self::json_shape(*j),
            r matches Some(v) ==> Self::json_value(*j, v),
    ;
}

impl FromJson for () {
    open spec fn shape() -> Seq<char> {
        "null"@
    }

    fn shape_name() -> (r: &'static str) {
        "null"
    }

    open spec fn json_shape(j: Json) -> bool {
        j is Null
    }

    open spec fn json_value(j: Json, v: ()) -> bool {
        j is Null
    }

    fn from_json(j: &Json) -> (r: Option<()>) {
        match j {
            Json::Null => Some(()),
            _ => None,
        }
    }
}

impl FromJson for bool {
    open spec fn shape() -> Seq<char> {
        "a boolean"@
    }

    fn shape_name() -> (r: &'static str) {
        "a boolean"
    }

    open spec fn json_shape(j: Json) -> bool {
        j is Bool
    }

    open spec fn json_value(j: Json, v: bool) -> bool {
        j == Json::Bool(v)
    }

    fn from_json(j: &Json) -> (r: Option<bool>) {
        match j {
            Json::Bool(b) => Some(*b),
            _ => None,
        }
    }
}

impl FromJson for u8 {
    open spec fn shape() -> Seq<char> {
        "an integer from 0 to 255"@
    }

    fn shape_name() -> (r: &'static str) {
        "an integer from 0 to 255"
    }

    open spec fn json_shape(j: Json) -> bool {
        j matches Json::Number(Some(i)) && 0 <= i <= 255
    }

    open spec fn json_value(j: Json, v: u8) -> bool {
        j == Json::Number(Some(v as i64))
    }

    fn from_json(j: &Json) -> (r: Option<u8>) {
        match j {
            Json::Number(Some(i)) => if 0 <= *i && *i <= 255 {
                Some(*i as u8)
            } else {
                None
            },
            _ => None,
        }
    }
}

impl FromJson for u32 {
    open spec fn shape() -> Seq<char> {
        "an integer from 0 to 4294967295"@
    }

    fn shape_name() -> (r: &'static str) {
        "an integer from 0 to 4294967295"
    }

    open spec fn json_shape(j: Json) -> bool {
        j matches Json::Number(Some(i)) && 0 <= i <= u32::MAX
    }

    open spec fn json_value(j: Json, v: u32) -> bool {
        j == Json::Number(Some(v as i64))
    }

    fn from_json(j: &Json) -> (r: Option<u32>) {
        match j {
            Json::Number(Some(i)) => if 0 <= *i && *i <= u32::MAX as i64 {
                Some(*i as u32)
            } else {
                None
            },
            _ => None,
        }
    }
}

impl FromJson for i64 {
    open spec fn shape() -> Seq<char> {
        "an integer"@
    }

    fn shape_name() -> (r: &'static str) {
        "an integer"
    }

    open spec fn json_shape(j: Json) -> bool {
        j is Number && j->Number_0 is Some
    }

    open spec fn json_value(j: Json, v: i64) -> bool {
        j == Json::Number(Some(v))
    }

    fn from_json(j: &Json) -> (r: Option<i64>) {
        match j {
            Json::Number(Some(i)) => Some(*i),
            _ => None,
        }
    }
}

impl FromJson for String {
    open spec fn shape() -> Seq<char> {
        "a string"@
    }

    fn shape_name() -> (r: &'static str) {
        "a string"
    }

    open spec fn json_shape(j: Json) -> bool {
        j is Str
    }

    open spec fn json_value(j: Json, v: String) -> bool {
        j matches Json::Str(s) && s@ == v@
    }

    fn from_json(j: &Json) -> (r: Option<String>) {
        match j {
            Json::Str(s) => Some(s.clone()),
            _ => None,
        }
    }
}

/// `j` is an array whose every element has the shape of a `T`.
pub open spec fn list_shape<T: FromJson>(j: Json) -> bool {
    match j {
        Json::Array(items) => forall|i: int|
            0 <= i < items@.len() ==> #[trigger] T::json_shape(items@[i]),
        _ => false,
    }
}

/// `v` is the list that the array `j` denotes, element for element.
pub open spec fn list_value<T: FromJson>(j: Json, v: Seq<T>) -> bool {
    match j {
        Json::Array(items) => items@.len() == v.len() && forall|i: int|
            0 <= i < v.len() ==> #[trigger] T::json_value(items@[i], v[i]),
        _ => false,
    }
}

impl<T: FromJson> FromJson for Vec<T> {
    open spec fn shape() -> Seq<char> {
        "an array"@
    }

    fn shape_name() -> (r: &'static str) {
        "an array"
    }

    open spec fn json_shape(j: Json) -> bool {
        list_shape::<T>(j)
    }

    open spec fn json_value(j: Json, v: Vec<T>) -> bool {
        list_value::<T>(j, v@)
    }

    fn from_json(j: &Json) -> (r: Option<Vec<T>>) {
        match j {
            Json::Array(items) => {
                let mut out: Vec<T> = Vec::new();
                let mut i: usize = 0;
                while i < items.len()
                    invariant
                        *j == Json::Array(*items),
                        i <= items@.len(),
                        out@.len() == i,
                        forall|k: int| 0 <= k < i ==> #[trigger] T::json_shape(items@[k]),
                        forall|k: int| 0 <= k < i ==> #[trigger] T::json_value(items@[k], out@[k]),
                    decreases items@.len() - i,
                {
                    match T::from_json(&items[i]) {
                        Some(v) => out.push(v),
                        None => {
                            assert(!T::json_shape(items@[i as int]));
                            assert(!(forall|k: int|
                                0 <= k < items@.len() ==> #[trigger] T::json_shape(items@[k])));
                            assert(j->Array_0 == *items);
                            assert(!list_shape::<T>(*j));
                            return None;
                        },
                    }
                    i = i + 1;
                }
                assert(list_shape::<T>(*j));
                assert(list_value::<T>(*j, out@));
                Some(out)
            },
            _ => None,
        }
    }
}

/// The member of `j` under `key` is present and has the shape of a `T`.
pub open spec fn field_shape<T: FromJson>(j: Json, key: Seq<char>) -> bool {
    member(j, key) matches Some(x) && T::json_shape(x)
}

/// `v` is what the member of `j` under `key` denotes.
pub open spec fn field_value<T: FromJson>(j: Json, key: Seq<char>, v: T) -> bool {
    member(j, key) matches Some(x) && T::json_value(x, v)
}

/// The member under `key` is absent, `null`, or has the shape of a `T`.
pub open spec fn opt_field_shape<T: FromJson>(j: Json, key: Seq<char>) -> bool {
    match member(j, key) {
        None => true,
        Some(Json::Null) => true,
        Some(x) => T::json_shape(x),
    }
}

/// `v` is what the optional member under `key` denotes.
pub open spec fn opt_field_value<T: FromJson>(j: Json, key: Seq<char>, v: Option<T>) -> bool {
    match member(j, key) {
        None => v is None,
        Some(Json::Null) => v is None,
        Some(x) => v matches Some(w) && T::json_value(x, w),
    }
}

/// Reads the required member of `j` under `key` as a `T`.
pub fn field<T: FromJson>(j: &Json, key: &str) -> (r: Option<T>)
    ensures
        r is Some <==> field_shape::<T>(*j, key@),
        r matches Some(v) ==> field_value::<T>(*j, key@, v),
{
    match member_of(j, key) {
        Some(x) => T::from_json(x),
        None => None,
    }
}

/// Reads the optional member of `j` under `key` as a `T`; the outer `None`
/// means that the member is there with another shape.
pub fn opt_field<T: FromJson>(j: &Json, key: &str) -> (r: Option<Option<T>>)
    ensures
        r is Some <==> opt_field_shape::<T>(*j, key@),
        r matches Some(v) ==> opt_field_value::<T>(*j, key@, v),
{
    match member_of(j, key) {
        None => Some(None),
        Some(Json::Null) => Some(None),
        Some(x) => match T::from_json(x) {
            Some(v) => Some(Some(v)),
            None => None,
        },
    }
}

} // verus!
