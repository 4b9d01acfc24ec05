//! JSON values as the pages read them.
use vstd::prelude::*;

verus! {

/// A JSON number: its value when it is an integer that fits in `i64`
/// (`as_i64`), and its text as the JSON encoder writes it.
pub struct JsonNumber {
    pub int: Option<i64>,
    pub text: String,
}

/// A JSON value. Arrays and objects carry their compact text as the JSON
/// encoder writes it; the members of an object are in the decoder's order.
pub enum Json {
    Null,
    Bool(bool),
    Number(JsonNumber),
    Str(String),
    Array { items: Vec<Json>, text: String },
    Object { entries: Vec<(String, Json)>, text: String },
}

/// Index of the first member of `entries` named `key`, or -1.
pub open spec fn key_index(entries: Seq<(String, Json)>, key: Seq<char>) -> int
    decreases entries.len(),
{
    if entries.len() == 0 {
        -1
    } else {
        let p = key_index(entries.drop_last(), key);
        if p >= 0 {
            p
        } else if entries.last().0@ == key {
            entries.len() - 1
        } else {
            -1
        }
    }
}

/// Member `key` of an object (`Value::get` with a string).
pub open spec fn field(v: Json, key: Seq<char>) -> Option<Json> {
    match v {
        Json::Object { entries, .. } => {
            let i = key_index(entries@, key);
            if i >= 0 {
                Some(entries@[i].1)
            } else {
                None
            }
        },
        _ => None,
    }
}

/// Element `i` of an array (`Value::get` with an index).
pub open spec fn item(v: Json, i: int) -> Option<Json> {
    match v {
        Json::Array { items, .. } => if 0 <= i < items@.len() {
            Some(items@[i])
        } else {
            None
        },
        _ => None,
    }
}

pub open spec fn then_field(v: Option<Json>, key: Seq<char>) -> Option<Json> {
    match v {
        Some(x) => field(x, key),
        None => None,
    }
}

pub open spec fn then_item(v: Option<Json>, i: int) -> Option<Json> {
    match v {
        Some(x) => item(x, i),
        None => None,
    }
}

pub open spec fn deref_opt(r: Option<&Json>) -> Option<Json> {
    match r {
        Some(x) => Some(*x),
        None => None,
    }
}

proof fn lemma_key_index_prefix(entries: Seq<(String, Json)>, key: Seq<char>, i: int)
    requires
        0 <= i <= entries.len(),
        forall|j: int| 0 <= j < i ==> (#[trigger] entries[j]).0@ != key,
    ensures
        key_index(entries.take(i), key) == -1,
    decreases i,
{
    if i > 0 {
        lemma_key_index_prefix(entries, key, i - 1);
        assert(entries.take(i).drop_last() =~= entries.take(i - 1));
    }
}

proof fn lemma_key_index_extend(entries: Seq<(String, Json)>, key: Seq<char>, i: int, n: int)
    requires
        0 <= i < n <= entries.len(),
        key_index(entries.take(i + 1), key) == i,
    ensures
        key_index(entries.take(n), key) == i,
    decreases n - i,
{
    if n > i + 1 {
        lemma_key_index_extend(entries, key, i, n - 1);
        assert(entries.take(n).drop_last() =~= entries.take(n - 1));
    }
}

/// Member `key` of an object, if it is one and has that member.
pub fn get_field<'a>(v: &'a Json, key: &str) -> (r: Option<&'a Json>)
    ensures
        deref_opt(r) == field(*v, key@),
{
    match v {
        Json::Object { entries, .. } => {
            let k: String = String::from_str(key);
            let mut i: usize = 0;
            while i < entries.len()
                invariant
                    i <= entries@.len(),
                    k@ == key@,
                    *v is Object,
                    v->entries == *entries,
                    forall|j: int| 0 <= j < i ==> (#[trigger] entries@[j]).0@ != key@,
                decreases entries@.len() - i,
            {
                if entries[i].0 == k {
                    proof {
                        lemma_key_index_prefix(entries@, key@, i as int);
                        assert(entries@.take(i + 1).drop_last() =~= entries@.take(i as int));
                        assert(entries@[i as int].0@ == key@);
                        assert(entries@.take(i + 1).last() == entries@[i as int]);
                        assert(key_index(entries@.take(i + 1), key@) == i);
                        lemma_key_index_extend(entries@, key@, i as int, entries@.len() as int);
                        assert(entries@.take(entries@.len() as int) =~= entries@);
                        assert(key_index(entries@, key@) == i);
                        assert(field(*v, key@) == Some(entries@[i as int].1));
                    }
                    return Some(&entries[i].1);
                }
                i = i + 1;
            }
            proof {
                lemma_key_index_prefix(entries@, key@, i as int);
                assert(entries@.take(i as int) =~= entries@);
            }
            None
        },
        _ => None,
    }
}

/// Element `i` of an array, if it is one and is long enough.
pub fn get_item<'a>(v: &'a Json, i: usize) -> (r: Option<&'a Json>)
    ensures
        deref_opt(r) == item(*v, i as int),
{
    match v {
        Json::Array { items, .. } => if i < items.len() {
            Some(&items[i])
        } else {
            None
        },
        _ => None,
    }
}

/// A flag that the API sends as a boolean or as a number: a boolean as it is,
/// an integer that fits in `i64` as "not zero", anything else as false.
pub open spec fn json_flag(v: Json) -> bool {
    match v {
        Json::Bool(b) => b,
        Json::Number(n) => match n.int {
            Some(i) => i != 0,
            None => false,
        },
        _ => false,
    }
}

/// Reads a flag sent as a boolean or as a number.
pub fn bool_from_json(v: &Json) -> (r: bool)
    ensures
        r == json_flag(*v),
{
    match v {
        Json::Bool(b) => *b,
        Json::Number(n) => match n.int {
            Some(i) => i != 0,
            None => false,
        },
        _ => false,
    }
}

/// A value as a detail line shows it: nothing for null, a string's own text,
/// and the JSON text of anything else.
pub open spec fn value_text(v: Json) -> Seq<char> {
    match v {
        Json::Null => Seq::empty(),
        Json::Bool(b) => if b {
            "true"@
        } else {
            "false"@
        },
        Json::Number(n) => n.text@,
        Json::Str(s) => s@,
        Json::Array { text, .. } => text@,
        Json::Object { text, .. } => text@,
    }
}

/// Shows a value on a detail line.
pub fn format_value(v: &Json) -> (r: String)
    ensures
        r@ == value_text(*v),
{
    match v {
        Json::Null => String::new(),
        Json::Bool(b) => if *b {
            String::from_str("true")
        } else {
            String::from_str("false")
        },
        Json::Number(n) => n.text.clone(),
        Json::Str(s) => s.clone(),
        Json::Array { text, .. } => text.clone(),
        Json::Object { text, .. } => text.clone(),
    }
}

} // verus!
