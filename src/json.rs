use vstd::prelude::*;

verus! {

broadcast use vstd::std_specs::vec::group_vec_axioms, vstd::string::group_string_axioms;

/// A JSON document held as plain values. Numbers keep the text they were
/// written with. An object's members stand in the order they were put in;
/// serde_json, which parses and writes the text, keeps its members sorted by
/// key and one member per key.
#[derive(Debug, PartialEq)]
pub enum JsonValue {
    Null,
    Bool(bool),
    Number(String),
    Str(String),
    Array(Vec<JsonValue>),
    Object(Vec<(String, JsonValue)>),
}

/// The position of the first member of `fields`, from position `i` on, whose key is
/// `key`; -1 where there is none.
pub open spec fn key_index_from(fields: Seq<(String, JsonValue)>, i: int, key: Seq<char>) -> int
    decreases fields.len() - i,
{
    if i < 0 || i >= fields.len() {
        -1
    } else if fields[i].0@ == key {
        i
    } else {
        key_index_from(fields, i + 1, key)
    }
}

/// The position of the first member of `fields` whose key is `key`; -1 where there is none.
pub open spec fn key_index(fields: Seq<(String, JsonValue)>, key: Seq<char>) -> int {
    key_index_from(fields, 0, key)
}

/// The value of member `key` of `j`, where `j` is an object that has one.
pub open spec fn member(j: JsonValue, key: Seq<char>) -> Option<JsonValue> {
    match j {
        JsonValue::Object(fields) => {
            let k = key_index(fields@, key);
            if 0 <= k < fields.len() {
                Some(fields[k].1)
            } else {
                None
            }
        },
        _ => None,
    }
}

/// The text of member `key` of `j`, where that member is a string.
pub open spec fn str_member(j: JsonValue, key: Seq<char>) -> Option<Seq<char>> {
    match member(j, key) {
        Some(JsonValue::Str(s)) => Some(s@),
        _ => None,
    }
}

pub proof fn lemma_key_index_from_range(fields: Seq<(String, JsonValue)>, i: int, key: Seq<char>)
    requires
        0 <= i,
    ensures
        key_index_from(fields, i, key) == -1 || (i <= key_index_from(fields, i, key) < fields.len()
            && fields[key_index_from(fields, i, key)].0@ == key),
    decreases fields.len() - i,
{
    if i < fields.len() && fields[i].0@ != key {
        lemma_key_index_from_range(fields, i + 1, key);
    }
}

/// Two JSON values that hold the same data.
pub open spec fn same_json(a: JsonValue, b: JsonValue) -> bool
    decreases a,
{
    match a {
        JsonValue::Null => b is Null,
        JsonValue::Bool(x) => b is Bool && b->Bool_0 == x,
        JsonValue::Number(x) => b is Number && b->Number_0@ == x@,
        JsonValue::Str(x) => b is Str && b->Str_0@ == x@,
        JsonValue::Array(xs) => b is Array && xs.len() == b->Array_0.len() && forall|i: int|
            0 <= i < xs.len() ==> same_json(#[trigger] xs[i], b->Array_0[i]),
        JsonValue::Object(xs) => b is Object && xs.len() == b->Object_0.len() && forall|i: int|
            0 <= i < xs.len() ==> (#[trigger] xs[i]).0@ == b->Object_0[i].0@ && same_json(xs[i].1, b->Object_0[i].1),
    }
}


/// Looking a key up in members with one more at the end finds what the shorter
/// members gave, else the new member where its key matches.
pub proof fn lemma_key_index_push(fields: Seq<(String, JsonValue)>, e: (String, JsonValue), i: int, key: Seq<char>)
    requires
        0 <= i <= fields.len(),
    ensures
        key_index_from(fields.push(e), i, key) == if key_index_from(fields, i, key) != -1 {
            key_index_from(fields, i, key)
        } else if e.0@ == key {
            fields.len() as int
        } else {
            -1
        },
    decreases fields.len() - i,
{
    let longer = fields.push(e);
    if i < fields.len() {
        assert(longer[i] == fields[i]);
        lemma_key_index_push(fields, e, i + 1, key);
    } else {
        assert(longer[i] == e);
        assert(key_index_from(longer, i + 1, key) == -1);
    }
}

/// Appends member `key` holding `value`, where no member has that key yet.
pub fn push_member(fields: &mut Vec<(String, JsonValue)>, key: &str, value: JsonValue)
    requires
        key_index(old(fields)@, key@) == -1,
    ensures
        final(fields)@.len() == old(fields)@.len() + 1,
        final(fields)@.drop_last() == old(fields)@,
        final(fields)@.last().0@ == key@,
        final(fields)@.last().1 == value,
        forall|k: Seq<char>|
            #[trigger] key_index(final(fields)@, k) == if k == key@ {
                old(fields)@.len() as int
            } else {
                key_index(old(fields)@, k)
            },
{
    let ghost before = fields@;
    let e = (key.to_string(), value);
    fields.push(e);
    proof {
        assert(fields@.drop_last() =~= before);
        assert forall|k: Seq<char>| #[trigger] key_index(fields@, k) == if k == key@ {
            before.len() as int
        } else {
            key_index(before, k)
        } by {
            lemma_key_index_push(before, e, 0, k);
            if k == key@ {
                lemma_key_index_from_range(before, 0, k);
            }
        }
    }
}

/// Holding the same data is symmetric.
pub proof fn lemma_same_json_symm(a: JsonValue, b: JsonValue)
    requires
        same_json(a, b),
    ensures
        same_json(b, a),
    decreases a,
{
    match a {
        JsonValue::Array(xs) => {
            let ys = b->Array_0;
            assert forall|i: int| 0 <= i < ys.len() implies same_json(#[trigger] ys[i], xs[i]) by {
                assert(decreases_to!(xs => xs[i]));
                lemma_same_json_symm(xs[i], ys[i]);
            }
        },
        JsonValue::Object(xs) => {
            let ys = b->Object_0;
            assert forall|i: int| 0 <= i < ys.len() implies same_json(#[trigger] ys[i].1, xs[i].1) by {
                assert(decreases_to!(xs => xs[i]));
                lemma_same_json_symm(xs[i].1, ys[i].1);
            }
        },
        _ => {},
    }
}

/// Holding the same data is transitive.
pub proof fn lemma_same_json_trans(a: JsonValue, b: JsonValue, c: JsonValue)
    requires
        same_json(a, b),
        same_json(b, c),
    ensures
        same_json(a, c),
    decreases a,
{
    match a {
        JsonValue::Array(xs) => {
            let ys = b->Array_0;
            let zs = c->Array_0;
            assert forall|i: int| 0 <= i < xs.len() implies same_json(#[trigger] xs[i], zs[i]) by {
                assert(decreases_to!(xs => xs[i]));
                assert(same_json(ys[i], zs[i]));
                lemma_same_json_trans(xs[i], ys[i], zs[i]);
            }
        },
        JsonValue::Object(xs) => {
            let ys = b->Object_0;
            let zs = c->Object_0;
            assert forall|i: int| 0 <= i < xs.len() implies same_json(#[trigger] xs[i].1, zs[i].1) by {
                assert(decreases_to!(xs => xs[i]));
                assert(same_json(ys[i].1, zs[i].1));
                lemma_same_json_trans(xs[i].1, ys[i].1, zs[i].1);
            }
        },
        _ => {},
    }
}

impl JsonValue {
    /// The value of member `key`, where `self` is an object that has one.
    pub fn get(&self, key: &str) -> (r: Option<&JsonValue>)
        ensures
            r matches Some(v) ==> member(*self, key@) == Some(*v),
            r is None ==> member(*self, key@) is None,
    {
        proof {
            if self is Object {
                lemma_key_index_from_range(self->Object_0@, 0, key@);
            }
        }
        match self {
            JsonValue::Object(fields) => {
                let k = key.to_string();
                let mut i: usize = 0;
                while i < fields.len()
                    invariant
                        0 <= i <= fields.len(),
                        k@ == key@,
                        *self == JsonValue::Object(*fields),
                        key_index_from(fields@, 0, key@) == key_index_from(fields@, i as int, key@),
                    decreases fields.len() - i,
                {
                    if fields[i].0 == k {
                        return Some(&fields[i].1);
                    }
                    i = i + 1;
                }
                None
            },
            _ => None,
        }
    }

    /// A second value that holds the same data.
    pub fn duplicate(&self) -> (r: JsonValue)
        ensures
            same_json(r, *self),
        decreases self,
    {
        match self {
            JsonValue::Null => JsonValue::Null,
            JsonValue::Bool(b) => JsonValue::Bool(*b),
            JsonValue::Number(n) => JsonValue::Number(n.clone()),
            JsonValue::Str(s) => JsonValue::Str(s.clone()),
            JsonValue::Array(xs) => {
                let mut out: Vec<JsonValue> = Vec::new();
                let mut i: usize = 0;
                while i < xs.len()
                    invariant
                        0 <= i <= xs.len(),
                        out.len() == i,
                        *self == JsonValue::Array(*xs),
                        forall|j: int| 0 <= j < i ==> same_json(#[trigger] out[j], xs[j]),
                    decreases xs.len() - i,
                {
                    proof {
                        assert(decreases_to!(*self => self->Array_0));
                        assert(decreases_to!(*xs => xs[i as int]));
                    }
                    let v = xs[i].duplicate();
                    out.push(v);
                    i = i + 1;
                }
                JsonValue::Array(out)
            },
            JsonValue::Object(xs) => {
                let mut out: Vec<(String, JsonValue)> = Vec::new();
                let mut i: usize = 0;
                while i < xs.len()
                    invariant
                        0 <= i <= xs.len(),
                        out.len() == i,
                        *self == JsonValue::Object(*xs),
                        forall|j: int|
                            0 <= j < i ==> (#[trigger] out[j]).0@ == xs[j].0@ && same_json(out[j].1, xs[j].1),
                    decreases xs.len() - i,
                {
                    let k = xs[i].0.clone();
                    proof {
                        assert(decreases_to!(*self => self->Object_0));
                        assert(decreases_to!(*xs => xs[i as int]));
                    }
                    let v = xs[i].1.duplicate();
                    out.push((k, v));
                    i = i + 1;
                }
                JsonValue::Object(out)
            },
        }
    }
}

#[verifier::external_type_specification]
#[verifier::external_body]
pub struct ExParsedJson(serde_json::Value);

/// What serde_json parses `text` into, as a plain value; `None` where it
/// refuses the text.
pub uninterp spec fn parsed_json(text: Seq<char>) -> Option<JsonValue>;

/// The compact text serde_json writes for `j`; `None` where serde_json refuses
/// the text of one of its numbers.
pub uninterp spec fn json_text_of(j: JsonValue) -> Option<Seq<char>>;

/// The debug form serde_json gives `j` (`Object {"a": Number(1)}`); `None`
/// where serde_json refuses the text of one of its numbers.
pub uninterp spec fn json_debug_of(j: JsonValue) -> Option<Seq<char>>;

/// The debug form std gives a string: quoted, with escapes.
pub uninterp spec fn debug_text_of(s: Seq<char>) -> Seq<char>;

/// Relies on the variants of serde_json::Value and on serde_json::Number's
/// Display: the plain value of a parsed document, member for member.
#[verifier::external_body]
fn plain_of(v: &serde_json::Value) -> (r: JsonValue) {
    match v {
        serde_json::Value::Null => JsonValue::Null,
        serde_json::Value::Bool(b) => JsonValue::Bool(*b),
        serde_json::Value::Number(n) => JsonValue::Number(n.to_string()),
        serde_json::Value::String(s) => JsonValue::Str(s.clone()),
        serde_json::Value::Array(a) => JsonValue::Array(a.iter().map(plain_of).collect()),
        serde_json::Value::Object(m) => JsonValue::Object(m.iter().map(|(k, x)| (k.clone(), plain_of(x))).collect()),
    }
}

/// Relies on the variants of serde_json::Value and on serde_json::Number's
/// FromStr: the document of a plain value; `None` where a number's text is refused.
#[verifier::external_body]
fn document_of(j: &JsonValue) -> (r: Option<serde_json::Value>) {
    Some(match j {
        JsonValue::Null => serde_json::Value::Null,
        JsonValue::Bool(b) => serde_json::Value::Bool(*b),
        JsonValue::Number(t) => serde_json::Value::Number(t.parse().ok()?),
        JsonValue::Str(s) => serde_json::Value::String(s.clone()),
        JsonValue::Array(a) => serde_json::Value::Array(a.iter().map(document_of).collect::<Option<_>>()?),
        JsonValue::Object(fs) => serde_json::Value::Object(
            fs.iter().map(|(k, x)| document_of(x).map(|y| (k.clone(), y))).collect::<Option<_>>()?,
        ),
    })
}

/// Relies on serde_json::from_str into serde_json::Value: the result depends on
/// the text alone.
#[verifier::external_body]
fn parse_text(text: &str) -> (r: Option<JsonValue>)
    ensures
        r == parsed_json(text@),
{
    serde_json::from_str::<serde_json::Value>(text).ok().map(|v| plain_of(&v))
}

/// Relies on serde_json::Value's Display, the compact writer: the result
/// depends on the value alone.
#[verifier::external_body]
fn write_text(j: &JsonValue) -> (r: Option<String>)
    ensures
        r matches Some(t) ==> json_text_of(*j) == Some(t@),
        r is None ==> json_text_of(*j) is None,
{
    document_of(j).map(|v| v.to_string())
}

/// Relies on serde_json::Value's Debug: the result depends on the value alone.
#[verifier::external_body]
fn write_debug(j: &JsonValue) -> (r: Option<String>)
    ensures
        r matches Some(t) ==> json_debug_of(*j) == Some(t@),
        r is None ==> json_debug_of(*j) is None,
{
    document_of(j).map(|v| format!("{:?}", v))
}

/// Relies on str's Debug: the result depends on the text alone.
#[verifier::external_body]
pub(crate) fn debug_text(s: &str) -> (r: String)
    ensures
        r@ == debug_text_of(s@),
{
    format!("{:?}", s)
}

/// Parses one JSON text into a plain value, as serde_json reads it; `None`
/// where serde_json refuses the text.
pub fn parse_json(text: &str) -> (r: Option<JsonValue>)
    ensures
        r == parsed_json(text@),
{
    parse_text(text)
}

/// The compact JSON text of a plain value, as serde_json writes it; `None`
/// where serde_json refuses the text of one of its numbers.
pub fn json_text(j: &JsonValue) -> (r: Option<String>)
    ensures
        r matches Some(t) ==> json_text_of(*j) == Some(t@),
        r is None ==> json_text_of(*j) is None,
{
    write_text(j)
}

/// The debug form serde_json gives a plain value; `None` where serde_json
/// refuses the text of one of its numbers.
pub fn json_debug(j: &JsonValue) -> (r: Option<String>)
    ensures
        r matches Some(t) ==> json_debug_of(*j) == Some(t@),
        r is None ==> json_debug_of(*j) is None,
{
    write_debug(j)
}

} // verus!
