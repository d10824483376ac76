use vstd::prelude::*;
use crate::float::{float_eq, float_equal, float_is_nan};
use crate::text::str_equal;

verus! {

/// A JSON number, as kept by the JSON data model: a non-negative integer,
/// a negative integer, or a finite floating-point value.
///
/// Floating-point values are carried by their IEEE-754 bit pattern.  Every
/// variant also carries `as_float`, the bit pattern of the number read as a
/// double (what a JSON library's `as_f64` hands back); for `Float` that is
/// the bit pattern itself.
pub enum JsonNumber {
    PosInt { unsigned: u64, as_float: u64 },
    NegInt { signed: i64, as_float: u64 },
    Float { bits: u64 },
}

/// A JSON string together with the bit pattern of its reading as a double
/// (`None` where the text does not parse as one).
pub struct JsonString {
    pub text: String,
    pub as_float: Option<u64>,
}

/// One member of a JSON object.
pub struct JsonMember {
    pub key: String,
    pub value: Json,
}

/// A JSON document.  Objects keep their members in key order with no key
/// twice (see `Json::well_formed`), as a sorted map does.
pub enum Json {
    Null,
    Bool(bool),
    Number(JsonNumber),
    Str(JsonString),
    Array(Vec<Json>),
    Object(Vec<JsonMember>),
}

/// Structural equality of two JSON documents, as a JSON library compares
/// values: numbers by kind and value (doubles by IEEE equality), strings by
/// text, arrays element by element, objects member by member.
pub open spec fn json_same(a: Json, b: Json) -> bool
    decreases a,
{
    match a {
        Json::Null => b is Null,
        Json::Bool(x) => b matches Json::Bool(y) && x == y,
        Json::Number(x) => b matches Json::Number(y) && number_same(x, y),
        Json::Str(x) => b matches Json::Str(y) && x.text@ == y.text@,
        Json::Array(xs) => b matches Json::Array(ys) && xs@.len() == ys@.len() && forall|i: int|
            0 <= i < xs@.len() ==> json_same(#[trigger] xs@[i], ys@[i]),
        Json::Object(xs) => b matches Json::Object(ys) && xs@.len() == ys@.len() && forall|i: int|
            0 <= i < xs@.len() ==> (#[trigger] xs@[i]).key@ == ys@[i].key@ && json_same(
                xs@[i].value,
                ys@[i].value,
            ),
    }
}

pub open spec fn number_same(a: JsonNumber, b: JsonNumber) -> bool {
    match a {
        JsonNumber::PosInt { unsigned: x, .. } => b matches JsonNumber::PosInt { unsigned: y, .. } && x == y,
        JsonNumber::NegInt { signed: x, .. } => b matches JsonNumber::NegInt { signed: y, .. } && x == y,
        JsonNumber::Float { bits: x } => b matches JsonNumber::Float { bits: y } && float_eq(x, y),
    }
}


/// Whether no double inside the value is a NaN (a JSON library never holds
/// one: JSON text cannot write it).
pub open spec fn json_no_nan(v: Json) -> bool
    decreases v,
{
    match v {
        Json::Number(JsonNumber::Float { bits }) => !float_is_nan(bits),
        Json::Array(xs) => forall|i: int| 0 <= i < xs@.len() ==> json_no_nan(#[trigger] xs@[i]),
        Json::Object(ms) => forall|i: int| 0 <= i < ms@.len() ==> json_no_nan((#[trigger] ms@[i]).value),
        _ => true,
    }
}

/// JSON equality is reflexive: every value without a NaN equals itself;
/// `null` equals `null`; two booleans are equal exactly when they are the
/// same boolean; two strings exactly when their texts are the same; two
/// non-negative integers exactly when they are the same number.
pub proof fn lemma_json_same_reflexive(v: Json)
    requires
        json_no_nan(v),
    ensures
        json_same(v, v),
        json_same(Json::Null, Json::Null),
        forall|x: bool, y: bool| json_same(Json::Bool(x), Json::Bool(y)) <==> x == y,
        forall|s: JsonString, t: JsonString| json_same(Json::Str(s), Json::Str(t)) <==> s.text@ == t.text@,
        forall|x: u64, fx: u64, y: u64, fy: u64|
            json_same(
                Json::Number(JsonNumber::PosInt { unsigned: x, as_float: fx }),
                Json::Number(JsonNumber::PosInt { unsigned: y, as_float: fy }),
            ) <==> x == y,
    decreases v,
{
    match v {
        Json::Array(xs) => {
            assert forall|i: int| 0 <= i < xs@.len() implies json_same(#[trigger] xs@[i], xs@[i]) by {
                assert(decreases_to!(v => xs@[i]));
                lemma_json_same_reflexive(xs@[i]);
            }
        },
        Json::Object(ms) => {
            assert forall|i: int| 0 <= i < ms@.len() implies json_same(
                (#[trigger] ms@[i]).value,
                ms@[i].value,
            ) by {
                assert(decreases_to!(v => ms@[i].value));
                lemma_json_same_reflexive(ms@[i].value);
            }
        },
        _ => {},
    }
}

/// JSON equality is symmetric: comparing `b` with `a` gives what comparing
/// `a` with `b` gives.
pub proof fn lemma_json_same_symmetric(a: Json, b: Json)
    ensures
        json_same(a, b) == json_same(b, a),
    decreases a,
{
    match a {
        Json::Array(xs) => {
            if let Json::Array(ys) = b {
                if xs@.len() == ys@.len() {
                    assert forall|i: int| 0 <= i < xs@.len() implies json_same(#[trigger] xs@[i], ys@[i])
                        == json_same(ys@[i], xs@[i]) by {
                        assert(decreases_to!(a => xs@[i]));
                        lemma_json_same_symmetric(xs@[i], ys@[i]);
                    }
                }
            }
        },
        Json::Object(xs) => {
            if let Json::Object(ys) = b {
                if xs@.len() == ys@.len() {
                    assert forall|i: int| 0 <= i < xs@.len() implies json_same(
                        (#[trigger] xs@[i]).value,
                        ys@[i].value,
                    ) == json_same(ys@[i].value, xs@[i].value) by {
                        assert(decreases_to!(a => xs@[i].value));
                        lemma_json_same_symmetric(xs@[i].value, ys@[i].value);
                    }
                }
            }
        },
        _ => {},
    }
}

/// The value of the first member of `members` whose key is `key`.
pub open spec fn member_lookup(members: Seq<JsonMember>, key: Seq<char>) -> Option<Json>
    decreases members.len(),
{
    if members.len() == 0 {
        None
    } else if members[0].key@ == key {
        Some(members[0].value)
    } else {
        member_lookup(members.drop_first(), key)
    }
}

/// What indexing a JSON value by a key gives: the member's value for an
/// object that has the key, nothing otherwise.
pub open spec fn json_get(v: Json, key: Seq<char>) -> Option<Json> {
    match v {
        Json::Object(members) => member_lookup(members@, key),
        _ => None,
    }
}

/// Looking a key up finds a member with that key and gives its value, and
/// finds one whenever the object has a member with that key; values other
/// than objects have no members.
pub proof fn lemma_json_get_finds_member(v: Json, key: Seq<char>)
    ensures
        json_get(v, key) matches Some(x) ==> (v matches Json::Object(ms) && exists|i: int|
            0 <= i < ms@.len() && (#[trigger] ms@[i]).key@ == key && ms@[i].value == x),
        (v matches Json::Object(ms) && exists|i: int| 0 <= i < ms@.len() && (#[trigger] ms@[i]).key@ == key)
            ==> json_get(v, key) is Some,
        !(v is Object) ==> json_get(v, key) is None,
{
    if let Json::Object(ms) = v {
        lemma_member_lookup(ms@, key);
    }
}

proof fn lemma_member_lookup(ms: Seq<JsonMember>, key: Seq<char>)
    ensures
        member_lookup(ms, key) matches Some(x) ==> exists|i: int|
            0 <= i < ms.len() && (#[trigger] ms[i]).key@ == key && ms[i].value == x,
        (exists|i: int| 0 <= i < ms.len() && (#[trigger] ms[i]).key@ == key) ==> member_lookup(ms, key) is Some,
    decreases ms.len(),
{
    if ms.len() > 0 {
        lemma_member_lookup(ms.drop_first(), key);
        if let Some(x) = member_lookup(ms, key) {
            if ms[0].key@ != key {
                let i = choose|i: int| 0 <= i < ms.drop_first().len() && (#[trigger] ms.drop_first()[i]).key@ == key
                    && ms.drop_first()[i].value == x;
                assert(ms[i + 1] == ms.drop_first()[i]);
            }
        }
        if exists|i: int| 0 <= i < ms.len() && (#[trigger] ms[i]).key@ == key {
            let i = choose|i: int| 0 <= i < ms.len() && (#[trigger] ms[i]).key@ == key;
            if i > 0 {
                assert(ms.drop_first()[i - 1] == ms[i]);
            }
        }
    }
}

/// The text of a JSON string, nothing for any other value.
pub open spec fn json_as_str(v: Json) -> Option<Seq<char>> {
    match v {
        Json::Str(s) => Some(s.text@),
        _ => None,
    }
}

/// Strictly increasing order of texts, character by character.
pub open spec fn text_less(a: Seq<char>, b: Seq<char>) -> bool
    decreases a.len(),
{
    if b.len() == 0 {
        false
    } else if a.len() == 0 {
        true
    } else if a[0] != b[0] {
        (a[0] as u32) < (b[0] as u32)
    } else {
        text_less(a.drop_first(), b.drop_first())
    }
}

impl Json {
    /// The shape that a JSON library's sorted maps give: the members of
    /// every object in strictly increasing key order.
    pub open spec fn well_formed(self) -> bool
        decreases self,
    {
        match self {
            Json::Array(xs) => forall|i: int| 0 <= i < xs@.len() ==> (#[trigger] xs@[i]).well_formed(),
            Json::Object(ms) => (forall|i: int| 0 <= i < ms@.len() ==> (#[trigger] ms@[i]).value.well_formed())
                && (forall|i: int, j: int| 0 <= i < j < ms@.len() ==> text_less(#[trigger] ms@[i].key@, #[trigger] ms@[j].key@)),
            _ => true,
        }
    }

    /// Looks `key` up in an object (`Value::get` with a text index).
    #[verifier::loop_isolation(false)]
    pub fn get(&self, key: &str) -> (r: Option<&Json>)
        ensures
            match r {
                Some(v) => json_get(*self, key@) == Some(*v),
                None => json_get(*self, key@) is None,
            },
    {
        match self {
            Json::Object(members) => {
                let n = members.len();
                let mut i: usize = 0;
                assert(members@.skip(0) =~= members@);
                while i < n
                    invariant
                        n == members@.len(),
                        i <= n,
                        member_lookup(members@, key@) == member_lookup(members@.skip(i as int), key@),
                    decreases n - i,
                {
                    let m = &members[i];
                    if str_equal(m.key.as_str(), key) {
                        assert(members@.skip(i as int).len() > 0);
                        assert(members@.skip(i as int)[0] == members@[i as int]);
                        return Some(&m.value);
                    }
                    assert(members@.skip(i as int).drop_first() =~= members@.skip(i + 1));
                    i = i + 1;
                }
                assert(members@.skip(n as int).len() == 0);
                None
            },
            _ => None,
        }
    }

    /// The text of a string value (`Value::as_str`).
    pub fn as_str(&self) -> (r: Option<&str>)
        ensures
            match r {
                Some(s) => json_as_str(*self) == Some(s@),
                None => json_as_str(*self) is None,
            },
    {
        match self {
            Json::Str(s) => Some(s.text.as_str()),
            _ => None,
        }
    }
}

fn number_equal(a: &JsonNumber, b: &JsonNumber) -> (r: bool)
    ensures
        r == number_same(*a, *b),
{
    match (a, b) {
        (JsonNumber::PosInt { unsigned: x, .. }, JsonNumber::PosInt { unsigned: y, .. }) => *x == *y,
        (JsonNumber::NegInt { signed: x, .. }, JsonNumber::NegInt { signed: y, .. }) => *x == *y,
        (JsonNumber::Float { bits: x }, JsonNumber::Float { bits: y }) => float_equal(*x, *y),
        _ => false,
    }
}

/// Structural equality of two JSON documents (`==` on JSON values).
#[verifier::loop_isolation(false)]
pub fn json_equal(a: &Json, b: &Json) -> (r: bool)
    ensures
        r == json_same(*a, *b),
    decreases a,
{
    match (a, b) {
        (Json::Null, Json::Null) => true,
        (Json::Bool(x), Json::Bool(y)) => *x == *y,
        (Json::Number(x), Json::Number(y)) => number_equal(x, y),
        (Json::Str(x), Json::Str(y)) => str_equal(x.text.as_str(), y.text.as_str()),
        (Json::Array(xs), Json::Array(ys)) => {
            let n = xs.len();
            if n != ys.len() {
                return false;
            }
            let mut i: usize = 0;
            while i < n
                invariant
                    n == xs@.len(),
                    n == ys@.len(),
                    i <= n,
                    forall|k: int| 0 <= k < i ==> json_same(#[trigger] xs@[k], ys@[k]),
                decreases n - i,
            {
                proof {
                    assert(decreases_to!(*a => xs@[i as int]));
                }
                if !json_equal(&xs[i], &ys[i]) {
                    return false;
                }
                i = i + 1;
            }
            true
        },
        (Json::Object(xs), Json::Object(ys)) => {
            let n = xs.len();
            if n != ys.len() {
                return false;
            }
            let mut i: usize = 0;
            while i < n
                invariant
                    n == xs@.len(),
                    n == ys@.len(),
                    i <= n,
                    forall|k: int|
                        0 <= k < i ==> (#[trigger] xs@[k]).key@ == ys@[k].key@ && json_same(
                            xs@[k].value,
                            ys@[k].value,
                        ),
                decreases n - i,
            {
                if !str_equal(xs[i].key.as_str(), ys[i].key.as_str()) {
                    return false;
                }
                proof {
                    assert(decreases_to!(*a => xs@[i as int].value));
                }
                if !json_equal(&xs[i].value, &ys[i].value) {
                    return false;
                }
                i = i + 1;
            }
            true
        },
        _ => false,
    }
}

} // verus!
