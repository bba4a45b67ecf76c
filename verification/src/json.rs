//! A JSON value model: the library's own form of the JSON documents that
//! tool calls carry and that tool definitions describe. Numbers keep what
//! `serde_json` distinguishes: non-negative integers, negative integers,
//! and other numbers, kept as their text.
use vstd::prelude::*;
use crate::text::chars_eq;
use crate::text::chars_of;

verus! {

/// A JSON number.
#[derive(Clone, Debug)]
pub enum JsonNumber {
    /// A non-negative integer.
    PosInt(u64),
    /// A negative integer.
    NegInt(i64),
    /// Any other number, by its JSON text.
    Float(String),
}

/// A JSON value. Object members keep their order; keys are looked up by
/// their first occurrence.
#[derive(Debug)]
pub enum JsonValue {
    Null,
    Bool(bool),
    Number(JsonNumber),
    String(String),
    Array(Vec<JsonValue>),
    Object(Vec<(String, JsonValue)>),
}

/// The mathematical form of a `JsonNumber`.
pub enum JsonNumberView {
    PosInt(u64),
    NegInt(i64),
    Float(Seq<char>),
}

/// The mathematical form of a `JsonValue`.
pub enum JsonView {
    Null,
    Bool(bool),
    Number(JsonNumberView),
    String(Seq<char>),
    Array(Seq<JsonView>),
    Object(Seq<(Seq<char>, JsonView)>),
}

impl View for JsonNumber {
    type V = JsonNumberView;

    open spec fn view(&self) -> JsonNumberView {
        match self {
            JsonNumber::PosInt(n) => JsonNumberView::PosInt(*n),
            JsonNumber::NegInt(n) => JsonNumberView::NegInt(*n),
            JsonNumber::Float(t) => JsonNumberView::Float(t@),
        }
    }
}

/// The views of a sequence of values.
pub open spec fn views_of(items: Seq<JsonValue>) -> Seq<JsonView>
    decreases items,
{
    if items.len() == 0 {
        seq![]
    } else {
        seq![json_view(items[0])] + views_of(items.subrange(1, items.len() as int))
    }
}

/// The views of a sequence of object members.
pub open spec fn member_views_of(members: Seq<(String, JsonValue)>) -> Seq<(Seq<char>, JsonView)>
    decreases members,
{
    if members.len() == 0 {
        seq![]
    } else {
        seq![(members[0].0@, json_view(members[0].1))] + member_views_of(
            members.subrange(1, members.len() as int),
        )
    }
}

/// The mathematical form of `v`.
pub open spec fn json_view(v: JsonValue) -> JsonView
    decreases v,
{
    match v {
        JsonValue::Null => JsonView::Null,
        JsonValue::Bool(b) => JsonView::Bool(b),
        JsonValue::Number(n) => JsonView::Number(n@),
        JsonValue::String(s) => JsonView::String(s@),
        JsonValue::Array(items) => JsonView::Array(views_of(items@)),
        JsonValue::Object(members) => JsonView::Object(member_views_of(members@)),
    }
}

impl View for JsonValue {
    type V = JsonView;

    open spec fn view(&self) -> JsonView {
        json_view(*self)
    }
}


pub proof fn lemma_views_of(items: Seq<JsonValue>)
    ensures
        views_of(items).len() == items.len(),
        forall|i: int| 0 <= i < items.len() ==> #[trigger] views_of(items)[i] == json_view(items[i]),
    decreases items.len(),
{
    if items.len() > 0 {
        let rest = items.subrange(1, items.len() as int);
        lemma_views_of(rest);
        assert forall|i: int| 0 <= i < items.len() implies #[trigger] views_of(items)[i] == json_view(
            items[i],
        ) by {
            if i > 0 {
                assert(rest[i - 1] == items[i]);
            }
        }
    }
}

pub proof fn lemma_member_views_of(members: Seq<(String, JsonValue)>)
    ensures
        member_views_of(members).len() == members.len(),
        forall|i: int|
            0 <= i < members.len() ==> #[trigger] member_views_of(members)[i] == (
                members[i].0@,
                json_view(members[i].1),
            ),
    decreases members.len(),
{
    if members.len() > 0 {
        let rest = members.subrange(1, members.len() as int);
        lemma_member_views_of(rest);
        assert forall|i: int| 0 <= i < members.len() implies #[trigger] member_views_of(members)[i] == (
            members[i].0@,
            json_view(members[i].1),
        ) by {
            if i > 0 {
                assert(rest[i - 1] == members[i]);
            }
        }
    }
}

/// The value of the first member named `key`, from position `j` on.
pub open spec fn member_lookup(members: Seq<(Seq<char>, JsonView)>, key: Seq<char>, j: int) -> Option<
    JsonView,
>
    decreases members.len() - j,
{
    if j < 0 || j >= members.len() {
        None
    } else if members[j].0 == key {
        Some(members[j].1)
    } else {
        member_lookup(members, key, j + 1)
    }
}

/// `Value::get` with a string key: the member named `key` of an object;
/// nothing for any other value.
pub open spec fn json_get(v: JsonView, key: Seq<char>) -> Option<JsonView> {
    match v {
        JsonView::Object(members) => member_lookup(members, key, 0),
        _ => None,
    }
}

/// `args.get(key).and_then(|v| v.as_str())`.
pub open spec fn str_member(v: JsonView, key: Seq<char>) -> Option<Seq<char>> {
    match json_get(v, key) {
        Some(JsonView::String(s)) => Some(s),
        _ => None,
    }
}

/// `args.get(key).and_then(|v| v.as_u64())`: only non-negative integers
/// give a number.
pub open spec fn u64_member(v: JsonView, key: Seq<char>) -> Option<u64> {
    match json_get(v, key) {
        Some(JsonView::Number(JsonNumberView::PosInt(n))) => Some(n),
        _ => None,
    }
}

impl JsonValue {
    /// The member named `key` of an object (`Value::get`).
    pub fn get(&self, key: &str) -> (r: Option<&JsonValue>)
        ensures
            match r {
                Some(x) => json_get(self@, key@) == Some(x@),
                None => json_get(self@, key@) is None,
            },
    {
        match self {
            JsonValue::Object(members) => {
                let k = chars_of(key);
                let n = members.len();
                let mut j: usize = 0;
                proof {
                    lemma_member_views_of(members@);
                }
                while j < n
                    invariant
                        n == members@.len(),
                        j <= n,
                        k@ == key@,
                        self@ == JsonView::Object(member_views_of(members@)),
                        member_views_of(members@).len() == n,
                        forall|i: int|
                            0 <= i < n ==> #[trigger] member_views_of(members@)[i] == (
                                members@[i].0@,
                                json_view(members@[i].1),
                            ),
                        member_lookup(member_views_of(members@), key@, j as int) == member_lookup(
                            member_views_of(members@),
                            key@,
                            0,
                        ),
                    decreases n - j,
                {
                    let name = chars_of(members[j].0.as_str());
                    if chars_eq(&name, &k) {
                        return Some(&members[j].1);
                    }
                    j = j + 1;
                }
                None
            },
            _ => None,
        }
    }

    /// The text of a JSON string (`Value::as_str`).
    pub fn as_str(&self) -> (r: Option<&str>)
        ensures
            match r {
                Some(t) => self@ == JsonView::String(t@),
                None => !(self@ is String),
            },
    {
        match self {
            JsonValue::String(s) => Some(s.as_str()),
            _ => None,
        }
    }

    /// A non-negative integer (`Value::as_u64`).
    pub fn as_u64(&self) -> (r: Option<u64>)
        ensures
            match r {
                Some(n) => self@ == JsonView::Number(JsonNumberView::PosInt(n)),
                None => !(self@ matches JsonView::Number(JsonNumberView::PosInt(_))),
            },
    {
        match self {
            JsonValue::Number(JsonNumber::PosInt(n)) => Some(*n),
            _ => None,
        }
    }

}

/// `str_member` on an exec value.
pub fn get_str(args: &JsonValue, key: &str) -> (r: Option<String>)
    ensures
        match r {
            Some(t) => str_member(args@, key@) == Some(t@),
            None => str_member(args@, key@) is None,
        },
{
    match args.get(key) {
        Some(v) => match v.as_str() {
            Some(t) => Some(String::from_str(t)),
            None => None,
        },
        None => None,
    }
}

/// `u64_member` on an exec value.
pub fn get_u64(args: &JsonValue, key: &str) -> (r: Option<u64>)
    ensures
        r == u64_member(args@, key@),
{
    match args.get(key) {
        Some(v) => v.as_u64(),
        None => None,
    }
}


impl JsonNumber {
    /// A copy of this number.
    pub fn duplicate(&self) -> (r: JsonNumber)
        ensures
            r@ == self@,
    {
        match self {
            JsonNumber::PosInt(n) => JsonNumber::PosInt(*n),
            JsonNumber::NegInt(n) => JsonNumber::NegInt(*n),
            JsonNumber::Float(t) => JsonNumber::Float(String::from_str(t.as_str())),
        }
    }
}

impl JsonValue {
    /// A deep copy of this value.
    pub fn duplicate(&self) -> (r: JsonValue)
        ensures
            r@ == self@,
        decreases self,
    {
        match self {
            JsonValue::Null => JsonValue::Null,
            JsonValue::Bool(b) => JsonValue::Bool(*b),
            JsonValue::Number(n) => JsonValue::Number(n.duplicate()),
            JsonValue::String(s) => JsonValue::String(String::from_str(s.as_str())),
            JsonValue::Array(items) => {
                let mut out: Vec<JsonValue> = Vec::new();
                let mut i: usize = 0;
                proof {
                    lemma_views_of(items@);
                }
                while i < items.len()
                    invariant
                        *self == JsonValue::Array(*items),
                        i <= items@.len(),
                        out@.len() == i,
                        views_of(items@).len() == items@.len(),
                        forall|k: int|
                            0 <= k < items@.len() ==> #[trigger] views_of(items@)[k] == json_view(
                                items@[k],
                            ),
                        forall|k: int| 0 <= k < i ==> json_view(#[trigger] out@[k]) == json_view(items@[k]),
                    decreases items@.len() - i,
                {
                    proof {
                        assert(decreases_to!(*self => (*self)->Array_0));
                        assert(decreases_to!(*items => items@));
                        assert(decreases_to!(items@ => items@[i as int]));
                    }
                    let c = items[i].duplicate();
                    out.push(c);
                    i = i + 1;
                }
                proof {
                    lemma_views_of(out@);
                    assert(views_of(out@) =~= views_of(items@));
                }
                JsonValue::Array(out)
            },
            JsonValue::Object(members) => {
                let mut out: Vec<(String, JsonValue)> = Vec::new();
                let mut i: usize = 0;
                proof {
                    lemma_member_views_of(members@);
                }
                while i < members.len()
                    invariant
                        *self == JsonValue::Object(*members),
                        i <= members@.len(),
                        out@.len() == i,
                        member_views_of(members@).len() == members@.len(),
                        forall|k: int|
                            0 <= k < members@.len() ==> #[trigger] member_views_of(members@)[k] == (
                                members@[k].0@,
                                json_view(members@[k].1),
                            ),
                        forall|k: int|
                            0 <= k < i ==> (#[trigger] out@[k]).0@ == members@[k].0@ && json_view(
                                out@[k].1,
                            ) == json_view(members@[k].1),
                    decreases members@.len() - i,
                {
                    let key = String::from_str(members[i].0.as_str());
                    proof {
                        assert(decreases_to!(*self => (*self)->Object_0));
                        assert(decreases_to!(*members => members@));
                        assert(decreases_to!(members@ => members@[i as int]));
                        assert(decreases_to!(members@[i as int] => members@[i as int].1));
                    }
                    let value = members[i].1.duplicate();
                    out.push((key, value));
                    i = i + 1;
                }
                proof {
                    lemma_member_views_of(out@);
                    assert(member_views_of(out@) =~= member_views_of(members@));
                }
                JsonValue::Object(out)
            },
        }
    }
}

/// An object with the given members, in order.
pub fn object_of(members: Vec<(String, JsonValue)>) -> (r: JsonValue)
    ensures
        r@ == JsonView::Object(Seq::new(members@.len(), |i: int| (members@[i].0@, members@[i].1@))),
{
    proof {
        lemma_member_views_of(members@);
        assert(member_views_of(members@) =~= Seq::new(
            members@.len(),
            |i: int| (members@[i].0@, members@[i].1@),
        ));
    }
    JsonValue::Object(members)
}

/// An array with the given items, in order.
pub fn array_of(items: Vec<JsonValue>) -> (r: JsonValue)
    ensures
        r@ == JsonView::Array(Seq::new(items@.len(), |i: int| items@[i]@)),
{
    proof {
        lemma_views_of(items@);
        assert(views_of(items@) =~= Seq::new(items@.len(), |i: int| items@[i]@));
    }
    JsonValue::Array(items)
}

/// A JSON string.
pub fn json_string(s: &str) -> (r: JsonValue)
    ensures
        r@ == JsonView::String(s@),
{
    JsonValue::String(String::from_str(s))
}

/// A JSON non-negative integer.
pub fn json_uint(n: u64) -> (r: JsonValue)
    ensures
        r@ == JsonView::Number(JsonNumberView::PosInt(n)),
{
    JsonValue::Number(JsonNumber::PosInt(n))
}

/// A member `(key, value)` of an object.
pub fn member(key: &str, value: JsonValue) -> (m: (String, JsonValue))
    ensures
        m.0@ == key@,
        m.1@ == value@,
{
    (String::from_str(key), value)
}

} // verus!
