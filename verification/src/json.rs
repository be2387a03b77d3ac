//! A JSON value model: what the library reads from and builds into JSON
//! documents (tool arguments and results, connector responses, metadata).

use vstd::prelude::*;

verus! {

broadcast use {vstd::std_specs::vec::group_vec_axioms, vstd::string::group_string_axioms};

/// A JSON number as it was read: a non-negative integer, a negative integer, or
/// any other number kept as its decimal text.
#[derive(Debug)]
pub enum JsonNumber {
    PosInt(u64),
    NegInt(i64),
    Float(String),
}

/// A JSON value. Object members keep their order; a key is looked up at its
/// first occurrence.
#[derive(Debug)]
pub enum JsonValue {
    Null,
    Bool(bool),
    Number(JsonNumber),
    String(String),
    Array(Vec<JsonValue>),
    Object(Vec<(String, JsonValue)>),
}

/// The mathematical content of a JSON value.
pub enum Json {
    Null,
    Bool(bool),
    PosInt(u64),
    NegInt(i64),
    Float(Seq<char>),
    Str(Seq<char>),
    Arr(Seq<Json>),
    Obj(Seq<(Seq<char>, Json)>),
}

/// The first value of `key` among the members.
pub open spec fn lookup(members: Seq<(Seq<char>, Json)>, key: Seq<char>) -> Option<Json>
    decreases members.len(),
{
    if members.len() == 0 {
        None
    } else if members[0].0 == key {
        Some(members[0].1)
    } else {
        lookup(members.drop_first(), key)
    }
}

/// The member `key` of an object (`Value::get`); nothing for other values.
pub open spec fn field(v: Json, key: Seq<char>) -> Option<Json> {
    match v {
        Json::Obj(ms) => lookup(ms, key),
        _ => None,
    }
}

/// The entries that `pick` accepts, in order, as `pick` maps them.
pub open spec fn picked<T>(es: Seq<Json>, pick: spec_fn(Json) -> Option<T>) -> Seq<T>
    decreases es.len(),
{
    if es.len() == 0 {
        Seq::empty()
    } else {
        picked(es.drop_last(), pick) + match pick(es.last()) {
            Some(x) => seq![x],
            None => Seq::empty(),
        }
    }
}

/// The members whose keys `keep` accepts, in order.
pub open spec fn kept_members(
    ms: Seq<(Seq<char>, Json)>,
    keep: spec_fn(Seq<char>) -> bool,
) -> Seq<(Seq<char>, Json)>
    decreases ms.len(),
{
    if ms.len() == 0 {
        Seq::empty()
    } else {
        kept_members(ms.drop_last(), keep) + if keep(ms.last().0) {
            seq![ms.last()]
        } else {
            Seq::empty()
        }
    }
}

/// No key occurs twice among the members.
pub open spec fn distinct_keys(ms: Seq<(Seq<char>, Json)>) -> bool {
    forall|i: int, j: int| 0 <= i < j < ms.len() ==> #[trigger] ms[i].0 != #[trigger] ms[j].0
}

/// Every member kept is a member of the original members.
pub proof fn lemma_kept_members_from(ms: Seq<(Seq<char>, Json)>, keep: spec_fn(Seq<char>) -> bool)
    ensures
        forall|k: int|
            0 <= k < kept_members(ms, keep).len() ==> exists|j: int|
                0 <= j < ms.len() && ms[j] == #[trigger] kept_members(ms, keep)[k],
    decreases ms.len(),
{
    if ms.len() > 0 {
        let init = ms.drop_last();
        lemma_kept_members_from(init, keep);
        let km = kept_members(ms, keep);
        let ki = kept_members(init, keep);
        assert forall|k: int| 0 <= k < km.len() implies exists|j: int|
            0 <= j < ms.len() && ms[j] == #[trigger] km[k] by {
            if k < ki.len() {
                assert(km[k] == ki[k]);
                let j = choose|j: int| 0 <= j < init.len() && init[j] == ki[k];
                assert(ms[j] == init[j]);
            } else {
                assert(km[k] == ms.last());
                assert(ms[ms.len() - 1] == km[k]);
            }
        }
    }
}

/// Keeping some members of members with distinct keys leaves distinct keys.
pub proof fn lemma_kept_members_distinct(ms: Seq<(Seq<char>, Json)>, keep: spec_fn(Seq<char>) -> bool)
    requires
        distinct_keys(ms),
    ensures
        distinct_keys(kept_members(ms, keep)),
    decreases ms.len(),
{
    if ms.len() > 0 {
        let init = ms.drop_last();
        assert(distinct_keys(init)) by {
            assert forall|i: int, j: int| 0 <= i < j < init.len() implies #[trigger] init[i].0
                != #[trigger] init[j].0 by {
                assert(init[i] == ms[i] && init[j] == ms[j]);
            }
        }
        lemma_kept_members_distinct(init, keep);
        lemma_kept_members_from(init, keep);
        let km = kept_members(ms, keep);
        let ki = kept_members(init, keep);
        assert forall|i: int, j: int| 0 <= i < j < km.len() implies #[trigger] km[i].0
            != #[trigger] km[j].0 by {
            if j < ki.len() {
                assert(km[i] == ki[i] && km[j] == ki[j]);
            } else {
                assert(km[j] == ms.last());
                assert(km[i] == ki[i]);
                let a = choose|a: int| 0 <= a < init.len() && init[a] == #[trigger] ki[i];
                assert(ms[a] == init[a]);
                assert(ms[a].0 != ms[ms.len() - 1].0);
            }
        }
    }
}

/// The member `key` of a value that may be absent.
pub open spec fn field_of(v: Option<Json>, key: Seq<char>) -> Option<Json> {
    match v {
        Some(j) => field(j, key),
        None => None,
    }
}

/// The text of a string value (`Value::as_str`).
pub open spec fn text_of(v: Option<Json>) -> Option<Seq<char>> {
    match v {
        Some(Json::Str(s)) => Some(s),
        _ => None,
    }
}

/// The value of a non-negative integer (`Value::as_u64`).
pub open spec fn u64_of(v: Option<Json>) -> Option<u64> {
    match v {
        Some(Json::PosInt(n)) => Some(n),
        _ => None,
    }
}

/// The elements of an array (`Value::as_array`).
pub open spec fn elems_of(v: Option<Json>) -> Option<Seq<Json>> {
    match v {
        Some(Json::Arr(a)) => Some(a),
        _ => None,
    }
}

/// The members of an object (`Value::as_object`).
pub open spec fn members_of(v: Option<Json>) -> Option<Seq<(Seq<char>, Json)>> {
    match v {
        Some(Json::Obj(m)) => Some(m),
        _ => None,
    }
}

/// Whether the value is a number (what `Value::as_f64` accepts).
pub open spec fn is_number(v: Option<Json>) -> bool {
    match v {
        Some(Json::PosInt(_)) | Some(Json::NegInt(_)) | Some(Json::Float(_)) => true,
        _ => false,
    }
}

impl JsonNumber {
    pub open spec fn data(&self) -> Json {
        match self {
            JsonNumber::PosInt(n) => Json::PosInt(*n),
            JsonNumber::NegInt(n) => Json::NegInt(*n),
            JsonNumber::Float(t) => Json::Float(t@),
        }
    }

    pub fn duplicate(&self) -> (r: JsonNumber)
        ensures
            r.data() == self.data(),
    {
        match self {
            JsonNumber::PosInt(n) => JsonNumber::PosInt(*n),
            JsonNumber::NegInt(n) => JsonNumber::NegInt(*n),
            JsonNumber::Float(t) => JsonNumber::Float(t.clone()),
        }
    }
}

/// The contents of the elements of an array.
pub open spec fn elems_data(v: Seq<JsonValue>) -> Seq<Json> {
    Seq::new(v.len(), |i: int| v[i].data())
}

/// The contents of the members of an object.
pub open spec fn members_data(v: Seq<(String, JsonValue)>) -> Seq<(Seq<char>, Json)> {
    Seq::new(v.len(), |i: int| (v[i].0@, v[i].1.data()))
}

impl JsonValue {
    /// The mathematical content of the value.
    pub open spec fn data(&self) -> Json
        decreases self,
    {
        match self {
            JsonValue::Null => Json::Null,
            JsonValue::Bool(b) => Json::Bool(*b),
            JsonValue::Number(n) => n.data(),
            JsonValue::String(s) => Json::Str(s@),
            JsonValue::Array(v) => Json::Arr(
                Seq::new(
                    v@.len(),
                    |i: int|
                        if 0 <= i < v@.len() {
                            v@[i].data()
                        } else {
                            Json::Null
                        },
                ),
            ),
            JsonValue::Object(v) => Json::Obj(
                Seq::new(
                    v@.len(),
                    |i: int|
                        if 0 <= i < v@.len() {
                            (v@[i].0@, v@[i].1.data())
                        } else {
                            (Seq::empty(), Json::Null)
                        },
                ),
            ),
        }
    }

    /// A copy of the value.
    pub fn duplicate(&self) -> (r: JsonValue)
        ensures
            r.data() == self.data(),
        decreases self,
    {
        match self {
            JsonValue::Null => JsonValue::Null,
            JsonValue::Bool(b) => JsonValue::Bool(*b),
            JsonValue::Number(n) => JsonValue::Number(n.duplicate()),
            JsonValue::String(s) => JsonValue::String(s.clone()),
            JsonValue::Array(v) => {
                let mut out: Vec<JsonValue> = Vec::new();
                let mut i: usize = 0;
                while i < v.len()
                    invariant
                        i <= v@.len(),
                        out@.len() == i,
                        *self == JsonValue::Array(*v),
                        forall|k: int| 0 <= k < i ==> #[trigger] out@[k].data() == v@[k].data(),
                    decreases v@.len() - i,
                {
                    proof {
                        assert(decreases_to!(*v => v[i as int]));
                        assert(self->Array_0 == *v);
                        assert(decreases_to!(*self => self->Array_0));
                    }
                    out.push(v[i].duplicate());
                    i = i + 1;
                }
                let r = JsonValue::Array(out);
                assert forall|k: int| 0 <= k < out@.len() implies r.data()->Arr_0[k]
                    == self.data()->Arr_0[k] by {
                    assert(out@[k].data() == v@[k].data());
                }
                assert(r.data()->Arr_0 =~= self.data()->Arr_0);
                r
            },
            JsonValue::Object(v) => {
                let mut out: Vec<(String, JsonValue)> = Vec::new();
                let mut i: usize = 0;
                while i < v.len()
                    invariant
                        i <= v@.len(),
                        out@.len() == i,
                        *self == JsonValue::Object(*v),
                        forall|k: int|
                            0 <= k < i ==> (#[trigger] out@[k]).0@ == v@[k].0@ && out@[k].1.data()
                                == v@[k].1.data(),
                    decreases v@.len() - i,
                {
                    proof {
                        assert(decreases_to!(*v => v[i as int]));
                        assert(decreases_to!(v[i as int] => v[i as int].1));
                        assert(self->Object_0 == *v);
                        assert(decreases_to!(*self => self->Object_0));
                    }
                    let value = v[i].1.duplicate();
                    out.push((v[i].0.clone(), value));
                    i = i + 1;
                }
                let r = JsonValue::Object(out);
                assert forall|k: int| 0 <= k < out@.len() implies r.data()->Obj_0[k]
                    == self.data()->Obj_0[k] by {
                    assert(out@[k].0@ == v@[k].0@ && out@[k].1.data() == v@[k].1.data());
                }
                assert(r.data()->Obj_0 =~= self.data()->Obj_0);
                r
            },
        }
    }

    /// The member `key` of an object (`Value::get`).
    pub fn get(&self, key: &str) -> (r: Option<&JsonValue>)
        ensures
            r matches Some(v) ==> field(self.data(), key@) == Some(v.data()),
            r is None ==> field(self.data(), key@) is None,
    {
        match self {
            JsonValue::Object(ms) => {
                let ghost d = self.data()->Obj_0;
                let key_chars = crate::text::chars_of(key);
                let mut i: usize = 0;
                assert(d.skip(0) =~= d);
                while i < ms.len()
                    invariant
                        i <= ms@.len(),
                        d.len() == ms@.len(),
                        *self == JsonValue::Object(*ms),
                        d == self.data()->Obj_0,
                        key_chars@ == key@,
                        lookup(d, key@) == lookup(d.skip(i as int), key@),
                    decreases ms@.len() - i,
                {
                    let ghost rest = d.skip(i as int);
                    assert(rest[0] == d[i as int]);
                    assert(d[i as int] == (ms@[i as int].0@, ms@[i as int].1.data()));
                    if crate::text::chars_eq(
                        crate::text::chars_of(ms[i].0.as_str()).as_slice(),
                        key_chars.as_slice(),
                    ) {
                        return Some(&ms[i].1);
                    }
                    assert(rest.drop_first() =~= d.skip(i + 1));
                    i = i + 1;
                }
                assert(d.skip(i as int).len() == 0);
                None
            },
            _ => None,
        }
    }

    /// The text of a string value (`Value::as_str`).
    pub fn as_str(&self) -> (r: Option<&str>)
        ensures
            r matches Some(s) ==> self.data() == Json::Str(s@),
            r is None ==> !(self.data() is Str),
    {
        match self {
            JsonValue::String(s) => Some(s.as_str()),
            JsonValue::Number(n) => None,
            _ => None,
        }
    }

    /// The value of a non-negative integer (`Value::as_u64`).
    pub fn as_u64(&self) -> (r: Option<u64>)
        ensures
            r == u64_of(Some(self.data())),
    {
        match self {
            JsonValue::Number(JsonNumber::PosInt(n)) => Some(*n),
            _ => None,
        }
    }

    /// The elements of an array (`Value::as_array`).
    pub fn as_array(&self) -> (r: Option<&Vec<JsonValue>>)
        ensures
            r matches Some(v) ==> self.data() == Json::Arr(elems_data(v@)),
            r is None ==> !(self.data() is Arr),
    {
        match self {
            JsonValue::Array(v) => {
                assert(self.data()->Arr_0 =~= elems_data(v@));
                Some(v)
            },
            JsonValue::Number(n) => None,
            _ => None,
        }
    }

    /// The members of an object (`Value::as_object`).
    pub fn as_object(&self) -> (r: Option<&Vec<(String, JsonValue)>>)
        ensures
            r matches Some(v) ==> self.data() == Json::Obj(members_data(v@)),
            r is None ==> !(self.data() is Obj),
    {
        match self {
            JsonValue::Object(v) => {
                assert(self.data()->Obj_0 =~= members_data(v@));
                Some(v)
            },
            JsonValue::Number(n) => None,
            _ => None,
        }
    }

    /// Whether the value is a number (what `Value::as_f64` accepts).
    pub fn is_number(&self) -> (b: bool)
        ensures
            b == is_number(Some(self.data())),
    {
        match self {
            JsonValue::Number(_) => true,
            _ => false,
        }
    }

    /// A string value.
    pub fn text(s: &str) -> (r: JsonValue)
        ensures
            r.data() == Json::Str(s@),
    {
        JsonValue::String(String::from_str(s))
    }

    /// An object of the given members.
    pub fn object(members: Vec<(String, JsonValue)>) -> (r: JsonValue)
        ensures
            r.data() == Json::Obj(members_data(members@)),
    {
        let r = JsonValue::Object(members);
        assert(r.data()->Obj_0 =~= members_data(members@));
        r
    }

    /// An array of the given elements.
    pub fn array(elems: Vec<JsonValue>) -> (r: JsonValue)
        ensures
            r.data() == Json::Arr(elems_data(elems@)),
    {
        let r = JsonValue::Array(elems);
        assert(r.data()->Arr_0 =~= elems_data(elems@));
        r
    }
}

/// A member `key: value`.
pub fn member(key: &str, value: JsonValue) -> (m: (String, JsonValue))
    ensures
        m.0@ == key@,
        m.1 == value,
{
    (String::from_str(key), value)
}

} // verus!
