//! JSON documents as the library reads and builds them. The numbers keep
//! serde_json's three kinds: non-negative integers, negative integers, and
//! floating-point numbers, the last held as their decimal text.
use vstd::prelude::*;
use vstd::string::*;

verus! {

#[derive(Debug)]
pub enum JsonNumber {
    PosInt(u64),
    NegInt(i64),
    Float(String),
}

/// A JSON value. An object keeps its members in order; a member is looked
/// up by the first key that matches.
#[derive(Debug)]
pub enum Json {
    Null,
    Bool(bool),
    Number(JsonNumber),
    Str(String),
    Array(Vec<Json>),
    Object(Vec<(String, Json)>),
}

/// The value of the first member named `key`.
pub open spec fn field_of(fields: Seq<(String, Json)>, key: Seq<char>) -> Option<Json>
    decreases fields.len(),
{
    if fields.len() == 0 {
        None
    } else if fields[0].0@ == key {
        Some(fields[0].1)
    } else {
        field_of(fields.drop_first(), key)
    }
}

/// The text of a string value.
pub open spec fn str_of(j: Option<Json>) -> Option<Seq<char>> {
    match j {
        Some(Json::Str(s)) => Some(s@),
        _ => None,
    }
}

/// The integer of a number that fits an `i64` (`Value::as_i64`).
pub open spec fn i64_of(j: Option<Json>) -> Option<i64> {
    match j {
        Some(Json::Number(JsonNumber::PosInt(u))) => if u <= i64::MAX {
            Some(u as i64)
        } else {
            None
        },
        Some(Json::Number(JsonNumber::NegInt(i))) => Some(i),
        _ => None,
    }
}

/// The truth value of a boolean (`Value::as_bool`).
pub open spec fn bool_of(j: Option<Json>) -> Option<bool> {
    match j {
        Some(Json::Bool(b)) => Some(b),
        _ => None,
    }
}

/// The decimal text of a floating-point number.
pub open spec fn float_text(j: Option<Json>) -> Option<Seq<char>> {
    match j {
        Some(Json::Number(JsonNumber::Float(t))) => Some(t@),
        _ => None,
    }
}

/// The texts of an array whose members are all strings.
pub open spec fn strings_of(j: Option<Json>) -> Option<Seq<Seq<char>>> {
    match j {
        Some(Json::Array(a)) => if forall|i: int| 0 <= i < a@.len() ==> (#[trigger] a@[i]) is Str {
            Some(a@.map_values(|e: Json| e->Str_0@))
        } else {
            None
        },
        _ => None,
    }
}

/// The integers of an array whose members are all numbers that fit an `i64`.
pub open spec fn integers_of(j: Option<Json>) -> Option<Seq<i64>> {
    match j {
        Some(Json::Array(a)) => if forall|i: int| 0 <= i < a@.len() ==> i64_of(Some(#[trigger] a@[i])) is Some {
            Some(a@.map_values(|e: Json| i64_of(Some(e))->0))
        } else {
            None
        },
        _ => None,
    }
}

impl Json {
    /// The member `key` of an object; `None` for any other value (`Value::get`).
    pub open spec fn spec_get(self, key: Seq<char>) -> Option<Json> {
        match self {
            Json::Object(fields) => field_of(fields@, key),
            _ => None,
        }
    }

    pub fn get(&self, key: &str) -> (r: Option<&Json>)
        ensures
            r matches Some(v) ==> self.spec_get(key@) == Some(*v),
            r is None ==> self.spec_get(key@) is None,
    {
        match self {
            Json::Object(fields) => {
                let k = String::from_str(key);
                let mut i: usize = 0;
                assert(fields@.skip(0) =~= fields@);
                while i < fields.len()
                    invariant
                        0 <= i <= fields.len(),
                        k@ == key@,
                        self.spec_get(key@) == field_of(fields@, key@),
                        field_of(fields@, key@) == field_of(fields@.skip(i as int), key@),
                    decreases fields.len() - i,
                {
                    assert(fields@.skip(i as int).drop_first() =~= fields@.skip(i + 1));
                    assert(fields@.skip(i as int)[0] == fields@[i as int]);
                    if fields[i].0 == k {
                        return Some(&fields[i].1);
                    }
                    i += 1;
                }
                None
            },
            _ => None,
        }
    }

    /// The member `key` of an object, taken out of it; `None` for any other
    /// value or a missing member.
    pub fn take_member(self, key: &str) -> (r: Option<Json>)
        ensures
            r == self.spec_get(key@),
    {
        let ghost me = self;
        match self {
            Json::Object(fields0) => {
                let mut fields = fields0;
                assert(me == Json::Object(fields0));
                let ghost all = fields@;
                assert(me.spec_get(key@) == field_of(all, key@));
                let k = String::from_str(key);
                let mut i: usize = 0;
                assert(all.skip(0) =~= all);
                while i < fields.len()
                    invariant
                        0 <= i <= fields.len(),
                        fields@ == all,
                        k@ == key@,
                        me.spec_get(key@) == field_of(all, key@),
                        me == self,
                        field_of(all, key@) == field_of(all.skip(i as int), key@),
                    decreases fields.len() - i,
                {
                    assert(all.skip(i as int).drop_first() =~= all.skip(i + 1));
                    assert(all.skip(i as int)[0] == all[i as int]);
                    if fields[i].0 == k {
                        let pair = fields.remove(i);
                        assert(pair == all[i as int]);
                        assert(field_of(all.skip(i as int), key@) == Some(pair.1));
                        assert(me.spec_get(key@) == Some(pair.1));
                        return Some(pair.1);
                    }
                    i += 1;
                }
                None
            },
            _ => None,
        }
    }

    /// A string value from a literal.
    pub fn string(s: &str) -> (r: Json)
        ensures
            r matches Json::Str(t) && t@ == s@,
    {
        Json::Str(String::from_str(s))
    }

    /// A number value for a signed integer, of serde_json's kind for it.
    pub fn integer(n: i64) -> (r: Json)
        ensures
            i64_of(Some(r)) == Some(n),
            n >= 0 ==> r == Json::Number(JsonNumber::PosInt(n as u64)),
            n < 0 ==> r == Json::Number(JsonNumber::NegInt(n)),
    {
        if n < 0 {
            Json::Number(JsonNumber::NegInt(n))
        } else {
            Json::Number(JsonNumber::PosInt(n as u64))
        }
    }
}

/// Whether `j` is a string value whose text is `lit`.
pub fn is_str(j: Option<&Json>, lit: &str) -> (r: bool)
    ensures
        r == (str_of(match j {
            Some(v) => Some(*v),
            None => None,
        }) == Some(lit@)),
{
    match j {
        Some(Json::Str(s)) => *s == String::from_str(lit),
        _ => false,
    }
}

/// The text of a string value, copied.
pub fn get_str(j: Option<&Json>) -> (r: Option<String>)
    ensures
        match r {
            Some(s) => str_of(
                match j {
                    Some(v) => Some(*v),
                    None => None,
                },
            ) == Some(s@),
            None => str_of(
                match j {
                    Some(v) => Some(*v),
                    None => None,
                },
            ) is None,
        },
{
    match j {
        Some(Json::Str(s)) => Some(s.clone()),
        _ => None,
    }
}

/// The integer of a number value that fits an `i64`.
pub fn get_i64(j: Option<&Json>) -> (r: Option<i64>)
    ensures
        r == i64_of(
            match j {
                Some(v) => Some(*v),
                None => None,
            },
        ),
{
    match j {
        Some(Json::Number(JsonNumber::PosInt(u))) => if *u <= i64::MAX as u64 {
            Some(*u as i64)
        } else {
            None
        },
        Some(Json::Number(JsonNumber::NegInt(i))) => Some(*i),
        _ => None,
    }
}

/// The truth value of a boolean value.
pub fn get_bool(j: Option<&Json>) -> (r: Option<bool>)
    ensures
        r == bool_of(
            match j {
                Some(v) => Some(*v),
                None => None,
            },
        ),
{
    match j {
        Some(Json::Bool(b)) => Some(*b),
        _ => None,
    }
}

} // verus!

verus! {

/// The keys of an object's members, in order.
pub open spec fn keys_of(fields: Seq<(String, Json)>) -> Seq<Seq<char>> {
    fields.map_values(|p: (String, Json)| p.0@)
}

/// `j` is an object whose member keys are exactly `keys`, in that order.
pub open spec fn is_object_with(j: Json, keys: Seq<Seq<char>>) -> bool {
    match j {
        Json::Object(fields) => keys_of(fields@) == keys,
        _ => false,
    }
}

/// An object of two members.
pub fn object2(k1: &str, v1: Json, k2: &str, v2: Json) -> (r: Json)
    requires
        k1@ != k2@,
    ensures
        is_object_with(r, seq![k1@, k2@]),
        r.spec_get(k1@) == Some(v1),
        r.spec_get(k2@) == Some(v2),
{
    let mut f: Vec<(String, Json)> = Vec::new();
    f.push((String::from_str(k1), v1));
    f.push((String::from_str(k2), v2));
    let r = Json::Object(f);
    assert(keys_of(f@) =~= seq![k1@, k2@]);
    assert(f@.drop_first()[0] == f@[1]);
    assert(field_of(f@.drop_first(), k2@) == Some(v2));
    r
}

/// An object of three members.
pub fn object3(k1: &str, v1: Json, k2: &str, v2: Json, k3: &str, v3: Json) -> (r: Json)
    requires
        k1@ != k2@,
        k1@ != k3@,
        k2@ != k3@,
    ensures
        is_object_with(r, seq![k1@, k2@, k3@]),
        r.spec_get(k1@) == Some(v1),
        r.spec_get(k2@) == Some(v2),
        r.spec_get(k3@) == Some(v3),
{
    let mut f: Vec<(String, Json)> = Vec::new();
    f.push((String::from_str(k1), v1));
    f.push((String::from_str(k2), v2));
    f.push((String::from_str(k3), v3));
    let r = Json::Object(f);
    assert(keys_of(f@) =~= seq![k1@, k2@, k3@]);
    assert(f@.drop_first()[0] == f@[1]);
    assert(f@.drop_first().drop_first()[0] == f@[2]);
    assert(field_of(f@.drop_first().drop_first(), k3@) == Some(v3));
    assert(field_of(f@.drop_first(), k3@) == Some(v3));
    assert(field_of(f@.drop_first(), k2@) == Some(v2));
    r
}

/// An object of four members.
pub fn object4(k1: &str, v1: Json, k2: &str, v2: Json, k3: &str, v3: Json, k4: &str, v4: Json) -> (r:
    Json)
    requires
        k1@ != k2@,
        k1@ != k3@,
        k1@ != k4@,
        k2@ != k3@,
        k2@ != k4@,
        k3@ != k4@,
    ensures
        is_object_with(r, seq![k1@, k2@, k3@, k4@]),
        r.spec_get(k1@) == Some(v1),
        r.spec_get(k2@) == Some(v2),
        r.spec_get(k3@) == Some(v3),
        r.spec_get(k4@) == Some(v4),
{
    let mut f: Vec<(String, Json)> = Vec::new();
    f.push((String::from_str(k1), v1));
    f.push((String::from_str(k2), v2));
    f.push((String::from_str(k3), v3));
    f.push((String::from_str(k4), v4));
    let r = Json::Object(f);
    assert(keys_of(f@) =~= seq![k1@, k2@, k3@, k4@]);
    proof {
        lemma_field_of_first(f@, 0, k1@);
        lemma_field_of_first(f@, 1, k2@);
        lemma_field_of_first(f@, 2, k3@);
        lemma_field_of_first(f@, 3, k4@);
    }
    r
}

/// An object of five members.
pub fn object5(
    k1: &str,
    v1: Json,
    k2: &str,
    v2: Json,
    k3: &str,
    v3: Json,
    k4: &str,
    v4: Json,
    k5: &str,
    v5: Json,
) -> (r: Json)
    requires
        k1@ != k2@,
        k1@ != k3@,
        k1@ != k4@,
        k1@ != k5@,
        k2@ != k3@,
        k2@ != k4@,
        k2@ != k5@,
        k3@ != k4@,
        k3@ != k5@,
        k4@ != k5@,
    ensures
        is_object_with(r, seq![k1@, k2@, k3@, k4@, k5@]),
        r.spec_get(k1@) == Some(v1),
        r.spec_get(k2@) == Some(v2),
        r.spec_get(k3@) == Some(v3),
        r.spec_get(k4@) == Some(v4),
        r.spec_get(k5@) == Some(v5),
{
    let mut f: Vec<(String, Json)> = Vec::new();
    f.push((String::from_str(k1), v1));
    f.push((String::from_str(k2), v2));
    f.push((String::from_str(k3), v3));
    f.push((String::from_str(k4), v4));
    f.push((String::from_str(k5), v5));
    let r = Json::Object(f);
    assert(keys_of(f@) =~= seq![k1@, k2@, k3@, k4@, k5@]);
    proof {
        lemma_field_of_first(f@, 0, k1@);
        lemma_field_of_first(f@, 1, k2@);
        lemma_field_of_first(f@, 2, k3@);
        lemma_field_of_first(f@, 3, k4@);
        lemma_field_of_first(f@, 4, k5@);
    }
    r
}

/// A key that no member carries is not found.
pub proof fn lemma_field_of_absent(fields: Seq<(String, Json)>, key: Seq<char>)
    requires
        !keys_of(fields).contains(key),
    ensures
        field_of(fields, key) is None,
    decreases fields.len(),
{
    if fields.len() > 0 {
        assert(keys_of(fields)[0] == fields[0].0@);
        let t = fields.drop_first();
        assert forall|j: int| 0 <= j < keys_of(t).len() implies keys_of(t)[j] != key by {
            assert(keys_of(t)[j] == keys_of(fields)[j + 1]);
        }
        lemma_field_of_absent(t, key);
    }
}

/// A member is found at the first place its key occurs.
pub proof fn lemma_field_of_first(fields: Seq<(String, Json)>, i: int, key: Seq<char>)
    requires
        0 <= i < fields.len(),
        fields[i].0@ == key,
        forall|j: int| 0 <= j < i ==> #[trigger] fields[j].0@ != key,
    ensures
        field_of(fields, key) == Some(fields[i].1),
    decreases i,
{
    if i > 0 {
        let t = fields.drop_first();
        assert(fields[0].0@ != key);
        assert forall|j: int| 0 <= j < i - 1 implies #[trigger] t[j].0@ != key by {
            assert(t[j] == fields[j + 1]);
        }
        lemma_field_of_first(t, i - 1, key);
    }
}

/// An object of one member.
pub fn object1(k1: &str, v1: Json) -> (r: Json)
    ensures
        is_object_with(r, seq![k1@]),
        r.spec_get(k1@) == Some(v1),
{
    let mut f: Vec<(String, Json)> = Vec::new();
    f.push((String::from_str(k1), v1));
    let r = Json::Object(f);
    assert(keys_of(f@) =~= seq![k1@]);
    r
}

/// The empty object.
pub fn empty_object() -> (r: Json)
    ensures
        is_object_with(r, seq![]),
{
    let f: Vec<(String, Json)> = Vec::new();
    let r = Json::Object(f);
    assert(keys_of(f@) =~= Seq::<Seq<char>>::empty());
    r
}

} // verus!
