//! The JSON document tree the configuration codec works on, and the trusted
//! bridge that parses text into it.
//!
//! Numbers are unsigned integers: the configuration schema holds nothing
//! else, and a document with any other number is rejected as a whole.

use vstd::prelude::*;
use crate::text::str_eq;

verus! {

broadcast use vstd::std_specs::vec::group_vec_axioms;

/// A parsed JSON document. Object members keep the order in which they
/// were written.
pub enum Json {
    Null,
    Bool(bool),
    Num(u64),
    Str(String),
    Arr(Vec<Json>),
    Obj(Vec<(String, Json)>),
}

/// The mathematical form of a document: what the contracts speak of.
pub enum JsonV {
    Null,
    Bool(bool),
    Num(u64),
    Str(Seq<char>),
    Arr(Seq<JsonV>),
    Obj(Seq<(Seq<char>, JsonV)>),
}

/// The mathematical form of a document value.
pub open spec fn jview(j: Json) -> JsonV
    decreases j,
{
    match j {
        Json::Null => JsonV::Null,
        Json::Bool(b) => JsonV::Bool(b),
        Json::Num(n) => JsonV::Num(n),
        Json::Str(s) => JsonV::Str(s@),
        Json::Arr(items) => JsonV::Arr(jview_arr(items@)),
        Json::Obj(members) => JsonV::Obj(jview_obj(members@)),
    }
}

/// The mathematical form of an array's items.
pub open spec fn jview_arr(items: Seq<Json>) -> Seq<JsonV>
    decreases items,
{
    if items.len() == 0 {
        Seq::empty()
    } else {
        seq![jview(items.first())] + jview_arr(items.drop_first())
    }
}

/// The mathematical form of an object's member list.
pub open spec fn jview_obj(members: Seq<(String, Json)>) -> Seq<(Seq<char>, JsonV)>
    decreases members,
{
    if members.len() == 0 {
        Seq::empty()
    } else {
        seq![(members.first().0@, jview(members.first().1))] + jview_obj(members.drop_first())
    }
}

impl View for Json {
    type V = JsonV;

    open spec fn view(&self) -> JsonV {
        jview(*self)
    }
}

/// The items of a viewed array are the views of the items.
pub proof fn lemma_jview_arr(items: Seq<Json>)
    ensures
        jview_arr(items).len() == items.len(),
        forall|i: int| 0 <= i < items.len() ==> jview_arr(items)[i] == jview(#[trigger] items[i]),
    decreases items,
{
    if items.len() > 0 {
        lemma_jview_arr(items.drop_first());
        assert forall|i: int| 0 <= i < items.len() implies jview_arr(items)[i] == jview(
            #[trigger] items[i],
        ) by {
            if i == 0 {
                assert(jview_arr(items)[0] == jview(items.first()));
            } else {
                assert(jview_arr(items)[i] == jview_arr(items.drop_first())[i - 1]);
                assert(items.drop_first()[i - 1] == items[i]);
            }
        }
    }
}

/// The members of a viewed object are the views of the members.
pub proof fn lemma_jview_obj(members: Seq<(String, Json)>)
    ensures
        jview_obj(members).len() == members.len(),
        forall|i: int|
            0 <= i < members.len() ==> jview_obj(members)[i] == (
            (#[trigger] members[i]).0@,
            jview(members[i].1),
            ),
    decreases members,
{
    if members.len() > 0 {
        lemma_jview_obj(members.drop_first());
        assert forall|i: int|
            0 <= i < members.len() implies jview_obj(members)[i] == (
            (#[trigger] members[i]).0@,
            jview(members[i].1),
            ) by {
            if i == 0 {
                assert(jview_obj(members)[0] == (members.first().0@, jview(members.first().1)));
            } else {
                assert(jview_obj(members)[i] == jview_obj(members.drop_first())[i - 1]);
                assert(members.drop_first()[i - 1] == members[i]);
            }
        }
    }
}

/// The value under `key`, looking at the members in order and taking the
/// first whose name matches exactly.
pub open spec fn spec_member(members: Seq<(Seq<char>, JsonV)>, key: Seq<char>) -> Option<JsonV>
    decreases members.len(),
{
    if members.len() == 0 {
        None
    } else if members[0].0 == key {
        Some(members[0].1)
    } else {
        spec_member(members.drop_first(), key)
    }
}

/// Looks `key` up in an object's member list.
pub fn member<'a>(members: &'a Vec<(String, Json)>, key: &str) -> (r: Option<&'a Json>)
    ensures
        match r {
            Some(j) => spec_member(jview_obj(members@), key@) == Some(j@),
            None => spec_member(jview_obj(members@), key@) is None,
        },
{
    proof {
        lemma_jview_obj(members@);
        assert(jview_obj(members@).skip(0) =~= jview_obj(members@));
    }
    let mut i: usize = 0;
    while i < members.len()
        invariant
            i <= members@.len(),
            jview_obj(members@).len() == members@.len(),
            forall|k: int|
                0 <= k < members@.len() ==> jview_obj(members@)[k] == (
                (#[trigger] members@[k]).0@,
                jview(members@[k].1),
                ),
            spec_member(jview_obj(members@), key@) == spec_member(
                jview_obj(members@).skip(i as int),
                key@,
            ),
        decreases members@.len() - i,
    {
        proof {
            assert(jview_obj(members@).skip(i as int).drop_first() =~= jview_obj(members@).skip(
                i + 1,
            ));
            assert(jview_obj(members@).skip(i as int)[0] == jview_obj(members@)[i as int]);
        }
        if str_eq(members[i].0.as_str(), key) {
            return Some(&members[i].1);
        }
        i = i + 1;
    }
    proof {
        assert(jview_obj(members@).skip(members@.len() as int) =~= Seq::empty());
    }
    None
}

#[verifier::external_type_specification]
#[verifier::external_body]
pub struct ExValue(serde_json::Value);

/// The document a text parses to: `Some` exactly when serde_json accepts
/// the text and every number in it is an unsigned integer.
pub uninterp spec fn json_of_text(s: Seq<char>) -> Option<JsonV>;

/// Maps a serde_json tree onto the library's document tree, one arm per
/// variant; a number that is not an unsigned integer fails the whole
/// conversion.
#[verifier::external_body]
fn value_to_json(v: &serde_json::Value) -> (r: Option<Json>) {
    match v {
        serde_json::Value::Null => Some(Json::Null),
        serde_json::Value::Bool(b) => Some(Json::Bool(*b)),
        serde_json::Value::Number(n) => n.as_u64().map(Json::Num),
        serde_json::Value::String(s) => Some(Json::Str(s.clone())),
        serde_json::Value::Array(items) => items.iter().map(value_to_json).collect::<Option<
            Vec<Json>,
        >>().map(Json::Arr),
        serde_json::Value::Object(members) => members.iter().map(
            |(k, x)| value_to_json(x).map(|j| (k.clone(), j)),
        ).collect::<Option<Vec<(String, Json)>>>().map(Json::Obj),
    }
}

/// Relies on serde_json::from_str for `serde_json::Value`: the parse of a
/// text depends on the text alone, and a malformed text is answered with an
/// error message describing it.
#[verifier::external_body]
pub(crate) fn parse_json_text(s: &str) -> (r: Result<Json, String>)
    ensures
        r matches Ok(j) ==> json_of_text(s@) == Some(j@),
        r is Err ==> json_of_text(s@) is None,
{
    match serde_json::from_str::<serde_json::Value>(s) {
        Ok(v) => value_to_json(&v).ok_or_else(|| "number out of range".to_string()),
        Err(e) => Err(e.to_string()),
    }
}

/// Looking a key up finds the first member that carries it.
pub proof fn lemma_member_at(m: Seq<(Seq<char>, JsonV)>, i: int, key: Seq<char>)
    requires
        0 <= i < m.len(),
        m[i].0 == key,
        forall|j: int| 0 <= j < i ==> (#[trigger] m[j]).0 != key,
    ensures
        spec_member(m, key) == Some(m[i].1),
    decreases i,
{
    if m[0].0 != key {
        lemma_member_at(m.drop_first(), i - 1, key);
        assert(forall|j: int|
            0 <= j < i - 1 ==> #[trigger] m.drop_first()[j] == m[j + 1]);
    }
}

/// Looking a key up that no member carries finds nothing.
pub proof fn lemma_member_absent(m: Seq<(Seq<char>, JsonV)>, key: Seq<char>)
    requires
        forall|j: int| 0 <= j < m.len() ==> (#[trigger] m[j]).0 != key,
    ensures
        spec_member(m, key) is None,
    decreases m.len(),
{
    if m.len() > 0 {
        lemma_member_absent(m.drop_first(), key);
    }
}

} // verus!
