//! A JSON document as a tree of plain values.

use vstd::prelude::*;
use vstd::seq_lib::seq_to_set_is_finite;
use vstd::set_lib::{lemma_int_range, lemma_subset_equality, set_int_range};

verus! {

/// A JSON document.
#[derive(Debug, PartialEq, Eq)]
pub enum Json {
    /// `null`.
    Null,
    /// `true` or `false`.
    Bool(bool),
    /// A number, kept as the text of its literal.
    Number(String),
    /// A string.
    Str(String),
    /// An array.
    Array(Vec<Json>),
    /// An object: its members in document order.
    Object(Vec<(String, Json)>),
}

/// The mathematical value of a [`Json`] document.
pub enum JsonView {
    Null,
    Bool(bool),
    Number(Seq<char>),
    Str(Seq<char>),
    Array(Seq<JsonView>),
    Object(Seq<(Seq<char>, JsonView)>),
}

/// The mathematical value of a document: that of each part, in order.
pub open spec fn json_view(j: Json) -> JsonView
    decreases j,
{
    match j {
        Json::Null => JsonView::Null,
        Json::Bool(b) => JsonView::Bool(b),
        Json::Number(t) => JsonView::Number(t@),
        Json::Str(s) => JsonView::Str(s@),
        Json::Array(items) => JsonView::Array(
            Seq::new(
                items@.len(),
                |i: int|
                    if 0 <= i < items@.len() {
                        json_view(items@[i])
                    } else {
                        JsonView::Null
                    },
            ),
        ),
        Json::Object(members) => JsonView::Object(
            Seq::new(
                members@.len(),
                |i: int|
                    if 0 <= i < members@.len() {
                        (members@[i].0@, json_view(members@[i].1))
                    } else {
                        (Seq::empty(), JsonView::Null)
                    },
            ),
        ),
    }
}

impl View for Json {
    type V = JsonView;

    open spec fn view(&self) -> JsonView {
        json_view(*self)
    }
}

/// Declares `serde_json::Value` as a type whose inside is not looked into.
#[verifier::external_type_specification]
#[verifier::external_body]
pub struct ExValue(serde_json::Value);

/// What a `serde_json::Value` holds: its kind and, in order, what its
/// parts hold; for a number the text of its literal.
pub uninterp spec fn value_model(v: serde_json::Value) -> JsonView;

/// The document that `serde_json::from_str` reads from a text; `None`
/// where it reports an error.
pub uninterp spec fn json_parse_of(text: Seq<char>) -> Option<JsonView>;

/// One level of a `serde_json::Value`: its kind, its own data, and
/// references to its parts.
enum Node<'a> {
    Null,
    Bool(bool),
    Number(&'a str),
    Str(&'a str),
    Array(Vec<&'a serde_json::Value>),
    Object(Vec<(&'a String, &'a serde_json::Value)>),
}

impl<'a> Node<'a> {
    /// Whether the node is the top level of the document `m`.
    spec fn describes(self, m: JsonView) -> bool {
        match self {
            Node::Null => m == JsonView::Null,
            Node::Bool(b) => m == JsonView::Bool(b),
            Node::Number(t) => m == JsonView::Number(t@),
            Node::Str(s) => m == JsonView::Str(s@),
            Node::Array(items) => m is Array && m->Array_0.len() == items@.len() && forall|i: int|
                0 <= i < items@.len() ==> #[trigger] value_model(*items@[i]) == m->Array_0[i],
            Node::Object(members) => m is Object && m->Object_0.len() == members@.len()
                && forall|i: int|
                0 <= i < members@.len() ==> (#[trigger] members@[i]).0@ == m->Object_0[i].0
                    && value_model(*members@[i].1) == m->Object_0[i].1,
        }
    }
}

/// Takes a `serde_json::Value` apart by its variants. Claimed: the result
/// is of the value's kind; a number comes with the text that
/// `Number::as_str` gives, a string with its characters, an array with its
/// items and an object with its keys and values, both in the order in
/// which `iter` walks them.
#[verifier::external_body]
fn value_read<'a>(v: &'a serde_json::Value) -> (node: Node<'a>)
    ensures
        node.describes(value_model(*v)),
{
    match v {
        serde_json::Value::Null => Node::Null,
        serde_json::Value::Bool(b) => Node::Bool(*b),
        serde_json::Value::Number(n) => Node::Number(n.as_str()),
        serde_json::Value::String(s) => Node::Str(s.as_str()),
        serde_json::Value::Array(a) => Node::Array(a.iter().collect()),
        serde_json::Value::Object(m) => Node::Object(m.iter().collect()),
    }
}

/// Turns a parsed value into a document tree.
fn tree_of_value(v: &serde_json::Value) -> (j: Json)
    ensures
        j@ == value_model(*v),
    decreases value_model(*v),
{
    match value_read(v) {
        Node::Null => Json::Null,
        Node::Bool(b) => Json::Bool(b),
        Node::Number(t) => Json::Number(String::from_str(t)),
        Node::Str(s) => Json::Str(String::from_str(s)),
        Node::Array(items) => {
            let mut out: Vec<Json> = Vec::new();
            let mut i: usize = 0;
            while i < items.len()
                invariant
                    i <= items@.len(),
                    out@.len() == i,
                    value_model(*v) is Array,
                    value_model(*v)->Array_0.len() == items@.len(),
                    forall|k: int|
                        0 <= k < items@.len() ==> #[trigger] value_model(*items@[k]) == value_model(
                            *v,
                        )->Array_0[k],
                    forall|k: int| 0 <= k < i ==> (#[trigger] out@[k])@ == value_model(*v)->Array_0[k],
                decreases items@.len() - i,
            {
                let child = tree_of_value(items[i]);
                out.push(child);
                i = i + 1;
            }
            let j = Json::Array(out);
            assert(j@ =~= value_model(*v)) by {
                assert(j@->Array_0 =~= value_model(*v)->Array_0);
            }
            j
        },
        Node::Object(members) => {
            let mut out: Vec<(String, Json)> = Vec::new();
            let mut i: usize = 0;
            while i < members.len()
                invariant
                    i <= members@.len(),
                    out@.len() == i,
                    value_model(*v) is Object,
                    value_model(*v)->Object_0.len() == members@.len(),
                    forall|k: int|
                        0 <= k < members@.len() ==> (#[trigger] members@[k]).0@ == value_model(
                            *v,
                        )->Object_0[k].0 && value_model(*members@[k].1) == value_model(
                            *v,
                        )->Object_0[k].1,
                    forall|k: int|
                        0 <= k < i ==> (#[trigger] out@[k]).0@ == value_model(*v)->Object_0[k].0
                            && out@[k].1@ == value_model(*v)->Object_0[k].1,
                decreases members@.len() - i,
            {
                let child = tree_of_value(members[i].1);
                out.push((members[i].0.clone(), child));
                i = i + 1;
            }
            let j = Json::Object(out);
            assert(j@ =~= value_model(*v)) by {
                assert(j@->Object_0 =~= value_model(*v)->Object_0);
            }
            j
        },
    }
}


/// Calls `serde_json::from_str` for a `Value`. Claimed: the same text
/// always gives the same outcome, and the value that comes back holds the
/// document that the text's name stands for.
#[verifier::external_body]
fn value_parse(text: &str) -> (r: Option<serde_json::Value>)
    ensures
        match r {
            Some(v) => json_parse_of(text@) == Some(value_model(v)),
            None => json_parse_of(text@) is None,
        },
{
    serde_json::from_str::<serde_json::Value>(text).ok()
}

/// The literal that `serde_json::Number::from_str` keeps of the literal of
/// a number; `None` where it refuses the text.
pub uninterp spec fn json_number_of(text: Seq<char>) -> Option<Seq<char>>;

/// The text that `serde_json::to_string` writes for a value that holds the
/// document; `None` where it reports an error.
pub uninterp spec fn json_text_of(j: JsonView) -> Option<Seq<char>>;

/// Calls `serde_json::to_string` on a `Value`. Claimed: the outcome
/// depends on nothing but what the value holds.
#[verifier::external_body]
fn value_print(v: &serde_json::Value) -> (r: Option<String>)
    ensures
        match r {
            Some(text) => json_text_of(value_model(*v)) == Some(text@),
            None => json_text_of(value_model(*v)) is None,
        },
{
    serde_json::to_string(v).ok()
}

/// Makes `Value::Null`. Claimed: it holds `null`.
#[verifier::external_body]
fn value_null() -> (v: serde_json::Value)
    ensures
        value_model(v) == JsonView::Null,
{
    serde_json::Value::Null
}

/// Makes a `Value::Bool`. Claimed: it holds the truth value given.
#[verifier::external_body]
fn value_bool(b: bool) -> (v: serde_json::Value)
    ensures
        value_model(v) == JsonView::Bool(b),
{
    serde_json::Value::Bool(b)
}

/// Makes a `Value::Number` by `Number::from_str`, which refuses a text that
/// is no JSON number. Claimed: the same text always gives the same
/// outcome, and the value that comes back holds a number with the literal
/// that the text's name stands for.
#[verifier::external_body]
fn value_number(text: &str) -> (r: Option<serde_json::Value>)
    ensures
        match r {
            Some(v) => json_number_of(text@) matches Some(kept) && value_model(v)
                == JsonView::Number(kept),
            None => json_number_of(text@) is None,
        },
{
    text.parse::<serde_json::Number>().ok().map(serde_json::Value::Number)
}

/// Makes a `Value::String`. Claimed: it holds the characters given.
#[verifier::external_body]
fn value_string(text: &str) -> (v: serde_json::Value)
    ensures
        value_model(v) == JsonView::Str(text@),
{
    serde_json::Value::String(text.to_owned())
}

/// Makes a `Value::Array`. Claimed: it holds, in order, what the items
/// hold.
#[verifier::external_body]
fn value_array(items: Vec<serde_json::Value>) -> (v: serde_json::Value)
    ensures
        value_model(v) is Array,
        value_model(v)->Array_0.len() == items@.len(),
        forall|i: int|
            0 <= i < items@.len() ==> value_model(v)->Array_0[i] == value_model(
                #[trigger] items@[i],
            ),
{
    serde_json::Value::Array(items)
}

/// Makes a `Value::Object` by collecting the members into a
/// `serde_json::Map`, which keeps, of members under keys that all differ,
/// each one in its place. Claimed: of such members the value holds, in
/// order, each key with what its value holds.
#[verifier::external_body]
fn value_object(members: Vec<(String, serde_json::Value)>) -> (v: serde_json::Value)
    requires
        forall|i: int, j: int|
            0 <= i < j < members@.len() ==> (#[trigger] members@[i]).0@ != (
            #[trigger] members@[j]).0@,
    ensures
        value_model(v) is Object,
        value_model(v)->Object_0.len() == members@.len(),
        forall|i: int|
            0 <= i < members@.len() ==> value_model(v)->Object_0[i] == (
                (#[trigger] members@[i]).0@,
                value_model(members@[i].1),
            ),
{
    serde_json::Value::Object(members.into_iter().collect())
}

/// Whether no two members of an object are under the same key.
pub open spec fn distinct_keys(members: Seq<(Seq<char>, JsonView)>) -> bool {
    forall|i: int, j: int|
        0 <= i < j < members.len() ==> (#[trigger] members[i]).0 != (#[trigger] members[j]).0
}

/// The document that serde_json makes of a document that is handed to it
/// part by part: each number with the literal that serde_json keeps of its
/// literal, all else as it is. `None` where serde_json refuses the literal
/// of a number, or where two members of an object are under one key.
pub open spec fn built(j: JsonView) -> Option<JsonView>
    decreases j,
{
    match j {
        JsonView::Number(t) => match json_number_of(t) {
            Some(kept) => Some(JsonView::Number(kept)),
            None => None,
        },
        JsonView::Array(items) => if forall|i: int|
            0 <= i < items.len() ==> built(#[trigger] items[i]) is Some {
            Some(
                JsonView::Array(
                    Seq::new(
                        items.len(),
                        |i: int|
                            if 0 <= i < items.len() {
                                built(items[i])->0
                            } else {
                                JsonView::Null
                            },
                    ),
                ),
            )
        } else {
            None
        },
        JsonView::Object(members) => if distinct_keys(members) && forall|i: int|
            0 <= i < members.len() ==> built((#[trigger] members[i]).1) is Some {
            Some(
                JsonView::Object(
                    Seq::new(
                        members.len(),
                        |i: int|
                            if 0 <= i < members.len() {
                                (members[i].0, built(members[i].1)->0)
                            } else {
                                (Seq::empty(), JsonView::Null)
                            },
                    ),
                ),
            )
        } else {
            None
        },
        _ => Some(j),
    }
}

/// The JSON text of a document: what serde_json writes for the document
/// that it makes of this one, where reading that text gives this document
/// again; else `None`.
pub open spec fn to_text_spec(j: JsonView) -> Option<Seq<char>> {
    match built(j) {
        Some(b) => match json_text_of(b) {
            Some(text) => if json_parse_of(text) == Some(j) {
                Some(text)
            } else {
                None
            },
            None => None,
        },
        None => None,
    }
}

fn keys_differ(members: &Vec<(String, Json)>) -> (r: bool)
    ensures
        r == (forall|i: int, j: int|
            0 <= i < j < members@.len() ==> (#[trigger] members@[i]).0@ != (
            #[trigger] members@[j]).0@),
{
    let mut j: usize = 0;
    while j < members.len()
        invariant
            j <= members@.len(),
            forall|a: int, b: int|
                0 <= a < b < j ==> (#[trigger] members@[a]).0@ != (#[trigger] members@[b]).0@,
        decreases members@.len() - j,
    {
        let mut i: usize = 0;
        while i < j
            invariant
                i <= j < members@.len(),
                forall|a: int| 0 <= a < i ==> (#[trigger] members@[a]).0@ != members@[j as int].0@,
            decreases j - i,
        {
            if members[i].0 == members[j].0 {
                return false;
            }
            i = i + 1;
        }
        j = j + 1;
    }
    true
}

/// Makes the value of serde_json for a document, part by part.
fn to_value(j: &Json) -> (r: Option<serde_json::Value>)
    ensures
        match built(j@) {
            Some(b) => r matches Some(v) && value_model(v) == b,
            None => r is None,
        },
    decreases j,
{
    proof {
        j.lemma_view_parts();
    }
    match j {
        Json::Null => Some(value_null()),
        Json::Bool(b) => Some(value_bool(*b)),
        Json::Number(t) => value_number(t.as_str()),
        Json::Str(s) => Some(value_string(s.as_str())),
        Json::Array(items) => {
            let ghost parts = j@->Array_0;
            let mut out: Vec<serde_json::Value> = Vec::new();
            let mut i: usize = 0;
            while i < items.len()
                invariant
                    i <= items@.len(),
                    *j == Json::Array(*items),
                    j@ == JsonView::Array(parts),
                    parts.len() == items@.len(),
                    forall|k: int| 0 <= k < items@.len() ==> parts[k] == (#[trigger] items@[k])@,
                    out@.len() == i,
                    forall|k: int|
                        0 <= k < i ==> built(parts[k]) == Some(value_model(#[trigger] out@[k])),
                decreases items@.len() - i,
            {
                assert(*items == j->Array_0);
                assert(decreases_to!(items => items[i as int]));
                match to_value(&items[i]) {
                    Some(v) => out.push(v),
                    None => {
                        assert(built(parts[i as int]) is None);
                        return None;
                    },
                }
                i = i + 1;
            }
            let v = value_array(out);
            proof {
                assert forall|k: int| 0 <= k < parts.len() implies built(#[trigger] parts[k])
                    is Some by {
                    assert(built(parts[k]) == Some(value_model(out@[k])));
                }
                assert(built(j@) is Some);
                assert(value_model(v)->Array_0 =~= built(j@)->0->Array_0) by {
                    assert forall|k: int| 0 <= k < parts.len() implies value_model(v)->Array_0[k]
                        == built(j@)->0->Array_0[k] by {
                        assert(built(parts[k]) == Some(value_model(out@[k])));
                    }
                }
            }
            Some(v)
        },
        Json::Object(members) => {
            let ghost parts = j@->Object_0;
            if !keys_differ(members) {
                proof {
                    assert(!distinct_keys(parts)) by {
                        let (a, b) = choose|a: int, b: int|
                            0 <= a < b < members@.len() && (#[trigger] members@[a]).0@ == (
                            #[trigger] members@[b]).0@;
                        assert(parts[a].0 == parts[b].0);
                    }
                }
                return None;
            }
            let mut out: Vec<(String, serde_json::Value)> = Vec::new();
            let mut i: usize = 0;
            while i < members.len()
                invariant
                    i <= members@.len(),
                    *j == Json::Object(*members),
                    j@ == JsonView::Object(parts),
                    parts.len() == members@.len(),
                    forall|k: int|
                        0 <= k < members@.len() ==> parts[k] == (
                            (#[trigger] members@[k]).0@,
                            members@[k].1@,
                        ),
                    out@.len() == i,
                    forall|k: int|
                        0 <= k < i ==> (#[trigger] out@[k]).0@ == parts[k].0 && built(parts[k].1)
                            == Some(value_model(out@[k].1)),
                decreases members@.len() - i,
            {
                assert(*members == j->Object_0);
                assert(decreases_to!(members => members[i as int]));
                match to_value(&members[i].1) {
                    Some(v) => out.push((members[i].0.clone(), v)),
                    None => {
                        assert(built(parts[i as int].1) is None);
                        return None;
                    },
                }
                i = i + 1;
            }
            proof {
                assert forall|a: int, b: int| 0 <= a < b < out@.len() implies (#[trigger] out@[a]).0@
                    != (#[trigger] out@[b]).0@ by {
                    assert(parts[a].0 == members@[a].0@);
                    assert(parts[b].0 == members@[b].0@);
                }
                assert(distinct_keys(parts)) by {
                    assert forall|a: int, b: int| 0 <= a < b < parts.len() implies (
                    #[trigger] parts[a]).0 != (#[trigger] parts[b]).0 by {
                        assert(parts[a].0 == members@[a].0@);
                        assert(parts[b].0 == members@[b].0@);
                    }
                }
                assert forall|k: int| 0 <= k < parts.len() implies built((#[trigger] parts[k]).1)
                    is Some by {
                    assert(built(parts[k].1) == Some(value_model(out@[k].1)));
                }
                assert(built(j@) is Some);
            }
            let ghost made = out@;
            let v = value_object(out);
            proof {
                assert(value_model(v)->Object_0 =~= built(j@)->0->Object_0) by {
                    assert forall|k: int| 0 <= k < parts.len() implies value_model(v)->Object_0[k]
                        == built(j@)->0->Object_0[k] by {
                        assert(made[k].0@ == parts[k].0);
                        assert(built(parts[k].1) == Some(value_model(made[k].1)));
                    }
                }
            }
            Some(v)
        },
    }
}

/// Whether `i` is the place of the first member under `key`.
pub open spec fn position(members: Seq<(Seq<char>, JsonView)>, key: Seq<char>, i: int) -> bool {
    &&& 0 <= i < members.len()
    &&& members[i].0 == key
    &&& forall|k: int| 0 <= k < i ==> members[k].0 != key
}

/// The first member under `key`, if there is one.
pub open spec fn lookup(members: Seq<(Seq<char>, JsonView)>, key: Seq<char>) -> Option<JsonView> {
    if exists|i: int| position(members, key, i) {
        Some(members[choose|i: int| position(members, key, i)].1)
    } else {
        None
    }
}

/// The first member under `key` is the one at the place found for it.
pub proof fn lemma_lookup_at(members: Seq<(Seq<char>, JsonView)>, key: Seq<char>, i: int)
    requires
        position(members, key, i),
    ensures
        lookup(members, key) == Some(members[i].1),
{
    let c = choose|c: int| position(members, key, c);
    assert(c == i) by {
        if c < i {
            assert(members[c].0 != key);
        } else if i < c {
            assert(members[i].0 != key);
        }
    }
}

/// Whether every member of an object is under one of the keys.
pub open spec fn only_under(members: Seq<(Seq<char>, JsonView)>, keys: Seq<Seq<char>>) -> bool {
    forall|i: int| 0 <= i < members.len() ==> keys.contains(#[trigger] members[i].0)
}

/// An object that has as many members as there are keys, and a member
/// under each of the keys, has no member under any other key.
pub proof fn lemma_no_other_members(members: Seq<(Seq<char>, JsonView)>, keys: Seq<Seq<char>>)
    requires
        keys.no_duplicates(),
        members.len() == keys.len(),
        forall|k: int| 0 <= k < keys.len() ==> lookup(members, #[trigger] keys[k]) is Some,
    ensures
        only_under(members, keys),
{
    let n = keys.len() as int;
    let places = Seq::new(keys.len(), |k: int| choose|p: int| position(members, keys[k], p));
    assert forall|k: int| 0 <= k < n implies position(members, keys[k], #[trigger] places[k]) by {
        assert(lookup(members, keys[k]) is Some);
    }
    assert forall|i: int, j: int| 0 <= i < n && 0 <= j < n && i != j implies places[i]
        != places[j] by {
        assert(position(members, keys[i], places[i]));
        assert(position(members, keys[j], places[j]));
        assert(keys[i] != keys[j]);
    }
    assert(places.no_duplicates());
    places.unique_seq_to_set();
    seq_to_set_is_finite(places);
    lemma_int_range(0, n);
    assert forall|p: int| places.to_set().contains(p) implies set_int_range(0, n).contains(p) by {
        let k = choose|k: int| 0 <= k < places.len() && places[k] == p;
        assert(position(members, keys[k], places[k]));
    }
    lemma_subset_equality(places.to_set(), set_int_range(0, n));
    assert forall|i: int| 0 <= i < members.len() implies keys.contains(#[trigger] members[i].0) by {
        assert(set_int_range(0, n).contains(i));
        assert(places.to_set().contains(i));
        let k = choose|k: int| 0 <= k < places.len() && places[k] == i;
        assert(position(members, keys[k], places[k]));
        assert(members[i].0 == keys[k]);
    }
}

impl Json {
    /// The members of an object, the items of an array: how the view of a
    /// node is made of the views of its parts.
    pub proof fn lemma_view_parts(&self)
        ensures
            self matches Json::Array(items) ==> self@ is Array && self@->Array_0.len()
                == items@.len() && forall|i: int|
                0 <= i < items@.len() ==> self@->Array_0[i] == (#[trigger] items@[i])@,
            self matches Json::Object(members) ==> self@ is Object && self@->Object_0.len()
                == members@.len() && forall|i: int|
                0 <= i < members@.len() ==> self@->Object_0[i] == ((#[trigger] members@[i]).0@, members@[i].1@),
            self matches Json::Str(t) ==> self@ == JsonView::Str(t@),
            self matches Json::Number(t) ==> self@ == JsonView::Number(t@),
            self matches Json::Bool(b) ==> self@ == JsonView::Bool(*b),
            self is Null ==> self@ == JsonView::Null,
    {
    }

    /// Reads a document from JSON text; `None` where the text is not JSON.
    pub fn parse(text: &str) -> (r: Option<Json>)
        ensures
            match r {
                Some(j) => json_parse_of(text@) == Some(j@),
                None => json_parse_of(text@) is None,
            },
    {
        match value_parse(text) {
            Some(v) => Some(tree_of_value(&v)),
            None => None,
        }
    }

    /// A copy of the document.
    pub fn duplicate(&self) -> (j: Json)
        ensures
            j@ == self@,
        decreases self,
    {
        match self {
            Json::Null => Json::Null,
            Json::Bool(b) => Json::Bool(*b),
            Json::Number(t) => Json::Number(t.clone()),
            Json::Str(s) => Json::Str(s.clone()),
            Json::Array(items) => {
                let mut out: Vec<Json> = Vec::new();
                let mut i: usize = 0;
                while i < items.len()
                    invariant
                        i <= items@.len(),
                        out@.len() == i,
                        *self == Json::Array(*items),
                        forall|k: int| 0 <= k < i ==> (#[trigger] out@[k])@ == items@[k]@,
                    decreases items@.len() - i,
                {
                    assert(*items == self->Array_0);
                    assert(decreases_to!(items => items[i as int]));
                    let child = items[i].duplicate();
                    out.push(child);
                    i = i + 1;
                }
                let j = Json::Array(out);
                proof {
                    self.lemma_view_parts();
                    j.lemma_view_parts();
                    assert(j@->Array_0 =~= self@->Array_0);
                }
                j
            },
            Json::Object(members) => {
                let mut out: Vec<(String, Json)> = Vec::new();
                let mut i: usize = 0;
                while i < members.len()
                    invariant
                        i <= members@.len(),
                        out@.len() == i,
                        *self == Json::Object(*members),
                        forall|k: int|
                            0 <= k < i ==> (#[trigger] out@[k]).0@ == members@[k].0@ && out@[k].1@
                                == members@[k].1@,
                    decreases members@.len() - i,
                {
                    assert(*members == self->Object_0);
                    assert(decreases_to!(members => members[i as int]));
                    let child = members[i].1.duplicate();
                    out.push((members[i].0.clone(), child));
                    i = i + 1;
                }
                let j = Json::Object(out);
                proof {
                    self.lemma_view_parts();
                    j.lemma_view_parts();
                    assert(j@->Object_0 =~= self@->Object_0);
                }
                j
            },
        }
    }

    /// Whether two documents are the same: of one kind, with the same data,
    /// and with the same parts in the same order.
    pub fn same(&self, other: &Json) -> (b: bool)
        ensures
            b == (self@ == other@),
        decreases self,
    {
        proof {
            self.lemma_view_parts();
            other.lemma_view_parts();
        }
        match (self, other) {
            (Json::Null, Json::Null) => true,
            (Json::Bool(a), Json::Bool(b)) => *a == *b,
            (Json::Number(a), Json::Number(b)) => *a == *b,
            (Json::Str(a), Json::Str(b)) => *a == *b,
            (Json::Array(a), Json::Array(b)) => {
                if a.len() != b.len() {
                    return false;
                }
                let mut i: usize = 0;
                while i < a.len()
                    invariant
                        i <= a@.len(),
                        a@.len() == b@.len(),
                        *self == Json::Array(*a),
                        *other == Json::Array(*b),
                        self@ is Array && self@->Array_0.len() == a@.len(),
                        other@ is Array && other@->Array_0.len() == b@.len(),
                        forall|k: int|
                            0 <= k < a@.len() ==> self@->Array_0[k] == (#[trigger] a@[k])@,
                        forall|k: int|
                            0 <= k < b@.len() ==> other@->Array_0[k] == (#[trigger] b@[k])@,
                        forall|k: int| 0 <= k < i ==> (#[trigger] a@[k])@ == b@[k]@,
                    decreases a@.len() - i,
                {
                    if !a[i].same(&b[i]) {
                        assert(self@->Array_0[i as int] != other@->Array_0[i as int]);
                        return false;
                    }
                    i = i + 1;
                }
                assert(self@->Array_0 =~= other@->Array_0);
                true
            },
            (Json::Object(a), Json::Object(b)) => {
                if a.len() != b.len() {
                    return false;
                }
                let mut i: usize = 0;
                while i < a.len()
                    invariant
                        i <= a@.len(),
                        a@.len() == b@.len(),
                        *self == Json::Object(*a),
                        *other == Json::Object(*b),
                        self@ is Object && self@->Object_0.len() == a@.len(),
                        other@ is Object && other@->Object_0.len() == b@.len(),
                        forall|k: int|
                            0 <= k < a@.len() ==> self@->Object_0[k] == ((#[trigger] a@[k]).0@, a@[k].1@),
                        forall|k: int|
                            0 <= k < b@.len() ==> other@->Object_0[k] == ((#[trigger] b@[k]).0@, b@[k].1@),
                        forall|k: int|
                            0 <= k < i ==> (#[trigger] a@[k]).0@ == b@[k].0@ && a@[k].1@ == b@[k].1@,
                    decreases a@.len() - i,
                {
                    if a[i].0 != b[i].0 || !a[i].1.same(&b[i].1) {
                        assert(self@->Object_0[i as int] != other@->Object_0[i as int]);
                        return false;
                    }
                    i = i + 1;
                }
                assert(self@->Object_0 =~= other@->Object_0);
                true
            },
            _ => false,
        }
    }

    /// Writes the document as JSON text and reads the text back. The text
    /// is the one that serde_json writes for the document, handed to it
    /// part by part. It is handed out only where reading it gives this
    /// document again; else the result is `None`, as it is where
    /// serde_json refuses the literal of a number or where two members of
    /// an object are under one key.
    pub fn to_text(&self) -> (r: Option<String>)
        ensures
            match to_text_spec(self@) {
                Some(text) => r matches Some(t) && t@ == text,
                None => r is None,
            },
            r matches Some(text) ==> json_parse_of(text@) == Some(self@),
    {
        let value = match to_value(self) {
            Some(v) => v,
            None => {
                return None;
            },
        };
        let text = match value_print(&value) {
            Some(t) => t,
            None => {
                return None;
            },
        };
        let back = Json::parse(text.as_str());
        self.confirm(text, back)
    }

    /// Hands out a text for this document if `back`, the document that was
    /// read from the text, is this document; else `None`.
    pub fn confirm(&self, text: String, back: Option<Json>) -> (r: Option<String>)
        ensures
            r == (if back matches Some(b) && b@ == self@ {
                Some(text)
            } else {
                None
            }),
    {
        match back {
            Some(b) => if b.same(self) {
                Some(text)
            } else {
                None
            },
            None => None,
        }
    }

    /// The first member under `key` of an object; `None` for a document
    /// that is no object or has no such member.
    pub fn member(&self, key: &str) -> (r: Option<&Json>)
        ensures
            match self@ {
                JsonView::Object(members) => match lookup(members, key@) {
                    Some(v) => r matches Some(j) && j@ == v,
                    None => r is None,
                },
                _ => r is None,
            },
    {
        proof {
            self.lemma_view_parts();
        }
        match self {
            Json::Object(members) => {
                let mut i: usize = 0;
                while i < members.len()
                    invariant
                        i <= members@.len(),
                        self@ is Object,
                        self@->Object_0.len() == members@.len(),
                        forall|k: int|
                            0 <= k < members@.len() ==> self@->Object_0[k] == ((#[trigger] members@[k]).0@, members@[k].1@),
                        forall|k: int| 0 <= k < i ==> self@->Object_0[k].0 != key@,
                    decreases members@.len() - i,
                {
                    if crate::types::str_eq(members[i].0.as_str(), key) {
                        proof {
                            assert(position(self@->Object_0, key@, i as int));
                            lemma_lookup_at(self@->Object_0, key@, i as int);
                        }
                        return Some(&members[i].1);
                    }
                    i = i + 1;
                }
                assert(forall|k: int| !position(self@->Object_0, key@, k));
                None
            },
            _ => None,
        }
    }

    /// The number of members of an object; `None` for any other document.
    pub fn member_count(&self) -> (r: Option<usize>)
        ensures
            match self@ {
                JsonView::Object(members) => r matches Some(n) && n == members.len(),
                _ => r is None,
            },
    {
        proof {
            self.lemma_view_parts();
        }
        match self {
            Json::Object(members) => Some(members.len()),
            _ => None,
        }
    }

    /// The characters of a string; `None` for any other document.
    pub fn as_str(&self) -> (r: Option<&str>)
        ensures
            match self@ {
                JsonView::Str(t) => r matches Some(s) && s@ == t,
                _ => r is None,
            },
    {
        match self {
            Json::Str(s) => Some(s.as_str()),
            _ => None,
        }
    }

    /// The literal of a number; `None` for any other document.
    pub fn as_number(&self) -> (r: Option<&str>)
        ensures
            match self@ {
                JsonView::Number(t) => r matches Some(s) && s@ == t,
                _ => r is None,
            },
    {
        match self {
            Json::Number(s) => Some(s.as_str()),
            _ => None,
        }
    }
}


/// The members of an object; `None` for any other document or for none.
pub open spec fn members_of(j: Option<JsonView>) -> Option<Seq<(Seq<char>, JsonView)>> {
    match j {
        Some(JsonView::Object(m)) => Some(m),
        _ => None,
    }
}

/// The one member of an object that has exactly one.
pub open spec fn single_of(j: Option<JsonView>) -> Option<(Seq<char>, JsonView)> {
    match j {
        Some(JsonView::Object(m)) => if m.len() == 1 {
            Some(m[0])
        } else {
            None
        },
        _ => None,
    }
}

/// The document behind a reference, if there is one.
pub open spec fn seen(j: Option<&Json>) -> Option<JsonView> {
    match j {
        Some(d) => Some(d@),
        None => None,
    }
}

impl Json {
    /// The one member of an object that has exactly one; `None` for any
    /// other document.
    pub fn single(&self) -> (r: Option<(&str, &Json)>)
        ensures
            match single_of(Some(self@)) {
                Some((key, value)) => r matches Some((k, v)) && k@ == key && v@ == value,
                None => r is None,
            },
    {
        proof {
            self.lemma_view_parts();
        }
        match self {
            Json::Object(members) => if members.len() == 1 {
                Some((members[0].0.as_str(), &members[0].1))
            } else {
                None
            },
            _ => None,
        }
    }

    /// An object of the given members.
    pub fn object(members: Vec<(String, Json)>) -> (j: Json)
        ensures
            j@ is Object,
            j@->Object_0.len() == members@.len(),
            forall|i: int|
                0 <= i < members@.len() ==> j@->Object_0[i] == ((#[trigger] members@[i]).0@, members@[i].1@),
    {
        let j = Json::Object(members);
        proof {
            j.lemma_view_parts();
        }
        j
    }

    /// A string.
    pub fn string(text: &str) -> (j: Json)
        ensures
            j@ == JsonView::Str(text@),
    {
        Json::Str(String::from_str(text))
    }
}

} // verus!
