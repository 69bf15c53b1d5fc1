//! JSON documents as plain values, with their mathematical model.

use crate::text::{
    chars_of, decimal, decimal_text, parse_i64, parse_u64, parsed_i64, parsed_u64, signed_decimal,
    signed_decimal_text, strings_view,
};
use vstd::prelude::*;

verus! {

/// The mathematical model of a JSON document. A number is held as its
/// literal; an object keeps its members in order.
pub enum JsonValue {
    Null,
    Bool(bool),
    Number(Seq<char>),
    Text(Seq<char>),
    Array(Seq<JsonValue>),
    Object(Seq<(Seq<char>, JsonValue)>),
}

/// A JSON document. A number is held as its literal, so that no precision
/// is lost on the way through; an object keeps its members in order.
#[derive(Debug)]
pub enum Json {
    Null,
    Bool(bool),
    Number(String),
    Text(String),
    Array(Vec<Json>),
    Object(Vec<(String, Json)>),
}

/// The models of a sequence of documents.
pub open spec fn items_view(items: Seq<Json>) -> Seq<JsonValue> {
    Seq::new(items.len(), |i: int| items[i]@)
}

/// The models of a sequence of object members.
pub open spec fn entries_view(entries: Seq<(String, Json)>) -> Seq<(Seq<char>, JsonValue)> {
    Seq::new(entries.len(), |i: int| (entries[i].0@, entries[i].1@))
}

impl View for Json {
    type V = JsonValue;

    open spec fn view(&self) -> JsonValue
        decreases self,
    {
        match self {
            Json::Null => JsonValue::Null,
            Json::Bool(b) => JsonValue::Bool(*b),
            Json::Number(n) => JsonValue::Number(n@),
            Json::Text(t) => JsonValue::Text(t@),
            Json::Array(items) => JsonValue::Array(
                Seq::new(
                    items@.len(),
                    |i: int|
                        if 0 <= i < items@.len() {
                            items@[i]@
                        } else {
                            JsonValue::Null
                        },
                ),
            ),
            Json::Object(entries) => JsonValue::Object(
                Seq::new(
                    entries@.len(),
                    |i: int|
                        (
                            entries@[i].0@,
                            if 0 <= i < entries@.len() {
                                entries@[i].1@
                            } else {
                                JsonValue::Null
                            },
                        ),
                ),
            ),
        }
    }
}

/// The model of an array is the sequence of its items' models.
pub proof fn lemma_array_view(items: Vec<Json>)
    ensures
        Json::Array(items)@ == JsonValue::Array(items_view(items@)),
{
    assert(Json::Array(items)@->Array_0 =~= items_view(items@));
}

/// The model of an object is the sequence of its members' models.
pub proof fn lemma_object_view(entries: Vec<(String, Json)>)
    ensures
        Json::Object(entries)@ == JsonValue::Object(entries_view(entries@)),
{
    let a = Json::Object(entries)@->Object_0;
    let b = entries_view(entries@);
    assert(Json::Object(entries)@ is Object);
    assert(b.len() == entries@.len());
    assert(a.len() == entries@.len());
    assert(a.len() == b.len());
    assert forall|i: int| 0 <= i < a.len() implies a[i] == b[i] by {
        assert(a[i] == (entries@[i].0@, entries@[i].1@));
    }
    assert(a =~= b);
}

/// The value of the first member of `entries` that is named `key`.
pub open spec fn lookup(entries: Seq<(Seq<char>, JsonValue)>, key: Seq<char>) -> Option<JsonValue>
    decreases entries.len(),
{
    if entries.len() == 0 {
        None
    } else if entries[0].0 == key {
        Some(entries[0].1)
    } else {
        lookup(entries.subrange(1, entries.len() as int), key)
    }
}

/// A member whose name no earlier member bears is the one that `lookup`
/// finds under that name.
pub proof fn lemma_member_at(entries: Seq<(Seq<char>, JsonValue)>, i: int)
    requires
        0 <= i < entries.len(),
        forall|k: int| 0 <= k < i ==> (#[trigger] entries[k]).0 != entries[i].0,
    ensures
        lookup(entries, entries[i].0) == Some(entries[i].1),
    decreases i,
{
    if i > 0 {
        let rest = entries.subrange(1, entries.len() as int);
        assert(rest[i - 1] == entries[i]);
        assert forall|k: int| 0 <= k < i - 1 implies (#[trigger] rest[k]).0 != rest[i - 1].0 by {
            assert(rest[k] == entries[k + 1]);
        }
        lemma_member_at(rest, i - 1);
    }
}

impl JsonValue {
    /// The member named `key`, where this is an object that has one.
    pub open spec fn member(self, key: Seq<char>) -> Option<JsonValue> {
        match self {
            JsonValue::Object(entries) => lookup(entries, key),
            _ => None,
        }
    }

    /// The text, where this is a string.
    pub open spec fn text(self) -> Option<Seq<char>> {
        match self {
            JsonValue::Text(t) => Some(t),
            _ => None,
        }
    }

    /// The number, where this is the literal of one that fits `u64`.
    pub open spec fn unsigned(self) -> Option<u64> {
        match self {
            JsonValue::Number(n) => parsed_u64(n),
            _ => None,
        }
    }

    /// The number, where this is the literal of one that fits `i64`.
    pub open spec fn signed(self) -> Option<i64> {
        match self {
            JsonValue::Number(n) => parsed_i64(n),
            _ => None,
        }
    }

    /// The truth value, where this is one.
    pub open spec fn boolean(self) -> Option<bool> {
        match self {
            JsonValue::Bool(b) => Some(b),
            _ => None,
        }
    }

    /// The texts of the items, where this is an array of strings.
    pub open spec fn text_list(self) -> Option<Seq<Seq<char>>> {
        match self {
            JsonValue::Array(items) if all_text(items) => Some(texts_of(items)),
            _ => None,
        }
    }

    /// The member named `key`, or `fallback` where there is none.
    pub open spec fn member_or(self, key: Seq<char>, fallback: JsonValue) -> JsonValue {
        match self.member(key) {
            Some(v) => v,
            None => fallback,
        }
    }
}

/// Every one of `items` is a string.
pub open spec fn all_text(items: Seq<JsonValue>) -> bool {
    forall|i: int| 0 <= i < items.len() ==> (#[trigger] items[i]) is Text
}

/// The texts of `items`, which are strings.
pub open spec fn texts_of(items: Seq<JsonValue>) -> Seq<Seq<char>> {
    Seq::new(items.len(), |i: int| items[i]->Text_0)
}

/// The array of the strings `texts`.
pub open spec fn text_array(texts: Seq<Seq<char>>) -> JsonValue {
    JsonValue::Array(Seq::new(texts.len(), |i: int| JsonValue::Text(texts[i])))
}

/// The list of texts read back from the array written for it is the list.
pub proof fn lemma_text_array_round_trip(texts: Seq<Seq<char>>)
    ensures
        text_array(texts).text_list() == Some(texts),
{
    let items = text_array(texts)->Array_0;
    assert(all_text(items));
    assert(texts_of(items) =~= texts);
}

/// The empty object.
pub open spec fn empty_object() -> JsonValue {
    JsonValue::Object(Seq::empty())
}

impl Clone for Json {
    fn clone(&self) -> (r: Json)
        ensures
            r@ == self@,
        decreases self,
    {
        match self {
            Json::Null => Json::Null,
            Json::Bool(b) => Json::Bool(*b),
            Json::Number(n) => Json::Number(n.clone()),
            Json::Text(t) => Json::Text(t.clone()),
            Json::Array(items) => {
                let mut out: Vec<Json> = Vec::new();
                let mut i: usize = 0;
                while i < items.len()
                    invariant
                        i <= items@.len(),
                        *self == Json::Array(*items),
                        out@.len() == i,
                        forall|k: int| 0 <= k < i ==> out@[k]@ == items@[k]@,
                    decreases items@.len() - i,
                {
                    proof {
                        assert(decreases_to!(*self => self->Array_0));
                        assert(decreases_to!(self->Array_0 => self->Array_0@));
                        assert(decreases_to!(self->Array_0@ => self->Array_0@[i as int]));
                    }
                    out.push(items[i].clone());
                    i += 1;
                }
                proof {
                    lemma_array_view(out);
                    lemma_array_view(*items);
                    assert(items_view(out@) =~= items_view(items@));
                }
                Json::Array(out)
            },
            Json::Object(entries) => {
                let mut out: Vec<(String, Json)> = Vec::new();
                let mut i: usize = 0;
                while i < entries.len()
                    invariant
                        i <= entries@.len(),
                        *self == Json::Object(*entries),
                        out@.len() == i,
                        forall|k: int|
                            0 <= k < i ==> out@[k].0@ == entries@[k].0@ && out@[k].1@
                                == entries@[k].1@,
                    decreases entries@.len() - i,
                {
                    proof {
                        assert(decreases_to!(*self => self->Object_0));
                        assert(decreases_to!(self->Object_0 => self->Object_0@));
                        assert(decreases_to!(self->Object_0@ => self->Object_0@[i as int]));
                        assert(decreases_to!(self->Object_0@[i as int] => self->Object_0@[i as int].1));
                    }
                    let name = entries[i].0.clone();
                    let value = entries[i].1.clone();
                    out.push((name, value));
                    i += 1;
                }
                proof {
                    lemma_object_view(out);
                    lemma_object_view(*entries);
                    assert(entries_view(out@) =~= entries_view(entries@));
                }
                Json::Object(out)
            },
        }
    }
}

/// The model of an optional text: the string, or `Null`.
pub open spec fn optional_text(text: Option<Seq<char>>) -> JsonValue {
    match text {
        Some(t) => JsonValue::Text(t),
        None => JsonValue::Null,
    }
}

/// The model of an optional string.
pub open spec fn option_view(text: Option<String>) -> Option<Seq<char>> {
    match text {
        Some(t) => Some(t@),
        None => None,
    }
}

/// The model of an optional borrowed string.
pub open spec fn option_str_view(text: Option<&str>) -> Option<Seq<char>> {
    match text {
        Some(t) => Some(t@),
        None => None,
    }
}

/// The model of an optional document.
pub open spec fn option_json_view(json: Option<&Json>) -> Option<JsonValue> {
    match json {
        Some(j) => Some(j@),
        None => None,
    }
}

/// Appends the member `key: value` to the members of an object under
/// construction.
pub fn push_member(entries: &mut Vec<(String, Json)>, key: &str, value: Json)
    ensures
        entries_view(final(entries)@) == entries_view(old(entries)@).push((key@, value@)),
{
    entries.push((key.to_owned(), value));
    assert(entries_view(entries@) =~= entries_view(old(entries)@).push((key@, value@)));
}

impl Json {
    /// The string `text`.
    pub fn text(text: &str) -> (r: Json)
        ensures
            r@ == JsonValue::Text(text@),
    {
        Json::Text(text.to_owned())
    }

    /// The string `text`, or `Null` where there is none.
    pub fn optional(text: &Option<String>) -> (r: Json)
        ensures
            r@ == optional_text(option_view(*text)),
    {
        match text {
            Some(t) => Json::Text(t.clone()),
            None => Json::Null,
        }
    }

    /// The number `n`.
    pub fn unsigned(n: u64) -> (r: Json)
        ensures
            r@ == JsonValue::Number(decimal(n as nat)),
    {
        Json::Number(decimal_text(n))
    }

    /// The object with the members `entries`.
    pub fn object(entries: Vec<(String, Json)>) -> (r: Json)
        ensures
            r@ == JsonValue::Object(entries_view(entries@)),
    {
        proof {
            lemma_object_view(entries);
        }
        Json::Object(entries)
    }

    /// The array with the items `items`.
    pub fn array(items: Vec<Json>) -> (r: Json)
        ensures
            r@ == JsonValue::Array(items_view(items@)),
    {
        proof {
            lemma_array_view(items);
        }
        Json::Array(items)
    }

    /// The object without members.
    pub fn empty() -> (r: Json)
        ensures
            r@ == empty_object(),
    {
        let entries: Vec<(String, Json)> = Vec::new();
        assert(entries_view(entries@) =~= Seq::empty());
        Json::object(entries)
    }

    /// The member named `key`, where this is an object that has one: the
    /// first of them, should several bear the name.
    pub fn get(&self, key: &str) -> (r: Option<&Json>)
        ensures
            option_json_view(r) == self@.member(key@),
    {
        match self {
            Json::Object(entries) => {
                proof {
                    lemma_object_view(*entries);
                }
                let wanted = key.to_owned();
                let ghost all = entries_view(entries@);
                let mut i: usize = 0;
                assert(all.subrange(0, all.len() as int) =~= all);
                while i < entries.len()
                    invariant
                        i <= entries@.len(),
                        all == entries_view(entries@),
                        self@ == JsonValue::Object(all),
                        wanted@ == key@,
                        lookup(all, key@) == lookup(all.subrange(i as int, all.len() as int), key@),
                    decreases entries@.len() - i,
                {
                    let ghost rest = all.subrange(i as int, all.len() as int);
                    assert(rest[0] == all[i as int]);
                    assert(rest.subrange(1, rest.len() as int) =~= all.subrange(
                        i + 1,
                        all.len() as int,
                    ));
                    if entries[i].0 == wanted {
                        return Some(&entries[i].1);
                    }
                    i += 1;
                }
                None
            },
            _ => None,
        }
    }

    /// The text, where this is a string.
    pub fn as_str(&self) -> (r: Option<&str>)
        ensures
            option_str_view(r) == self@.text(),
    {
        match self {
            Json::Text(t) => Some(t.as_str()),
            _ => None,
        }
    }

    /// The number, where this is the decimal literal of one that fits `u64`.
    pub fn as_u64(&self) -> (r: Option<u64>)
        ensures
            r == self@.unsigned(),
    {
        match self {
            Json::Number(n) => {
                let chars = chars_of(n.as_str());
                assert(chars@.subrange(0, chars@.len() as int) =~= chars@);
                parse_u64(&chars, 0, chars.len())
            },
            _ => None,
        }
    }

    /// The member named `key`, or `Null` where there is none.
    pub fn get_or_null(&self, key: &str) -> (r: Json)
        ensures
            r@ == self@.member_or(key@, JsonValue::Null),
    {
        match self.get(key) {
            Some(value) => value.clone(),
            None => Json::Null,
        }
    }

    /// The member named `key`, or the empty object where there is none.
    pub fn get_or_empty(&self, key: &str) -> (r: Json)
        ensures
            r@ == self@.member_or(key@, empty_object()),
    {
        match self.get(key) {
            Some(value) => value.clone(),
            None => Json::empty(),
        }
    }

    /// The number `n`.
    pub fn signed(n: i64) -> (r: Json)
        ensures
            r@ == JsonValue::Number(signed_decimal(n as int)),
    {
        Json::Number(signed_decimal_text(n))
    }

    /// The array of the strings `texts`.
    pub fn text_list(texts: &Vec<String>) -> (r: Json)
        ensures
            r@ == text_array(strings_view(texts@)),
    {
        let mut items: Vec<Json> = Vec::new();
        let mut i: usize = 0;
        while i < texts.len()
            invariant
                i <= texts@.len(),
                items@.len() == i,
                forall|k: int| 0 <= k < i ==> (#[trigger] items@[k])@ == JsonValue::Text(texts@[k]@),
            decreases texts@.len() - i,
        {
            items.push(Json::Text(texts[i].clone()));
            i += 1;
        }
        proof {
            lemma_array_view(items);
            assert(items_view(items@) =~= text_array(strings_view(texts@))->Array_0);
        }
        Json::Array(items)
    }

    /// The number, where this is the decimal literal of one that fits `i64`.
    pub fn as_i64(&self) -> (r: Option<i64>)
        ensures
            r == self@.signed(),
    {
        match self {
            Json::Number(n) => {
                let chars = chars_of(n.as_str());
                parse_i64(&chars)
            },
            _ => None,
        }
    }

    /// The truth value, where this is one.
    pub fn as_bool(&self) -> (r: Option<bool>)
        ensures
            r == self@.boolean(),
    {
        match self {
            Json::Bool(b) => Some(*b),
            _ => None,
        }
    }

    /// The texts of the items, where this is an array of strings.
    pub fn as_text_list(&self) -> (r: Option<Vec<String>>)
        ensures
            match r {
                Some(texts) => self@.text_list() == Some(strings_view(texts@)),
                None => self@.text_list() is None,
            },
    {
        match self {
            Json::Array(items) => {
                proof {
                    lemma_array_view(*items);
                }
                let mut texts: Vec<String> = Vec::new();
                let mut i: usize = 0;
                while i < items.len()
                    invariant
                        i <= items@.len(),
                        texts@.len() == i,
                        self@ == JsonValue::Array(items_view(items@)),
                        forall|k: int|
                            0 <= k < i ==> (#[trigger] items_view(items@)[k]) == JsonValue::Text(
                                texts@[k]@,
                            ),
                    decreases items@.len() - i,
                {
                    match &items[i] {
                        Json::Text(t) => {
                            texts.push(t.clone());
                        },
                        _ => {
                            assert(!(items_view(items@)[i as int] is Text));
                            return None;
                        },
                    }
                    i += 1;
                }
                proof {
                    assert(all_text(items_view(items@)));
                    assert(texts_of(items_view(items@)) =~= strings_view(texts@));
                }
                Some(texts)
            },
            _ => None,
        }
    }
}

} // verus!
