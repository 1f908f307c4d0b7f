//! JSON values as the projections read them.

use vstd::prelude::*;

use crate::text;
use crate::text::{i64_to_text, parse_i32, parse_i64, text_eq, trim};

verus! {

/// What the projections read of a JSON number.
#[derive(Debug, PartialEq, Eq)]
pub struct JsonNumber {
    /// The number as an `i64`, if it is an integer of that range.
    pub signed: Option<i64>,
    /// The number as a `u64`, if it is an integer of that range.
    pub unsigned: Option<u64>,
    /// The number as it is written.
    pub text: String,
}

/// A JSON value. The members of an object stand in a list; the first member
/// with a key is the one that the key names.
#[derive(Debug, PartialEq, Eq)]
pub enum Json {
    Null,
    Bool(bool),
    Number(JsonNumber),
    Text(String),
    Array(Vec<Json>),
    Object(Vec<(String, Json)>),
}

/// The model of a JSON number.
#[verifier::ext_equal]
pub struct NumberView {
    pub signed: Option<i64>,
    pub unsigned: Option<u64>,
    pub text: Seq<char>,
}

/// The model of a JSON value.
#[verifier::ext_equal]
pub enum JsonView {
    Null,
    Bool(bool),
    Number(NumberView),
    Text(Seq<char>),
    Array(Seq<JsonView>),
    Object(Seq<(Seq<char>, JsonView)>),
}

impl View for JsonNumber {
    type V = NumberView;

    open spec fn view(&self) -> NumberView {
        NumberView { signed: self.signed, unsigned: self.unsigned, text: self.text@ }
    }
}

/// The model of a JSON value.
pub open spec fn json_view(json: Json) -> JsonView
    decreases json,
{
    match json {
        Json::Null => JsonView::Null,
        Json::Bool(b) => JsonView::Bool(b),
        Json::Number(n) => JsonView::Number(n@),
        Json::Text(t) => JsonView::Text(t@),
        Json::Array(items) => JsonView::Array(
            Seq::new(
                items@.len(),
                |i: int|
                    if 0 <= i < items@.len() {
                        json_view(items@[i])
                    } else {
                        JsonView::Null
                    },
            ),
        ),
        Json::Object(members) => JsonView::Object(
            Seq::new(
                members@.len(),
                |i: int|
                    if 0 <= i < members@.len() {
                        (members@[i].0@, json_view(members@[i].1))
                    } else {
                        (Seq::empty(), JsonView::Null)
                    },
            ),
        ),
    }
}

impl View for Json {
    type V = JsonView;

    open spec fn view(&self) -> JsonView {
        json_view(*self)
    }
}

/// A value of the `serde_json` crate.
#[verifier::external_type_specification]
#[verifier::external_body]
pub struct ExValue(serde_json::Value);

/// An error of the `serde_json` crate.
#[verifier::external_type_specification]
#[verifier::external_body]
pub struct ExJsonParseError(serde_json::Error);

/// The JSON tree that a `serde_json` value holds.
pub uninterp spec fn value_json(value: serde_json::Value) -> JsonView;

/// The JSON tree that `serde_json::from_str` reads from a text, if it accepts it.
pub uninterp spec fn parsed_json(text: Seq<char>) -> Option<JsonView>;

/// The outermost layer of a `serde_json` value, opened.
enum JsonLayer {
    Null,
    Bool(bool),
    Number(JsonNumber),
    Text(String),
    Array(Vec<serde_json::Value>),
    Object(Vec<(String, serde_json::Value)>),
}

spec fn layer_json(layer: JsonLayer) -> JsonView {
    match layer {
        JsonLayer::Null => JsonView::Null,
        JsonLayer::Bool(b) => JsonView::Bool(b),
        JsonLayer::Number(n) => JsonView::Number(n@),
        JsonLayer::Text(t) => JsonView::Text(t@),
        JsonLayer::Array(items) => JsonView::Array(
            Seq::new(items@.len(), |i: int| value_json(items@[i])),
        ),
        JsonLayer::Object(members) => JsonView::Object(
            Seq::new(members@.len(), |i: int| (members@[i].0@, value_json(members@[i].1))),
        ),
    }
}

/// `serde_json::from_str` for `serde_json::Value`: the value that it reads holds
/// the tree named by `parsed_json`, and it fails just where there is none.
#[verifier::external_body]
fn parse_value(text: &str) -> (r: Result<serde_json::Value, serde_json::Error>)
    ensures
        match r {
            Ok(value) => parsed_json(text@) == Some(value_json(value)),
            Err(_) => parsed_json(text@) is None,
        },
{
    serde_json::from_str(text)
}

/// Opens a `serde_json::Value` by one layer: which variant it is, and what that
/// variant holds. A number is read by `as_i64`, `as_u64` and `to_string`; the
/// members of an object come in the order of its map.
#[verifier::external_body]
fn open_value(value: serde_json::Value) -> (r: JsonLayer)
    ensures
        layer_json(r) == value_json(value),
{
    match value {
        serde_json::Value::Null => JsonLayer::Null,
        serde_json::Value::Bool(b) => JsonLayer::Bool(b),
        serde_json::Value::Number(n) => JsonLayer::Number(
            JsonNumber { signed: n.as_i64(), unsigned: n.as_u64(), text: n.to_string() },
        ),
        serde_json::Value::String(t) => JsonLayer::Text(t),
        serde_json::Value::Array(items) => JsonLayer::Array(items),
        serde_json::Value::Object(members) => JsonLayer::Object(members.into_iter().collect()),
    }
}

/// The JSON tree of a `serde_json` value.
fn json_of_value(value: serde_json::Value) -> (r: Json)
    ensures
        r@ == value_json(value),
    decreases value_json(value),
{
    let ghost whole = value_json(value);
    match open_value(value) {
        JsonLayer::Null => Json::Null,
        JsonLayer::Bool(b) => Json::Bool(b),
        JsonLayer::Number(n) => Json::Number(n),
        JsonLayer::Text(t) => Json::Text(t),
        JsonLayer::Array(items) => {
            let ghost all = items@;
            let mut out: Vec<Json> = Vec::new();
            for item in iter: items
                invariant
                    iter.seq() == all,
                    whole == value_json(value),
                    whole is Array,
                    whole->Array_0 == Seq::new(all.len(), |i: int| value_json(all[i])),
                    out@.len() == iter.index(),
                    forall|k: int|
                        0 <= k < iter.index() ==> json_view(#[trigger] out@[k]) == value_json(
                            all[k],
                        ),
            {
                proof {
                    assert(item == all[iter.index()]);
                    assert(whole->Array_0[iter.index()] == value_json(item));
                    assert(decreases_to!(whole => whole->Array_0[iter.index()]));
                }
                out.push(json_of_value(item));
            }
            let r = Json::Array(out);
            assert(r@->Array_0 =~= whole->Array_0);
            r
        },
        JsonLayer::Object(members) => {
            let ghost all = members@;
            let mut out: Vec<(String, Json)> = Vec::new();
            for member in iter: members
                invariant
                    iter.seq() == all,
                    whole == value_json(value),
                    whole is Object,
                    whole->Object_0 == Seq::new(
                        all.len(),
                        |i: int| (all[i].0@, value_json(all[i].1)),
                    ),
                    out@.len() == iter.index(),
                    forall|k: int|
                        0 <= k < iter.index() ==> (#[trigger] out@[k]).0@ == all[k].0@
                            && json_view(out@[k].1) == value_json(all[k].1),
            {
                proof {
                    assert(member == all[iter.index()]);
                    assert(whole->Object_0[iter.index()] == (member.0@, value_json(member.1)));
                    assert(decreases_to!(whole => whole->Object_0[iter.index()].1));
                }
                out.push((member.0, json_of_value(member.1)));
            }
            let r = Json::Object(out);
            assert(r@->Object_0 =~= whole->Object_0);
            r
        },
    }
}

/// A text that is not JSON.
#[derive(Debug, PartialEq, Eq)]
pub struct InvalidJson;

impl Json {
    /// Reads a JSON text.
    pub fn parse(text: &str) -> (r: Result<Json, InvalidJson>)
        ensures
            match r {
                Ok(json) => parsed_json(text@) == Some(json@),
                Err(_) => parsed_json(text@) is None,
            },
    {
        match parse_value(text) {
            Ok(value) => Ok(json_of_value(value)),
            Err(_) => Err(InvalidJson),
        }
    }
}

impl Clone for JsonNumber {
    fn clone(&self) -> (r: JsonNumber)
        ensures
            r@ == self@,
    {
        JsonNumber { signed: self.signed, unsigned: self.unsigned, text: self.text.clone() }
    }
}

impl Clone for Json {
    fn clone(&self) -> (r: Json)
        ensures
            r@ == self@,
        decreases self,
    {
        match self {
            Json::Null => Json::Null,
            Json::Bool(b) => Json::Bool(*b),
            Json::Number(n) => Json::Number(n.clone()),
            Json::Text(t) => Json::Text(t.clone()),
            Json::Array(items) => {
                let mut out: Vec<Json> = Vec::new();
                let mut i: usize = 0;
                while i < items.len()
                    invariant
                        i <= items.len(),
                        *self is Array,
                        self->Array_0 == *items,
                        out@.len() == i,
                        forall|k: int|
                            0 <= k < i ==> json_view(#[trigger] out@[k]) == json_view(items@[k]),
                    decreases items.len() - i,
                {
                    out.push(items[i].clone());
                    i = i + 1;
                }
                let r = Json::Array(out);
                assert(r@->Array_0 =~= self@->Array_0);
                r
            },
            Json::Object(members) => {
                let mut out: Vec<(String, Json)> = Vec::new();
                let mut i: usize = 0;
                while i < members.len()
                    invariant
                        i <= members.len(),
                        *self is Object,
                        self->Object_0 == *members,
                        out@.len() == i,
                        forall|k: int|
                            0 <= k < i ==> (#[trigger] out@[k]).0@ == members@[k].0@ && json_view(
                                out@[k].1,
                            ) == json_view(members@[k].1),
                    decreases members.len() - i,
                {
                    out.push((members[i].0.clone(), members[i].1.clone()));
                    i = i + 1;
                }
                let r = Json::Object(out);
                assert(r@->Object_0 =~= self@->Object_0);
                r
            },
        }
    }
}

/// The value of the first member with a key.
pub open spec fn find_member(members: Seq<(Seq<char>, JsonView)>, key: Seq<char>) -> Option<
    JsonView,
>
    decreases members.len(),
{
    if members.len() == 0 {
        None
    } else if members[0].0 == key {
        Some(members[0].1)
    } else {
        find_member(members.skip(1), key)
    }
}

/// What a key names in a value: nothing unless the value is an object.
pub open spec fn member(json: JsonView, key: Seq<char>) -> Option<JsonView> {
    match json {
        JsonView::Object(members) => find_member(members, key),
        _ => None,
    }
}

/// The value of a text; nothing for any other value.
pub open spec fn text_value(json: JsonView) -> Option<Seq<char>> {
    match json {
        JsonView::Text(t) => Some(t),
        _ => None,
    }
}

/// A number of the range of `i64`; nothing for any other value.
pub open spec fn int_value(json: JsonView) -> Option<i64> {
    match json {
        JsonView::Number(n) => n.signed,
        _ => None,
    }
}

/// The scalar reading of a value as a text: a text that is not blank, or a
/// number as it is written.
pub open spec fn scalar_text(json: JsonView) -> Option<Seq<char>> {
    match json {
        JsonView::Text(t) => if text::trimmed(t).len() > 0 {
            Some(t)
        } else {
            None
        },
        JsonView::Number(n) => Some(n.text),
        _ => None,
    }
}

/// The scalar reading of a value as an `i64`: a number of that range, or a text
/// that writes one, white space around it aside.
pub open spec fn scalar_int(json: JsonView) -> Option<i64> {
    match json {
        JsonView::Number(n) => match (n.signed, n.unsigned) {
            (Some(i), _) => Some(i),
            (None, Some(u)) => if u <= i64::MAX {
                Some(u as i64)
            } else {
                None
            },
            (None, None) => None,
        },
        JsonView::Text(t) => text::written_i64(text::trimmed(t)),
        _ => None,
    }
}

/// The scalar reading of a value as an `i32`: a number of that range, or a text
/// that writes one, white space around it aside.
pub open spec fn scalar_small_int(json: JsonView) -> Option<i32> {
    match json {
        JsonView::Number(n) => match n.signed {
            Some(i) => if i32::MIN <= i <= i32::MAX {
                Some(i as i32)
            } else {
                None
            },
            None => None,
        },
        JsonView::Text(t) => text::written_i32(text::trimmed(t)),
        _ => None,
    }
}

/// The scalar text under a key.
pub open spec fn text_at(json: JsonView, key: Seq<char>) -> Option<Seq<char>> {
    match member(json, key) {
        Some(value) => scalar_text(value),
        None => None,
    }
}

/// The scalar integer under a key.
pub open spec fn int_at(json: JsonView, key: Seq<char>) -> Option<i64> {
    match member(json, key) {
        Some(value) => scalar_int(value),
        None => None,
    }
}

/// The plain text under a key.
pub open spec fn str_at(json: JsonView, key: Seq<char>) -> Option<Seq<char>> {
    match member(json, key) {
        Some(value) => text_value(value),
        None => None,
    }
}

/// The model of an optional JSON value.
pub open spec fn opt_json(value: Option<Json>) -> Option<JsonView> {
    match value {
        Some(json) => Some(json@),
        None => None,
    }
}

/// The model of an optional borrowed JSON value.
pub open spec fn opt_json_ref(value: Option<&Json>) -> Option<JsonView> {
    match value {
        Some(json) => Some(json@),
        None => None,
    }
}

/// The models of a list of JSON values.
pub open spec fn jsons_view(items: Seq<Json>) -> Seq<JsonView> {
    Seq::new(items.len(), |i: int| items[i]@)
}

impl Json {
    /// What a key names in this value: nothing unless it is an object.
    pub fn get(&self, key: &str) -> (r: Option<&Json>)
        ensures
            opt_json_ref(r) == member(self@, key@),
    {
        match self {
            Json::Object(members) => {
                let ghost all = self@->Object_0;
                assert(all.skip(0) =~= all);
                let mut i: usize = 0;
                while i < members.len()
                    invariant
                        i <= members.len(),
                        *self is Object,
                        self->Object_0 == *members,
                        all == self@->Object_0,
                        find_member(all, key@) == find_member(all.skip(i as int), key@),
                    decreases members.len() - i,
                {
                    assert(all.skip(i as int)[0] == (members@[i as int].0@, members@[i as int].1@));
                    if text_eq(members[i].0.as_str(), key) {
                        return Some(&members[i].1);
                    }
                    assert(all.skip(i as int).skip(1) =~= all.skip(i + 1));
                    i = i + 1;
                }
                None
            },
            _ => None,
        }
    }

    /// This value, if it is a text.
    pub fn as_str(&self) -> (r: Option<&str>)
        ensures
            match r {
                Some(t) => text_value(self@) == Some(t@),
                None => text_value(self@) is None,
            },
    {
        match self {
            Json::Text(t) => Some(t.as_str()),
            _ => None,
        }
    }

    /// This value, if it is a number of the range of `i64`.
    pub fn as_i64(&self) -> (r: Option<i64>)
        ensures
            r == int_value(self@),
    {
        match self {
            Json::Number(n) => n.signed,
            _ => None,
        }
    }

    /// The items of this value, if it is an array.
    pub fn as_array(&self) -> (r: Option<&Vec<Json>>)
        ensures
            match r {
                Some(items) => self@ == JsonView::Array(jsons_view(items@)),
                None => !(self@ is Array),
            },
    {
        match self {
            Json::Array(items) => {
                assert(self@->Array_0 =~= jsons_view(items@));
                Some(items)
            },
            _ => None,
        }
    }

    /// Whether this value is an object.
    pub fn is_object(&self) -> (r: bool)
        ensures
            r == (self@ is Object),
    {
        match self {
            Json::Object(_) => true,
            _ => false,
        }
    }

    /// The plain text under a key.
    pub fn str_at(&self, key: &str) -> (r: Option<&str>)
        ensures
            match r {
                Some(t) => str_at(self@, key@) == Some(t@),
                None => str_at(self@, key@) is None,
            },
    {
        match self.get(key) {
            Some(value) => value.as_str(),
            None => None,
        }
    }

    /// The scalar text under a key.
    pub fn text_at(&self, key: &str) -> (r: Option<String>)
        ensures
            text::opt_view(r) == text_at(self@, key@),
    {
        match self.get(key) {
            Some(value) => scalar_string(value),
            None => None,
        }
    }

    /// The scalar integer under a key.
    pub fn int_at(&self, key: &str) -> (r: Option<i64>)
        ensures
            r == int_at(self@, key@),
    {
        match self.get(key) {
            Some(value) => scalar_i64(value),
            None => None,
        }
    }
}

/// The first of two optional texts that is there.
pub fn or_text(first: Option<String>, second: Option<String>) -> (r: Option<String>)
    ensures
        text::opt_view(r) == text::or_else_view(text::opt_view(first), text::opt_view(second)),
{
    match first {
        Some(t) => Some(t),
        None => second,
    }
}

/// The first of two optional integers that is there.
pub fn or_int(first: Option<i64>, second: Option<i64>) -> (r: Option<i64>)
    ensures
        r == text::or_else_view(first, second),
{
    match first {
        Some(n) => Some(n),
        None => second,
    }
}

/// The texts of a list of keys.
pub open spec fn keys_view(keys: Seq<&str>) -> Seq<Seq<char>> {
    Seq::new(keys.len(), |i: int| keys[i]@)
}

/// The scalar text under the first of several keys that has one.
pub open spec fn first_text(json: JsonView, keys: Seq<Seq<char>>) -> Option<Seq<char>>
    decreases keys.len(),
{
    if keys.len() == 0 {
        None
    } else {
        text::or_else_view(text_at(json, keys[0]), first_text(json, keys.skip(1)))
    }
}

/// The scalar integer under the first of several keys that has one.
pub open spec fn first_int(json: JsonView, keys: Seq<Seq<char>>) -> Option<i64>
    decreases keys.len(),
{
    if keys.len() == 0 {
        None
    } else {
        text::or_else_view(int_at(json, keys[0]), first_int(json, keys.skip(1)))
    }
}

/// The plain text under the first of several keys that has one.
pub open spec fn first_str(json: JsonView, keys: Seq<Seq<char>>) -> Option<Seq<char>>
    decreases keys.len(),
{
    if keys.len() == 0 {
        None
    } else {
        text::or_else_view(str_at(json, keys[0]), first_str(json, keys.skip(1)))
    }
}

/// Reads the scalar text under the first of several keys that has one.
pub fn detail_string(detail: &Json, keys: &[&str]) -> (r: Option<String>)
    ensures
        forall|names: Seq<Seq<char>>|
            names =~= keys_view(keys@) ==> text::opt_view(r) == #[trigger] first_text(
                detail@,
                names,
            ),
{
    let ghost all = keys_view(keys@);
    assert(all.skip(0) =~= all);
    let mut i: usize = 0;
    while i < keys.len()
        invariant
            i <= keys@.len(),
            all == keys_view(keys@),
            first_text(detail@, all) == first_text(detail@, all.skip(i as int)),
        decreases keys@.len() - i,
    {
        assert(all.skip(i as int)[0] == keys@[i as int]@);
        let found = detail.text_at(keys[i]);
        if found.is_some() {
            return found;
        }
        assert(all.skip(i as int).skip(1) =~= all.skip(i + 1));
        i = i + 1;
    }
    None
}

/// Reads the scalar integer under the first of several keys that has one.
pub fn detail_i64(detail: &Json, keys: &[&str]) -> (r: Option<i64>)
    ensures
        forall|names: Seq<Seq<char>>|
            names =~= keys_view(keys@) ==> r == #[trigger] first_int(detail@, names),
{
    let ghost all = keys_view(keys@);
    assert(all.skip(0) =~= all);
    let mut i: usize = 0;
    while i < keys.len()
        invariant
            i <= keys@.len(),
            all == keys_view(keys@),
            first_int(detail@, all) == first_int(detail@, all.skip(i as int)),
        decreases keys@.len() - i,
    {
        assert(all.skip(i as int)[0] == keys@[i as int]@);
        let found = detail.int_at(keys[i]);
        if found.is_some() {
            return found;
        }
        assert(all.skip(i as int).skip(1) =~= all.skip(i + 1));
        i = i + 1;
    }
    None
}

/// The plain text under the first of several keys that has one, or an empty one.
pub open spec fn str_or_empty(json: JsonView, keys: Seq<Seq<char>>) -> Seq<char> {
    match first_str(json, keys) {
        Some(t) => t,
        None => Seq::empty(),
    }
}

/// Reads the plain text under the first of several keys that has one; an empty
/// one where none has.
pub fn string_field_from_keys<'a>(value: &'a Json, keys: &[&str]) -> (r: &'a str)
    ensures
        forall|names: Seq<Seq<char>>|
            names =~= keys_view(keys@) ==> r@ == #[trigger] str_or_empty(value@, names),
{
    let ghost all = keys_view(keys@);
    assert(all.skip(0) =~= all);
    let mut i: usize = 0;
    while i < keys.len()
        invariant
            i <= keys@.len(),
            all == keys_view(keys@),
            first_str(value@, all) == first_str(value@, all.skip(i as int)),
        decreases keys@.len() - i,
    {
        assert(all.skip(i as int)[0] == keys@[i as int]@);
        if let Some(found) = value.str_at(keys[i]) {
            return found;
        }
        assert(all.skip(i as int).skip(1) =~= all.skip(i + 1));
        i = i + 1;
    }
    proof {
        reveal_strlit("");
        assert(""@ =~= Seq::<char>::empty());
    }
    ""
}

/// Reads a value as an `i32`: a number of that range, or a text that writes one.
pub fn scalar_i32(value: &Json) -> (r: Option<i32>)
    ensures
        r == scalar_small_int(value@),
{
    match value {
        Json::Number(n) => match n.signed {
            Some(i) => if -0x8000_0000 <= i && i <= 0x7fff_ffff {
                Some(i as i32)
            } else {
                None
            },
            None => None,
        },
        Json::Text(t) => parse_i32(trim(t.as_str())),
        _ => None,
    }
}

/// Reads a value as an `i64`: a number of that range, or a text that writes one.
pub fn scalar_i64(value: &Json) -> (r: Option<i64>)
    ensures
        r == scalar_int(value@),
{
    match value {
        Json::Number(n) => match n.signed {
            Some(i) => Some(i),
            None => match n.unsigned {
                Some(u) => if u <= 0x7fff_ffff_ffff_ffff {
                    Some(u as i64)
                } else {
                    None
                },
                None => None,
            },
        },
        Json::Text(t) => parse_i64(trim(t.as_str())),
        _ => None,
    }
}

/// Reads a value as a text: a text that is not blank, or a number as written.
pub fn scalar_string(value: &Json) -> (r: Option<String>)
    ensures
        text::opt_view(r) == scalar_text(value@),
{
    match value {
        Json::Text(t) => if trim(t.as_str()).is_empty() {
            None
        } else {
            Some(t.clone())
        },
        Json::Number(n) => Some(n.text.clone()),
        _ => None,
    }
}

/// The integer number `n` as a JSON value.
pub open spec fn int_json(n: int) -> JsonView {
    JsonView::Number(
        NumberView {
            signed: if i64::MIN <= n <= i64::MAX {
                Some(n as i64)
            } else {
                None
            },
            unsigned: if 0 <= n <= u64::MAX {
                Some(n as u64)
            } else {
                None
            },
            text: text::decimal(n),
        },
    )
}

/// The model of an object with the given members.
pub open spec fn members_view(members: Seq<(String, Json)>) -> Seq<(Seq<char>, JsonView)> {
    Seq::new(members.len(), |i: int| (members[i].0@, members[i].1@))
}

impl Json {
    /// An integer number.
    pub fn integer(n: i64) -> (r: Json)
        ensures
            r@ == int_json(n as int),
    {
        Json::Number(
            JsonNumber {
                signed: Some(n),
                unsigned: if n >= 0 {
                    Some(n as u64)
                } else {
                    None
                },
                text: i64_to_text(n),
            },
        )
    }

    /// A text.
    pub fn text(t: &str) -> (r: Json)
        ensures
            r@ == JsonView::Text(t@),
    {
        Json::Text(t.to_string())
    }

    /// An object.
    pub fn object(members: Vec<(String, Json)>) -> (r: Json)
        ensures
            r@ == JsonView::Object(members_view(members@)),
    {
        let r = Json::Object(members);
        assert(r@->Object_0 =~= members_view(members@));
        r
    }
}

/// A number written out reads back: the scalar readings of an integer are the
/// integer itself and its decimal digits.
pub proof fn integer_scalars(n: i64)
    ensures
        scalar_int(int_json(n as int)) == Some(n),
        scalar_text(int_json(n as int)) == Some(text::decimal(n as int)),
        scalar_small_int(int_json(n as int)) is Some <==> i32::MIN <= n <= i32::MAX,
{
}

} // verus!
