//! JSON text: reading it and writing it with `serde_json`.
//!
//! `serde_json::Value` is opened and closed one layer at a time, and the trees
//! are walked by verified code.
use vstd::prelude::*;

use crate::json::{array_view, decimal_view, lemma_object_view_last, object_view, Json, JsonView};
use crate::text::same_text;

verus! {

/// `serde_json::Value`, carried between `serde_json` and [`Json`].
#[verifier::external_type_specification]
#[verifier::external_body]
pub struct ExValue(serde_json::Value);

/// What a `serde_json::Value` holds.
pub uninterp spec fn value_view(value: serde_json::Value) -> JsonView;

/// What a decimal text stands for: where it reads as a finite number, the text
/// that `serde_json` prints for that number; nothing for any other text. The
/// reading (`str::parse`), `Number::from_f64` and the printing stand under one
/// name because what passes between them is a floating-point number.
pub uninterp spec fn decimal_value(text: Seq<char>) -> Option<Seq<char>>;

/// What `serde_json::from_str` reads from a text: the value, or the message of
/// the error.
pub uninterp spec fn json_parsed(text: Seq<char>) -> Result<JsonView, Seq<char>>;

/// The one-line text that `serde_json` prints for a value.
pub uninterp spec fn json_compact(value: JsonView) -> Seq<char>;

/// The indented text that `serde_json` prints for a value.
pub uninterp spec fn json_pretty(value: JsonView) -> Seq<char>;

/// The outermost layer of a `serde_json::Value`.
pub enum Layer {
    Null,
    Bool(bool),
    Unsigned(u64),
    Signed(i64),
    Decimal(String),
    Str(String),
    Array(Vec<serde_json::Value>),
    Object(Vec<(String, serde_json::Value)>),
}

/// What the items of an array hold.
pub open spec fn values_view(items: Seq<serde_json::Value>) -> Seq<JsonView> {
    Seq::new(items.len(), |i: int| value_view(items[i]))
}

/// What the members of an object hold; of two with one key, the last counts.
pub open spec fn members_view(entries: Seq<(String, serde_json::Value)>) -> Map<
    Seq<char>,
    JsonView,
>
    decreases entries.len(),
{
    if entries.len() == 0 {
        Map::empty()
    } else {
        members_view(entries.drop_last()).insert(entries.last().0@, value_view(entries.last().1))
    }
}

/// No key occurs twice.
pub open spec fn distinct_keys(entries: Seq<(String, serde_json::Value)>) -> bool {
    forall|i: int, j: int|
        0 <= i < j < entries.len() ==> #[trigger] entries[i].0@ != #[trigger] entries[j].0@
}

impl View for Layer {
    type V = JsonView;

    open spec fn view(&self) -> JsonView {
        match self {
            Layer::Null => JsonView::Null,
            Layer::Bool(b) => JsonView::Bool(*b),
            Layer::Unsigned(n) => JsonView::Int(*n as int),
            Layer::Signed(n) => JsonView::Int(*n as int),
            Layer::Decimal(text) => decimal_view(text@),
            Layer::Str(text) => JsonView::Str(text@),
            Layer::Array(items) => JsonView::Array(values_view(items@)),
            Layer::Object(entries) => JsonView::Object(members_view(entries@)),
        }
    }
}

/// Calls `serde_json::from_str` for a `serde_json::Value`. The result is a
/// function of the text alone; the error is kept as the message it prints.
#[verifier::external_body]
fn read_text(text: &str) -> (read: Result<serde_json::Value, String>)
    ensures
        match read {
            Ok(value) => json_parsed(text@) == Ok::<JsonView, Seq<char>>(value_view(value)),
            Err(message) => json_parsed(text@) == Err::<JsonView, Seq<char>>(message@),
        },
{
    serde_json::from_str(text).map_err(|e: serde_json::Error| e.to_string())
}

/// Takes the variants of `serde_json::Value` apart, and those of its number by
/// `Number::as_u64`, `Number::as_i64` and `Number`'s own text. The layer holds
/// what the value holds. The map of an object has each key once. A number
/// that is no integer is printed so that the text reads as that number again.
#[verifier::external_body]
fn open_value(value: serde_json::Value) -> (layer: Layer)
    ensures
        layer@ == value_view(value),
        layer matches Layer::Object(entries) ==> distinct_keys(entries@),
        layer matches Layer::Decimal(text) ==> decimal_value(text@) == Some(text@),
{
    match value {
        serde_json::Value::Null => Layer::Null,
        serde_json::Value::Bool(b) => Layer::Bool(b),
        serde_json::Value::Number(n) => match (n.as_u64(), n.as_i64()) {
            (Some(u), _) => Layer::Unsigned(u),
            (None, Some(i)) => Layer::Signed(i),
            (None, None) => Layer::Decimal(n.to_string()),
        },
        serde_json::Value::String(s) => Layer::Str(s),
        serde_json::Value::Array(items) => Layer::Array(items),
        serde_json::Value::Object(members) => Layer::Object(members.into_iter().collect()),
    }
}

/// Puts a `serde_json::Value` together, an object by `FromIterator` of
/// `serde_json::Map`, which is handed each key once and keeps every member, and
/// a number that is no integer by `Number::from_f64`, whose refusal of a text
/// that is no finite number gives `null`.
#[verifier::external_body]
fn close_value(layer: Layer) -> (value: serde_json::Value)
    requires
        layer matches Layer::Object(entries) ==> distinct_keys(entries@),
    ensures
        value_view(value) == layer@,
{
    match layer {
        Layer::Null => serde_json::Value::Null,
        Layer::Bool(b) => serde_json::Value::Bool(b),
        Layer::Unsigned(n) => serde_json::Value::from(n),
        Layer::Signed(n) => serde_json::Value::from(n),
        Layer::Decimal(text) => serde_json::Value::from(text.parse().ok().and_then(serde_json::Number::from_f64)),
        Layer::Str(s) => serde_json::Value::String(s),
        Layer::Array(items) => serde_json::Value::Array(items),
        Layer::Object(entries) => serde_json::Value::Object(entries.into_iter().collect()),
    }
}

/// Calls `to_string` of `serde_json::Value`, which prints on one line and
/// orders the members of an object by key. The text is a function of what the
/// value holds.
#[verifier::external_body]
fn print_compact(value: &serde_json::Value) -> (text: String)
    ensures
        text@ == json_compact(value_view(*value)),
{
    value.to_string()
}

/// Calls `serde_json::to_string_pretty`, which prints with indentation and
/// orders the members of an object by key. The text is a function of what the
/// value holds; printing a `serde_json::Value` into a string does not fail.
#[verifier::external_body]
fn print_pretty(value: &serde_json::Value) -> (text: Option<String>)
    ensures
        text is Some,
        text->0@ == json_pretty(value_view(*value)),
{
    serde_json::to_string_pretty(value).ok()
}

/// Each entry of an object with distinct keys is a member of it.
proof fn lemma_distinct_member(entries: Seq<(String, serde_json::Value)>, i: int)
    requires
        distinct_keys(entries),
        0 <= i < entries.len(),
    ensures
        members_view(entries).dom().contains(entries[i].0@),
        members_view(entries)[entries[i].0@] == value_view(entries[i].1),
        members_view(entries).dom().finite(),
    decreases entries.len(),
{
    let last = entries.len() - 1;
    if i < last {
        assert(entries.drop_last()[i] == entries[i]);
        lemma_distinct_member(entries.drop_last(), i);
        assert(entries[i].0@ != entries[last].0@);
    } else if last > 0 {
        assert(entries.drop_last()[0] == entries[0]);
        lemma_distinct_member(entries.drop_last(), 0);
    }
}

/// Another value for a key takes the place of the one before.
proof fn lemma_replace_member(
    entries: Seq<(String, serde_json::Value)>,
    at: int,
    entry: (String, serde_json::Value),
)
    requires
        distinct_keys(entries),
        0 <= at < entries.len(),
        entries[at].0@ == entry.0@,
    ensures
        distinct_keys(entries.update(at, entry)),
        members_view(entries.update(at, entry)) == members_view(entries).insert(
            entry.0@,
            value_view(entry.1),
        ),
    decreases entries.len(),
{
    let changed = entries.update(at, entry);
    let last = entries.len() - 1;
    let front = entries.drop_last();
    if at < last {
        assert(front[at] == entries[at]);
        lemma_replace_member(front, at, entry);
        assert(changed.drop_last() =~= front.update(at, entry));
        assert(entries[at].0@ != entries[last].0@);
    } else {
        assert(changed.drop_last() =~= front);
    }
    assert(members_view(changed) =~= members_view(entries).insert(entry.0@, value_view(entry.1)));
}

/// Where a key stands among entries, if it does.
fn position(entries: &Vec<(String, serde_json::Value)>, key: &str) -> (at: Option<usize>)
    ensures
        match at {
            Some(i) => i < entries@.len() && entries@[i as int].0@ == key@,
            None => forall|i: int|
                0 <= i < entries@.len() ==> (#[trigger] entries@[i]).0@ != key@,
        },
{
    let mut i: usize = 0;
    while i < entries.len()
        invariant
            i <= entries@.len(),
            forall|k: int| 0 <= k < i ==> (#[trigger] entries@[k]).0@ != key@,
        decreases entries@.len() - i,
    {
        if same_text(entries[i].0.as_str(), key) {
            return Some(i);
        }
        i = i + 1;
    }
    None
}

/// Sets the member `key`: a member of that key is replaced, any other is kept.
fn set_member(entries: &mut Vec<(String, serde_json::Value)>, key: String, value: serde_json::Value)
    requires
        distinct_keys(old(entries)@),
    ensures
        distinct_keys(final(entries)@),
        members_view(final(entries)@) == members_view(old(entries)@).insert(
            key@,
            value_view(value),
        ),
{
    let ghost before = entries@;
    match position(entries, key.as_str()) {
        Some(at) => {
            proof {
                lemma_replace_member(before, at as int, (key, value));
            }
            entries.set(at, (key, value));
        },
        None => {
            entries.push((key, value));
            proof {
                assert(entries@.drop_last() =~= before);
            }
        },
    }
}

/// Reads a whole `serde_json::Value`.
fn read_value(value: serde_json::Value) -> (json: Json)
    ensures
        json@ == value_view(value),
    decreases value_view(value),
{
    let ghost whole = value_view(value);
    match open_value(value) {
        Layer::Null => Json::Null,
        Layer::Bool(b) => Json::Bool(b),
        Layer::Unsigned(n) => Json::Unsigned(n),
        Layer::Signed(n) => Json::Signed(n),
        Layer::Decimal(text) => Json::Decimal(text),
        Layer::Str(text) => Json::Str(text),
        Layer::Array(items) => {
            let ghost all = items@;
            let mut done: Vec<Json> = Vec::new();
            for item in it: items
                invariant
                    it.seq() == all,
                    whole == value_view(value),
                    whole == JsonView::Array(values_view(all)),
                    done@.len() == it.index(),
                    forall|k: int| 0 <= k < done@.len() ==> (#[trigger] done@[k])@ == value_view(all[k]),
            {
                proof {
                    let views = values_view(all);
                    assert(views[it.index() as int] == value_view(item));
                    assert(decreases_to!(whole => whole->Array_0));
                    assert(decreases_to!(views => views[it.index() as int]));
                }
                done.push(read_value(item));
            }
            proof {
                assert(array_view(done@) =~= values_view(all));
            }
            Json::Array(done)
        },
        Layer::Object(entries) => {
            let ghost all = entries@;
            let mut done: Vec<(String, Json)> = Vec::new();
            proof {
                assert(all.take(0) =~= Seq::empty());
                assert(object_view(done@) =~= members_view(all.take(0)));
            }
            for entry in it: entries
                invariant
                    it.seq() == all,
                    distinct_keys(all),
                    whole == value_view(value),
                    whole == JsonView::Object(members_view(all)),
                    object_view(done@) == members_view(all.take(it.index() as int)),
            {
                let ghost before = done@;
                let ghost at = it.index() as int;
                proof {
                    let members = members_view(all);
                    lemma_distinct_member(all, at);
                    assert(decreases_to!(whole => whole->Object_0));
                    assert(decreases_to!(members => members[all[at].0@]));
                }
                let (key, member) = entry;
                let json: Json = read_value(member);
                done.push((key, json));
                proof {
                    assert(done@.drop_last() =~= before);
                    lemma_object_view_last(done@);
                    assert(all.take(at + 1).drop_last() =~= all.take(at));
                }
            }
            proof {
                assert(all.take(all.len() as int) =~= all);
            }
            Json::Object(done)
        },
    }
}

/// Puts a whole `serde_json::Value` together.
fn write_value(json: &Json) -> (value: serde_json::Value)
    ensures
        value_view(value) == json@,
    decreases json,
{
    match json {
        Json::Null => close_value(Layer::Null),
        Json::Bool(b) => close_value(Layer::Bool(*b)),
        Json::Unsigned(n) => close_value(Layer::Unsigned(*n)),
        Json::Signed(n) => close_value(Layer::Signed(*n)),
        Json::Decimal(text) => close_value(Layer::Decimal(text.clone())),
        Json::Str(text) => close_value(Layer::Str(text.clone())),
        Json::Array(items) => {
            let mut done: Vec<serde_json::Value> = Vec::new();
            let mut i: usize = 0;
            while i < items.len()
                invariant
                    i <= items@.len(),
                    json == Json::Array(*items),
                    done@.len() == i,
                    forall|k: int|
                        0 <= k < i ==> value_view(#[trigger] done@[k]) == items@[k]@,
                decreases items@.len() - i,
            {
                proof {
                    assert(decreases_to!(*json => json->Array_0));
                    assert(decreases_to!(*items => items@[i as int]));
                }
                done.push(write_value(&items[i]));
                i = i + 1;
            }
            proof {
                assert(values_view(done@) =~= array_view(items@));
            }
            close_value(Layer::Array(done))
        },
        Json::Object(entries) => {
            let mut done: Vec<(String, serde_json::Value)> = Vec::new();
            let mut i: usize = 0;
            proof {
                assert(entries@.take(0) =~= Seq::empty());
                assert(members_view(done@) =~= object_view(entries@.take(0)));
            }
            while i < entries.len()
                invariant
                    i <= entries@.len(),
                    json == Json::Object(*entries),
                    distinct_keys(done@),
                    members_view(done@) == object_view(entries@.take(i as int)),
                decreases entries@.len() - i,
            {
                proof {
                    assert(decreases_to!(*json => json->Object_0));
                    assert(decreases_to!(*entries => entries@[i as int]));
                    assert(decreases_to!(entries@[i as int] => entries@[i as int].1));
                }
                let member: serde_json::Value = write_value(&entries[i].1);
                set_member(&mut done, entries[i].0.clone(), member);
                proof {
                    assert(entries@.take(i + 1).drop_last() =~= entries@.take(i as int));
                    lemma_object_view_last(entries@.take(i + 1));
                }
                i = i + 1;
            }
            proof {
                assert(entries@.take(entries@.len() as int) =~= entries@);
            }
            close_value(Layer::Object(done))
        },
    }
}

/// What `parse` makes of a reading: the value, or the message of the error.
pub open spec fn parse_view(parsed: Result<Json, String>) -> Result<JsonView, Seq<char>> {
    match parsed {
        Ok(json) => Ok(json@),
        Err(message) => Err(message@),
    }
}

impl Json {
    /// Reads a JSON text; the error is the message of the reader.
    pub fn parse(text: &str) -> (parsed: Result<Json, String>)
        ensures
            parse_view(parsed) == json_parsed(text@),
    {
        match read_text(text) {
            Ok(value) => Ok(read_value(value)),
            Err(message) => Err(message),
        }
    }

    /// The value as text on one line, members ordered by key.
    pub fn to_compact(&self) -> (text: String)
        ensures
            text@ == json_compact(self@),
    {
        let value: serde_json::Value = write_value(self);
        print_compact(&value)
    }

    /// The value as indented text, members ordered by key.
    pub fn to_pretty(&self) -> (text: String)
        ensures
            text@ == json_pretty(self@),
    {
        let value: serde_json::Value = write_value(self);
        match print_pretty(&value) {
            Some(text) => text,
            None => String::new(),
        }
    }
}

// ---------------------------------------------------------------------------
// Laws
// ---------------------------------------------------------------------------


/// A reading is its value, or the message of its error.
pub proof fn readings_are_what_came(json: Json, message: String)
    ensures
        parse_view(Ok(json)) == Ok::<JsonView, Seq<char>>(json@),
        parse_view(Err(message)) == Err::<JsonView, Seq<char>>(message@),
{
}

} // verus!
