//! JSON values: the tree that the tools read and write, and its passage to and
//! from text through `serde_json`.
use vstd::prelude::*;

use crate::json_text::decimal_value;
use crate::text::same_text;

verus! {

/// A JSON value as contracts speak of it.
///
/// An integer is the integer itself, whatever machine type held it. Any other
/// number is the text that `serde_json` prints for it. An object is a map: the
/// order in which members were written is no part of the value.
pub enum JsonView {
    Null,
    Bool(bool),
    Int(int),
    Real(Seq<char>),
    Str(Seq<char>),
    Array(Seq<JsonView>),
    Object(Map<Seq<char>, JsonView>),
}

impl JsonView {
    /// The member `key` of an object; nothing for any other value.
    pub open spec fn get(self, key: Seq<char>) -> Option<JsonView> {
        match self {
            JsonView::Object(members) => if members.dom().contains(key) {
                Some(members[key])
            } else {
                None
            },
            _ => None,
        }
    }

    /// The text of a string value.
    pub open spec fn as_str(self) -> Option<Seq<char>> {
        match self {
            JsonView::Str(text) => Some(text),
            _ => None,
        }
    }

    /// The truth value of a boolean.
    pub open spec fn as_bool(self) -> Option<bool> {
        match self {
            JsonView::Bool(b) => Some(b),
            _ => None,
        }
    }

    /// The items of an array.
    pub open spec fn as_array(self) -> Option<Seq<JsonView>> {
        match self {
            JsonView::Array(items) => Some(items),
            _ => None,
        }
    }

    /// The integer, where it fits in an `i64`.
    pub open spec fn as_i64(self) -> Option<int> {
        match self {
            JsonView::Int(n) => if i64::MIN <= n <= i64::MAX {
                Some(n)
            } else {
                None
            },
            _ => None,
        }
    }

    /// The text of the member `key`, where it is a string.
    pub open spec fn get_str(self, key: Seq<char>) -> Option<Seq<char>> {
        match self.get(key) {
            Some(member) => member.as_str(),
            None => None,
        }
    }

    /// The member `key`, and `null` where there is none.
    pub open spec fn get_or_null(self, key: Seq<char>) -> JsonView {
        match self.get(key) {
            Some(member) => member,
            None => JsonView::Null,
        }
    }
}

/// The values at `key` of those items that have a string there, in order.
pub open spec fn texts_at(items: Seq<JsonView>, key: Seq<char>) -> Seq<JsonView> {
    items.filter(|item: JsonView| item.get_str(key) is Some).map_values(
        |item: JsonView| item.get_or_null(key),
    )
}

/// The texts at `key` in the array `list` of a value: an array, empty where
/// there is no such list.
pub open spec fn listed_texts(value: JsonView, list: Seq<char>, key: Seq<char>) -> JsonView {
    match value.get_or_null(list).as_array() {
        Some(items) => JsonView::Array(texts_at(items, key)),
        None => JsonView::Array(Seq::empty()),
    }
}

/// A JSON value.
///
/// Where an object lists a key more than once, its last member counts.
#[derive(Debug)]
pub enum Json {
    Null,
    Bool(bool),
    /// An integer that is not negative.
    Unsigned(u64),
    /// An integer.
    Signed(i64),
    /// A number that is no integer, as decimal text.
    Decimal(String),
    Str(String),
    Array(Vec<Json>),
    Object(Vec<(String, Json)>),
}

/// A decimal text as a JSON value. One that stands for no number is `null`.
pub open spec fn decimal_view(text: Seq<char>) -> JsonView {
    match decimal_value(text) {
        Some(printed) => JsonView::Real(printed),
        None => JsonView::Null,
    }
}

/// The values that the items of an array stand for.
pub open spec fn array_view(items: Seq<Json>) -> Seq<JsonView>
    decreases items,
{
    Seq::new(
        items.len(),
        |i: int|
            if 0 <= i < items.len() {
                items[i].view()
            } else {
                arbitrary()
            },
    )
}

/// The members that the entries of an object stand for.
pub open spec fn object_view(entries: Seq<(String, Json)>) -> Map<Seq<char>, JsonView>
    decreases entries,
{
    if entries.len() == 0 {
        Map::empty()
    } else {
        object_view(entries.drop_last()).insert(entries.last().0@, entries.last().1.view())
    }
}

/// The last entry of an object decides the member of its key.
pub proof fn lemma_object_view_last(entries: Seq<(String, Json)>)
    requires
        entries.len() > 0,
    ensures
        object_view(entries) == object_view(entries.drop_last()).insert(
            entries.last().0@,
            entries.last().1@,
        ),
{
    reveal_with_fuel(object_view, 2);
}

impl View for Json {
    type V = JsonView;

    open spec fn view(&self) -> JsonView
        decreases self,
    {
        match self {
            Json::Null => JsonView::Null,
            Json::Bool(b) => JsonView::Bool(*b),
            Json::Unsigned(n) => JsonView::Int(*n as int),
            Json::Signed(n) => JsonView::Int(*n as int),
            Json::Decimal(text) => decimal_view(text@),
            Json::Str(text) => JsonView::Str(text@),
            Json::Array(items) => JsonView::Array(array_view(items@)),
            Json::Object(entries) => JsonView::Object(object_view(entries@)),
        }
    }
}

/// The value of an optional JSON value.
pub open spec fn option_view(value: Option<Json>) -> Option<JsonView> {
    match value {
        Some(json) => Some(json@),
        None => None,
    }
}

impl Json {
    /// The member `key` of an object; nothing for any other value.
    pub fn get(&self, key: &str) -> (member: Option<&Json>)
        ensures
            match member {
                Some(json) => self@.get(key@) == Some(json@),
                None => self@.get(key@) is None,
            },
    {
        match self {
            Json::Object(entries) => {
                let mut i: usize = entries.len();
                proof {
                    assert(entries@.take(i as int) =~= entries@);
                }
                while i > 0
                    invariant
                        i <= entries@.len(),
                        object_view(entries@).dom().contains(key@) == object_view(
                            entries@.take(i as int),
                        ).dom().contains(key@),
                        object_view(entries@.take(i as int)).dom().contains(key@)
                            ==> object_view(entries@)[key@] == object_view(
                            entries@.take(i as int),
                        )[key@],
                        self@ == JsonView::Object(object_view(entries@)),
                    decreases i,
                {
                    i = i - 1;
                    proof {
                        assert(entries@.take(i + 1).drop_last() =~= entries@.take(i as int));
                        assert(entries@.take(i + 1).last() == entries@[i as int]);
                        lemma_object_view_last(entries@.take(i + 1));
                    }
                    if same_text(entries[i].0.as_str(), key) {
                        return Some(&entries[i].1);
                    }
                }
                proof {
                    assert(entries@.take(0) =~= Seq::empty());
                }
                None
            },
            _ => None,
        }
    }

    /// The text of a string value.
    pub fn as_str(&self) -> (text: Option<&str>)
        ensures
            match text {
                Some(t) => self@.as_str() == Some(t@),
                None => self@.as_str() is None,
            },
    {
        match self {
            Json::Str(t) => Some(t.as_str()),
            _ => None,
        }
    }

    /// The truth value of a boolean.
    pub fn as_bool(&self) -> (truth: Option<bool>)
        ensures
            truth == self@.as_bool(),
    {
        match self {
            Json::Bool(b) => Some(*b),
            _ => None,
        }
    }

    /// The items of an array.
    pub fn as_array(&self) -> (items: Option<&Vec<Json>>)
        ensures
            match items {
                Some(list) => self@.as_array() == Some(array_view(list@)),
                None => self@.as_array() is None,
            },
    {
        match self {
            Json::Array(list) => Some(list),
            _ => None,
        }
    }

    /// The integer, where it fits in an `i64`.
    pub fn as_i64(&self) -> (number: Option<i64>)
        ensures
            match number {
                Some(n) => self@.as_i64() == Some(n as int),
                None => self@.as_i64() is None,
            },
    {
        match self {
            Json::Unsigned(n) => if *n <= i64::MAX as u64 {
                Some(*n as i64)
            } else {
                None
            },
            Json::Signed(n) => Some(*n),
            _ => None,
        }
    }

    /// The text of the member `key`, where it is a string.
    pub fn get_str(&self, key: &str) -> (text: Option<&str>)
        ensures
            match text {
                Some(t) => self@.get_str(key@) == Some(t@),
                None => self@.get_str(key@) is None,
            },
    {
        match self.get(key) {
            Some(member) => member.as_str(),
            None => None,
        }
    }

    /// A value equal to this one.
    pub fn duplicate(&self) -> (same: Json)
        ensures
            same@ == self@,
        decreases self,
    {
        match self {
            Json::Null => Json::Null,
            Json::Bool(b) => Json::Bool(*b),
            Json::Unsigned(n) => Json::Unsigned(*n),
            Json::Signed(n) => Json::Signed(*n),
            Json::Decimal(text) => Json::Decimal(text.clone()),
            Json::Str(text) => Json::Str(text.clone()),
            Json::Array(items) => {
                let mut done: Vec<Json> = Vec::new();
                let mut i: usize = 0;
                while i < items.len()
                    invariant
                        i <= items@.len(),
                        self == Json::Array(*items),
                        done@.len() == i,
                        forall|k: int| 0 <= k < i ==> (#[trigger] done@[k])@ == items@[k]@,
                    decreases items@.len() - i,
                {
                    proof {
                        assert(decreases_to!(*self => self->Array_0));
                        assert(decreases_to!(*items => items@[i as int]));
                    }
                    done.push(items[i].duplicate());
                    i = i + 1;
                }
                proof {
                    assert(array_view(done@) =~= array_view(items@));
                }
                Json::Array(done)
            },
            Json::Object(entries) => {
                let mut done: Vec<(String, Json)> = Vec::new();
                let mut i: usize = 0;
                proof {
                    assert(entries@.take(0) =~= done@);
                }
                while i < entries.len()
                    invariant
                        i <= entries@.len(),
                        self == Json::Object(*entries),
                        object_view(done@) == object_view(entries@.take(i as int)),
                    decreases entries@.len() - i,
                {
                    let ghost before = done@;
                    proof {
                        assert(decreases_to!(*self => self->Object_0));
                        assert(decreases_to!(*entries => entries@[i as int]));
                        assert(decreases_to!(entries@[i as int] => entries@[i as int].1));
                    }
                    done.push((entries[i].0.clone(), entries[i].1.duplicate()));
                    proof {
                        assert(done@.drop_last() =~= before);
                        lemma_object_view_last(done@);
                        assert(entries@.take(i + 1).drop_last() =~= entries@.take(i as int));
                        lemma_object_view_last(entries@.take(i + 1));
                    }
                    i = i + 1;
                }
                proof {
                    assert(entries@.take(entries@.len() as int) =~= entries@);
                }
                Json::Object(done)
            },
        }
    }

    /// The member `key`, and `null` where there is none.
    pub fn get_or_null(&self, key: &str) -> (member: Json)
        ensures
            member@ == self@.get_or_null(key@),
    {
        match self.get(key) {
            Some(json) => json.duplicate(),
            None => Json::Null,
        }
    }

    /// The texts at `key` in the array `list` of this value.
    pub fn listed_texts(&self, list: &str, key: &str) -> (texts: Json)
        ensures
            texts@ == listed_texts(self@, list@, key@),
    {
        let mut done: Vec<Json> = Vec::new();
        match self.get(list) {
            Some(member) => match member.as_array() {
                Some(items) => {
                    let ghost views = array_view(items@);
                    let mut i: usize = 0;
                    proof {
                        assert(views.take(0) =~= Seq::empty());
                        reveal(Seq::filter);
                        assert(array_view(done@) =~= texts_at(views.take(0), key@));
                    }
                    while i < items.len()
                        invariant
                            i <= items@.len(),
                            views == array_view(items@),
                            array_view(done@) == texts_at(views.take(i as int), key@),
                        decreases items@.len() - i,
                    {
                        let ghost before = done@;
                        proof {
                            lemma_texts_at_next(views, i as int, key@);
                        }
                        match items[i].get_str(key) {
                            Some(text) => {
                                done.push(Json::Str(text.to_owned()));
                                proof {
                                    assert(array_view(done@) =~= array_view(before).push(
                                        JsonView::Str(text@),
                                    ));
                                }
                            },
                            None => {},
                        }
                        i = i + 1;
                    }
                    proof {
                        assert(views.take(views.len() as int) =~= views);
                    }
                },
                None => {
                    proof {
                        assert(array_view(done@) =~= Seq::empty());
                    }
                },
            },
            None => {
                proof {
                    assert(array_view(done@) =~= Seq::empty());
                }
            },
        }
        Json::Array(done)
    }
}

/// One item more is one text more where the item has a string at `key`.
proof fn lemma_texts_at_next(items: Seq<JsonView>, i: int, key: Seq<char>)
    requires
        0 <= i < items.len(),
    ensures
        texts_at(items.take(i + 1), key) == (if items[i].get_str(key) is Some {
            texts_at(items.take(i), key).push(items[i].get_or_null(key))
        } else {
            texts_at(items.take(i), key)
        }),
{
    reveal(Seq::filter);
    assert(items.take(i + 1).drop_last() =~= items.take(i));
    let kept = items.take(i).filter(|item: JsonView| item.get_str(key) is Some);
    if items[i].get_str(key) is Some {
        assert(kept.push(items[i]).map_values(|item: JsonView| item.get_or_null(key))
            =~= kept.map_values(|item: JsonView| item.get_or_null(key)).push(
            items[i].get_or_null(key),
        ));
    }
}

/// Adds the member `key` to the entries of an object.
pub fn put(entries: &mut Vec<(String, Json)>, key: &str, value: Json)
    ensures
        object_view(final(entries)@) == object_view(old(entries)@).insert(key@, value@),
{
    let ghost before = entries@;
    entries.push((key.to_owned(), value));
    proof {
        assert(entries@.drop_last() =~= before);
        lemma_object_view_last(entries@);
    }
}

// ---------------------------------------------------------------------------
// Laws
// ---------------------------------------------------------------------------


/// A member that was put is found again, whatever it is, and finding it disturbs
/// no other; an object without members has none.
pub proof fn members_are_found_again(
    members: Map<Seq<char>, JsonView>,
    key: Seq<char>,
    value: JsonView,
    other: Seq<char>,
)
    ensures
        JsonView::Object(members.insert(key, value)).get(key) == Some(value),
        other != key ==> JsonView::Object(members.insert(key, value)).get(other)
            == JsonView::Object(members).get(other),
        JsonView::Object(Map::empty()).get(other) is None,
        JsonView::Object(members).get(key) is Some <==> members.dom().contains(key),
{
}

/// Only an object has members.
pub proof fn only_objects_have_members(value: JsonView, key: Seq<char>, text: Seq<char>)
    ensures
        value.get(key) is Some ==> value is Object,
        value.get(key) is None ==> value.get_or_null(key) == JsonView::Null,
        value.get(key) matches Some(member) ==> value.get_or_null(key) == member,
        value.get_str(key) == Some(text) <==> value.get(key) == Some(JsonView::Str(text)),
{
}

/// A value is taken for nothing but what it is.
pub proof fn values_are_taken_for_what_they_are(
    value: JsonView,
    text: Seq<char>,
    n: int,
    b: bool,
    items: Seq<JsonView>,
)
    ensures
        value.as_str() == Some(text) <==> value == JsonView::Str(text),
        value.as_bool() == Some(b) <==> value == JsonView::Bool(b),
        value.as_i64() == Some(n) <==> value == JsonView::Int(n) && i64::MIN <= n <= i64::MAX,
        value.as_array() == Some(items) <==> value == JsonView::Array(items),
{
}

/// A value holds what it was made of.
pub proof fn values_hold_what_they_are_made_of(
    b: bool,
    u: u64,
    i: i64,
    text: String,
    items: Vec<Json>,
    entries: Vec<(String, Json)>,
    json: Json,
)
    ensures
        Json::Null@ == JsonView::Null,
        Json::Bool(b)@ == JsonView::Bool(b),
        Json::Unsigned(u)@ == JsonView::Int(u as int),
        Json::Signed(i)@ == JsonView::Int(i as int),
        Json::Str(text)@ == JsonView::Str(text@),
        Json::Array(items)@ == JsonView::Array(array_view(items@)),
        array_view(items@).len() == items@.len(),
        forall|k: int|
            0 <= k < items@.len() ==> #[trigger] array_view(items@)[k] == items@[k]@,
        Json::Object(entries)@ == JsonView::Object(object_view(entries@)),
        option_view(Some(json)) == Some(json@),
        option_view(None) is None,
{
}

/// The members of an object are those that were put, the last of each key.
pub proof fn objects_hold_what_was_put(entries: Seq<(String, Json)>, key: String, value: Json)
    ensures
        object_view(Seq::empty()) == Map::<Seq<char>, JsonView>::empty(),
        object_view(entries.push((key, value))) == object_view(entries).insert(key@, value@),
{
    assert(entries.push((key, value)).drop_last() =~= entries);
    lemma_object_view_last(entries.push((key, value)));
}

/// A value whose member is no array lists nothing.
pub proof fn no_list_no_texts(value: JsonView, list: Seq<char>, key: Seq<char>)
    requires
        value.get(list) matches Some(member) ==> !(member is Array),
    ensures
        listed_texts(value, list, key) == JsonView::Array(Seq::empty()),
{
}

/// A list of one item lists the text at `key` of that item, where there is one.
pub proof fn one_item_one_text(value: JsonView, list: Seq<char>, key: Seq<char>, item: JsonView)
    requires
        value.get(list) == Some(JsonView::Array(seq![item])),
    ensures
        listed_texts(value, list, key) == JsonView::Array(
            match item.get(key) {
                Some(JsonView::Str(text)) => seq![JsonView::Str(text)],
                _ => Seq::empty(),
            },
        ),
{
    let items = seq![item];
    assert(items.take(0) =~= Seq::empty());
    assert(items.take(1) =~= items);
    reveal(Seq::filter);
    assert(texts_at(items.take(0), key) =~= Seq::empty());
    lemma_texts_at_next(items, 0, key);
    match item.get(key) {
        Some(JsonView::Str(text)) => {
            assert(texts_at(items, key) =~= seq![JsonView::Str(text)]);
        },
        _ => {
            assert(item.get_str(key) is None);
        },
    }
}

proof fn lemma_texts_at_concat(earlier: Seq<JsonView>, later: Seq<JsonView>, key: Seq<char>)
    ensures
        texts_at(earlier + later, key) == texts_at(earlier, key) + texts_at(later, key),
{
    let keep = |item: JsonView| item.get_str(key) is Some;
    let tell = |item: JsonView| item.get_or_null(key);
    Seq::filter_distributes_over_add(earlier, later, keep);
    assert((earlier.filter(keep) + later.filter(keep)).map_values(tell) =~= earlier.filter(
        keep,
    ).map_values(tell) + later.filter(keep).map_values(tell));
}

/// The texts of a longer list are those of its first part, then those of the
/// rest.
pub proof fn texts_are_listed_in_order(
    whole: JsonView,
    first: JsonView,
    rest: JsonView,
    list: Seq<char>,
    key: Seq<char>,
    earlier: Seq<JsonView>,
    later: Seq<JsonView>,
)
    requires
        whole.get(list) == Some(JsonView::Array(earlier + later)),
        first.get(list) == Some(JsonView::Array(earlier)),
        rest.get(list) == Some(JsonView::Array(later)),
    ensures
        listed_texts(first, list, key) matches JsonView::Array(a) && listed_texts(rest, list, key)
            matches JsonView::Array(b) && listed_texts(whole, list, key) == JsonView::Array(a + b),
{
    lemma_texts_at_concat(earlier, later, key);
}

/// What is listed hangs on the named list alone.
pub proof fn texts_come_from_their_list(
    value: JsonView,
    other: JsonView,
    list: Seq<char>,
    key: Seq<char>,
)
    requires
        value.get(list) == other.get(list),
    ensures
        listed_texts(value, list, key) == listed_texts(other, list, key),
{
}

} // verus!
