//! JSON values: what tool results carry, and what the runtime reads from them.

use vstd::prelude::*;

verus! {

/// A JSON value.
///
/// The members of an object stand in the order in which they were written; where a
/// name was written twice, the later member counts.
#[derive(Debug, PartialEq, Eq)]
pub enum Json {
    Null,
    Bool(bool),
    /// A number that is an integer, not negative.
    Unsigned(u64),
    /// A number that is an integer below zero.
    Negative(i64),
    /// Any other number, by its decimal text.
    Fraction(String),
    Text(String),
    Array(Vec<Json>),
    Object(Vec<(String, Json)>),
}

/// What a JSON value is: an object is a finite map from names to values.
pub enum JsonModel {
    Null,
    Bool(bool),
    Integer(int),
    Fraction(Seq<char>),
    Text(Seq<char>),
    Array(Seq<JsonModel>),
    Object(Map<Seq<char>, JsonModel>),
}

impl JsonModel {
    /// The member of the object with that name.
    pub open spec fn member(self, name: Seq<char>) -> Option<JsonModel> {
        match self {
            JsonModel::Object(m) => if m.contains_key(name) {
                Some(m[name])
            } else {
                None
            },
            _ => None,
        }
    }

    /// The text of the member with that name, where it has one that is a text.
    pub open spec fn text_member(self, name: Seq<char>) -> Option<Seq<char>> {
        match self.member(name) {
            Some(JsonModel::Text(t)) => Some(t),
            _ => None,
        }
    }

    /// The truth value of the member with that name, where it has one that is one.
    pub open spec fn bool_member(self, name: Seq<char>) -> Option<bool> {
        match self.member(name) {
            Some(JsonModel::Bool(b)) => Some(b),
            _ => None,
        }
    }

    /// The integer of the member with that name, where it has one that is an integer.
    pub open spec fn integer_member(self, name: Seq<char>) -> Option<int> {
        match self.member(name) {
            Some(JsonModel::Integer(n)) => Some(n),
            _ => None,
        }
    }

    /// This object with one member more, or with one replaced.
    pub open spec fn with(self, name: Seq<char>, value: JsonModel) -> JsonModel {
        match self {
            JsonModel::Object(m) => JsonModel::Object(m.insert(name, value)),
            _ => self,
        }
    }
}

/// The object without members.
pub open spec fn empty_object() -> JsonModel {
    JsonModel::Object(Map::empty())
}

/// The array of these texts.
pub open spec fn text_array(items: Seq<Seq<char>>) -> JsonModel {
    JsonModel::Array(items.map_values(|t: Seq<char>| JsonModel::Text(t)))
}

/// The text, or null.
pub open spec fn text_or_null(t: Option<Seq<char>>) -> JsonModel {
    match t {
        Some(t) => JsonModel::Text(t),
        None => JsonModel::Null,
    }
}

/// What a JSON value is.
pub open spec fn json_model(j: Json) -> JsonModel
    decreases j,
{
    match j {
        Json::Null => JsonModel::Null,
        Json::Bool(b) => JsonModel::Bool(b),
        Json::Unsigned(n) => JsonModel::Integer(n as int),
        Json::Negative(n) => JsonModel::Integer(n as int),
        Json::Fraction(t) => JsonModel::Fraction(t@),
        Json::Text(t) => JsonModel::Text(t@),
        Json::Array(items) => JsonModel::Array(items_model(items@)),
        Json::Object(members) => JsonModel::Object(members_model(members@)),
    }
}

/// What the items of an array are, in order.
pub open spec fn items_model(items: Seq<Json>) -> Seq<JsonModel>
    decreases items,
{
    if items.len() == 0 {
        seq![]
    } else {
        items_model(items.drop_last()).push(json_model(items.last()))
    }
}

/// What the members of an object are, by their names; the last of a name counts.
pub open spec fn members_model(members: Seq<(String, Json)>) -> Map<Seq<char>, JsonModel>
    decreases members,
{
    if members.len() == 0 {
        Map::empty()
    } else {
        members_model(members.drop_last()).insert(members.last().0@, json_model(members.last().1))
    }
}

impl View for Json {
    type V = JsonModel;

    open spec fn view(&self) -> JsonModel {
        json_model(*self)
    }
}

impl Json {
    /// A text.
    pub fn text(t: &str) -> (r: Json)
        ensures
            r@ == JsonModel::Text(t@),
    {
        Json::Text(t.to_owned())
    }

    /// A count.
    pub fn count(n: usize) -> (r: Json)
        ensures
            r@ == JsonModel::Integer(n as int),
    {
        Json::Unsigned(n as u64)
    }

    /// A signed integer.
    pub fn signed(n: i32) -> (r: Json)
        ensures
            r@ == JsonModel::Integer(n as int),
    {
        if n < 0 {
            Json::Negative(n as i64)
        } else {
            Json::Unsigned(n as u64)
        }
    }

    /// The text, or null.
    pub fn optional_text(t: &Option<String>) -> (r: Json)
        ensures
            r@ == text_or_null(match *t {
                Some(s) => Some(s@),
                None => None,
            }),
    {
        match t {
            Some(s) => Json::text(s.as_str()),
            None => Json::Null,
        }
    }

    /// The count, or null.
    pub fn optional_count(n: Option<usize>) -> (r: Json)
        ensures
            r@ == match n {
                Some(n) => JsonModel::Integer(n as int),
                None => JsonModel::Null,
            },
    {
        match n {
            Some(n) => Json::count(n),
            None => Json::Null,
        }
    }

    /// The array of these texts.
    pub fn texts(items: &Vec<String>) -> (r: Json)
        ensures
            r@ == text_array(crate::text::strings(items@)),
    {
        let mut out: Vec<Json> = Vec::new();
        let ghost all = crate::text::strings(items@);
        let mut i: usize = 0;
        while i < items.len()
            invariant
                i <= items@.len(),
                all == crate::text::strings(items@),
                items_model(out@) == all.take(i as int).map_values(|t: Seq<char>| JsonModel::Text(t)),
            decreases items@.len() - i,
        {
            let ghost before = out@;
            out.push(Json::text(items[i].as_str()));
            proof {
                assert(out@.drop_last() == before);
                assert(all.take(i + 1) == all.take(i as int).push(all[i as int]));
            }
            i = i + 1;
        }
        assert(all.take(all.len() as int) == all);
        Json::Array(out)
    }

    /// The object without members.
    pub fn object() -> (r: Json)
        ensures
            r@ == empty_object(),
    {
        Json::Object(Vec::new())
    }

    /// This object with one member more, or with one replaced. Any other value is
    /// returned as it is.
    pub fn with(self, name: &str, value: Json) -> (r: Json)
        ensures
            r@ == self@.with(name@, value@),
    {
        match self {
            Json::Object(members) => {
                let mut members = members;
                let ghost before = members@;
                members.push((name.to_owned(), value));
                assert(members@.drop_last() == before);
                Json::Object(members)
            },
            other => other,
        }
    }

    /// The member of the object with that name.
    pub fn get(&self, name: &str) -> (r: Option<&Json>)
        ensures
            match self@.member(name@) {
                Some(m) => r is Some && r->0@ == m,
                None => r is None,
            },
    {
        match self {
            Json::Object(members) => {
                let wanted = name.to_owned();
                let mut i: usize = members.len();
                assert(members@.take(i as int) == members@);
                while i > 0
                    invariant
                        i <= members@.len(),
                        wanted@ == name@,
                        members_model(members@).contains_key(name@) == members_model(
                            members@.take(i as int),
                        ).contains_key(name@),
                        members_model(members@)[name@] == members_model(
                            members@.take(i as int),
                        )[name@],
                        self@ == JsonModel::Object(members_model(members@)),
                    decreases i,
                {
                    assert(members@.take(i as int).drop_last() == members@.take(i - 1));
                    assert(members@.take(i as int).last() == members@[i - 1]);
                    if members[i - 1].0 == wanted {
                        return Some(&members[i - 1].1);
                    }
                    i = i - 1;
                }
                None
            },
            _ => None,
        }
    }

    /// The text, where this is one.
    pub fn as_text(&self) -> (r: Option<&str>)
        ensures
            match self@ {
                JsonModel::Text(t) => r is Some && r->0@ == t,
                _ => r is None,
            },
    {
        match self {
            Json::Text(t) => Some(t.as_str()),
            _ => None,
        }
    }

    /// The truth value, where this is one.
    pub fn as_bool(&self) -> (r: Option<bool>)
        ensures
            r == match self@ {
                JsonModel::Bool(b) => Some(b),
                _ => None,
            },
    {
        match self {
            Json::Bool(b) => Some(*b),
            _ => None,
        }
    }

    /// The integer, where this is one that 64 bits with a sign can hold.
    pub fn as_i64(&self) -> (r: Option<i64>)
        ensures
            r == match self@ {
                JsonModel::Integer(n) => if i64::MIN <= n <= i64::MAX {
                    Some(n as i64)
                } else {
                    None
                },
                _ => None,
            },
    {
        match self {
            Json::Unsigned(n) => if *n <= i64::MAX as u64 {
                Some(*n as i64)
            } else {
                None
            },
            Json::Negative(n) => Some(*n),
            _ => None,
        }
    }

    /// Whether this is null.
    pub fn is_null(&self) -> (r: bool)
        ensures
            r == (self@ is Null),
    {
        match self {
            Json::Null => true,
            _ => false,
        }
    }

    /// The text of the member with that name.
    pub fn text_member(&self, name: &str) -> (r: Option<&str>)
        ensures
            match self@.text_member(name@) {
                Some(t) => r is Some && r->0@ == t,
                None => r is None,
            },
    {
        match self.get(name) {
            Some(m) => m.as_text(),
            None => None,
        }
    }

    /// The truth value of the member with that name.
    pub fn bool_member(&self, name: &str) -> (r: Option<bool>)
        ensures
            r == self@.bool_member(name@),
    {
        match self.get(name) {
            Some(m) => m.as_bool(),
            None => None,
        }
    }
}

/// An object with a member added holds that member under its name, and under every other
/// name what it held before. What is no object has no members and takes none.
pub proof fn law_added_member_is_found(
    o: JsonModel,
    name: Seq<char>,
    value: JsonModel,
    other: Seq<char>,
)
    ensures
        o is Object ==> o.with(name, value) is Object && o.with(name, value).member(name) == Some(
            value,
        ),
        name != other ==> o.with(name, value).member(other) == o.member(other),
        !(o is Object) ==> o.with(name, value) == o && o.member(other) is None,
        empty_object() is Object && empty_object().member(other) is None,
{
}

/// A member is read as a text, a truth value or an integer exactly where it is one.
pub proof fn law_member_is_read_as_what_it_is(
    o: JsonModel,
    name: Seq<char>,
    t: Seq<char>,
    b: bool,
    n: int,
)
    ensures
        o.text_member(name) == Some(t) <==> o.member(name) == Some(JsonModel::Text(t)),
        o.bool_member(name) == Some(b) <==> o.member(name) == Some(JsonModel::Bool(b)),
        o.integer_member(name) == Some(n) <==> o.member(name) == Some(JsonModel::Integer(n)),
        o.text_member(name) is Some ==> o.member(name) == Some(
            JsonModel::Text(o.text_member(name)->0),
        ),
{
}

/// An array of texts holds each of them, in order; a text that is missing is null.
pub proof fn law_texts_are_shown(items: Seq<Seq<char>>, t: Seq<char>)
    ensures
        text_array(items) matches JsonModel::Array(shown) && shown.len() == items.len() && forall|
            i: int,
        |
            0 <= i < items.len() ==> #[trigger] shown[i] == JsonModel::Text(items[i]),
        text_or_null(Some(t)) == JsonModel::Text(t),
        text_or_null(None) is Null,
{
}

/// The model of a list of items has the model of each, in order.
proof fn lemma_items(items: Seq<Json>)
    ensures
        items_model(items).len() == items.len(),
        forall|i: int| 0 <= i < items.len() ==> items_model(items)[i] == (#[trigger] items[i])@,
    decreases items.len(),
{
    if items.len() > 0 {
        lemma_items(items.drop_last());
        assert forall|i: int| 0 <= i < items.len() implies items_model(items)[i] == (
        #[trigger] items[i])@ by {
            if i < items.len() - 1 {
                assert(items.drop_last()[i] == items[i]);
            }
        }
    }
}

/// The last member with a name counts.
proof fn lemma_last_member(members: Seq<(String, Json)>, i: int)
    requires
        0 <= i < members.len(),
        forall|k: int| i < k < members.len() ==> (#[trigger] members[k]).0@ != members[i].0@,
    ensures
        members_model(members).contains_key(members[i].0@),
        members_model(members)[members[i].0@] == members[i].1@,
    decreases members.len(),
{
    let n = members.len() - 1;
    if i < n {
        let rest = members.drop_last();
        assert forall|k: int| i < k < rest.len() implies (#[trigger] rest[k]).0@ != rest[i].0@ by {
            assert(rest[k] == members[k]);
        }
        lemma_last_member(rest, i);
        assert(members[n].0@ != members[i].0@);
    }
}

/// A name that no member has is not there.
proof fn lemma_no_member(members: Seq<(String, Json)>, name: Seq<char>)
    requires
        forall|i: int| 0 <= i < members.len() ==> (#[trigger] members[i]).0@ != name,
    ensures
        !members_model(members).contains_key(name),
    decreases members.len(),
{
    if members.len() > 0 {
        let rest = members.drop_last();
        assert forall|i: int| 0 <= i < rest.len() implies (#[trigger] rest[i]).0@ != name by {
            assert(rest[i] == members[i]);
        }
        lemma_no_member(rest, name);
        assert(members[members.len() - 1].0@ != name);
    }
}

/// Where a member has the name, there is a last one.
proof fn lemma_there_is_a_last(members: Seq<(String, Json)>, name: Seq<char>, i: int) -> (last: int)
    requires
        0 <= i < members.len(),
        members[i].0@ == name,
    ensures
        i <= last < members.len(),
        members[last].0@ == name,
        forall|k: int| last < k < members.len() ==> (#[trigger] members[k]).0@ != name,
    decreases members.len() - i,
{
    if exists|k: int| i < k < members.len() && (#[trigger] members[k]).0@ == name {
        let k = choose|k: int| i < k < members.len() && (#[trigger] members[k]).0@ == name;
        lemma_there_is_a_last(members, name, k)
    } else {
        i
    }
}

/// A value is what it was made of: a null, a truth value, a number, a text; an array holds
/// its items in order; an object holds under each name the last member that was written
/// with it, and under no other name anything.
pub proof fn law_value_is_what_it_was_made_of(j: Json, name: Seq<char>)
    ensures
        match j {
            Json::Null => j@ is Null,
            Json::Bool(b) => j@ == JsonModel::Bool(b),
            Json::Unsigned(n) => j@ == JsonModel::Integer(n as int),
            Json::Negative(n) => j@ == JsonModel::Integer(n as int),
            Json::Fraction(t) => j@ == JsonModel::Fraction(t@),
            Json::Text(t) => j@ == JsonModel::Text(t@),
            Json::Array(items) => j@ matches JsonModel::Array(shown) && shown.len() == items@.len()
                && forall|i: int| 0 <= i < items@.len() ==> shown[i] == (#[trigger] items@[i])@,
            Json::Object(members) => {
                &&& j@ is Object
                &&& j@.member(name) is Some <==> exists|i: int|
                    0 <= i < members@.len() && (#[trigger] members@[i]).0@ == name
                &&& forall|i: int|
                    0 <= i < members@.len() && (#[trigger] members@[i]).0@ == name && (forall|k: int|
                        i < k < members@.len() ==> (#[trigger] members@[k]).0@ != name)
                        ==> j@.member(name) == Some(members@[i].1@)
            },
        },
{
    match j {
        Json::Array(items) => {
            lemma_items(items@);
        },
        Json::Object(members) => {
            let m = members@;
            if exists|i: int| 0 <= i < m.len() && (#[trigger] m[i]).0@ == name {
                let i = choose|i: int| 0 <= i < m.len() && (#[trigger] m[i]).0@ == name;
                let last = lemma_there_is_a_last(m, name, i);
                lemma_last_member(m, last);
                assert forall|k: int|
                    0 <= k < m.len() && (#[trigger] m[k]).0@ == name && (forall|l: int|
                        k < l < m.len() ==> (#[trigger] m[l]).0@ != name) implies j@.member(name)
                    == Some(m[k].1@) by {
                    lemma_last_member(m, k);
                }
            } else {
                lemma_no_member(m, name);
            }
        },
        _ => {},
    }
}

} // verus!
