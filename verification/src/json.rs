//! JSON documents as values.
//!
//! A document is a tree. An object keeps its members in a list; for a name,
//! the first member that carries it counts.

use vstd::prelude::*;
use crate::lookup::{lemma_position, lemma_position_is, position};
use crate::text::text_eq;

verus! {

/// A JSON document. A number is an integer where it is one that fits 64
/// bits with a sign; any other number is kept as the text that writes it.
#[derive(Debug)]
pub enum Json {
    Null,
    Bool(bool),
    Integer(i64),
    Decimal(String),
    Text(String),
    Array(Vec<Json>),
    Object(Vec<(String, Json)>),
}

/// The mathematical value of a JSON document.
pub enum JsonView {
    Null,
    Bool(bool),
    Integer(i64),
    Decimal(Seq<char>),
    Text(Seq<char>),
    Array(Seq<JsonView>),
    Object(Map<Seq<char>, JsonView>),
}

/// The names of a list of members.
pub open spec fn member_names(members: Seq<(String, Json)>) -> Seq<Seq<char>> {
    members.map_values(|m: (String, Json)| m.0@)
}

impl Json {
    /// The value of the document.
    pub open spec fn value(self) -> JsonView
        decreases self,
    {
        match self {
            Json::Null => JsonView::Null,
            Json::Bool(b) => JsonView::Bool(b),
            Json::Integer(i) => JsonView::Integer(i),
            Json::Decimal(d) => JsonView::Decimal(d@),
            Json::Text(t) => JsonView::Text(t@),
            Json::Array(items) => JsonView::Array(
                Seq::new(
                    items@.len(),
                    |i: int|
                        if 0 <= i < items@.len() {
                            items@[i].value()
                        } else {
                            JsonView::Null
                        },
                ),
            ),
            Json::Object(members) => JsonView::Object(
                Map::new(
                    |name: Seq<char>| position(member_names(members@), name) >= 0,
                    |name: Seq<char>|
                        {
                            let i = position(member_names(members@), name);
                            if 0 <= i < members@.len() {
                                members@[i].1.value()
                            } else {
                                JsonView::Null
                            }
                        },
                ),
            ),
        }
    }
}

impl View for Json {
    type V = JsonView;

    open spec fn view(&self) -> JsonView {
        self.value()
    }
}

/// The values of a list of documents.
pub open spec fn json_views(items: Seq<Json>) -> Seq<JsonView> {
    Seq::new(items.len(), |i: int| items[i]@)
}

/// The map that a list of members stands for: each name with the value of
/// the first member that carries it.
pub open spec fn members_map(members: Seq<(String, Json)>) -> Map<Seq<char>, JsonView> {
    Map::new(
        |name: Seq<char>| position(member_names(members), name) >= 0,
        |name: Seq<char>| members[position(member_names(members), name)].1@,
    )
}

/// The value of an array is the list of the values of its items, and the
/// value of an object the map of its members.
pub proof fn lemma_json_value(j: Json)
    ensures
        j matches Json::Array(items) ==> j@ == JsonView::Array(json_views(items@)),
        j matches Json::Object(members) ==> j@ == JsonView::Object(members_map(members@)),
{
    match j {
        Json::Array(items) => {
            assert(j@->Array_0 =~= json_views(items@));
        },
        Json::Object(members) => {
            assert forall|name: Seq<char>|
                position(member_names(members@), name) >= 0 implies #[trigger] j@->Object_0[name]
                == members_map(members@)[name] by {
                lemma_position(member_names(members@), name);
            }
            assert(j@->Object_0 =~= members_map(members@));
        },
        _ => {},
    }
}

/// No members stand for the empty map.
pub proof fn lemma_members_empty()
    ensures
        members_map(Seq::<(String, Json)>::empty()) == Map::<Seq<char>, JsonView>::empty(),
{
    assert(members_map(Seq::<(String, Json)>::empty()) =~= Map::<Seq<char>, JsonView>::empty());
}

/// A member with a new name adds its name and value to the map; one with a
/// name that the list carries already changes nothing.
pub proof fn lemma_members_push(members: Seq<(String, Json)>, member: (String, Json))
    ensures
        members_map(members.push(member)) == if members_map(members).contains_key(member.0@) {
            members_map(members)
        } else {
            members_map(members).insert(member.0@, member.1@)
        },
{
    let longer = members.push(member);
    let names = member_names(members);
    let longer_names = member_names(longer);
    assert(longer_names.drop_last() =~= names);
    assert(longer_names.last() == member.0@);
    let expected = if members_map(members).contains_key(member.0@) {
        members_map(members)
    } else {
        members_map(members).insert(member.0@, member.1@)
    };
    assert forall|name: Seq<char>| #[trigger]
        members_map(longer).contains_key(name) == expected.contains_key(name) by {}
    assert forall|name: Seq<char>| members_map(longer).contains_key(name) implies #[trigger]
        members_map(longer)[name] == expected[name] by {
        lemma_position(names, name);
        let p = position(longer_names, name);
        if position(names, name) >= 0 {
            assert(longer[p] == members[p]);
        } else {
            assert(longer[p] == member);
        }
    }
    assert(members_map(longer) =~= expected);
}

/// The member at the first index that carries a name gives the name's
/// value.
pub proof fn lemma_members_first(members: Seq<(String, Json)>, i: int)
    requires
        0 <= i < members.len(),
        forall|j: int| 0 <= j < i ==> (#[trigger] members[j]).0@ != members[i].0@,
    ensures
        members_map(members).contains_key(members[i].0@),
        members_map(members)[members[i].0@] == members[i].1@,
{
    let names = member_names(members);
    assert forall|j: int| 0 <= j < i implies names[j] != names[i] by {
        assert(names[j] == members[j].0@);
    }
    lemma_position_is(names, members[i].0@, i);
}

/// A name that no member carries is not in the map.
pub proof fn lemma_members_absent(members: Seq<(String, Json)>, name: Seq<char>)
    requires
        forall|j: int| 0 <= j < members.len() ==> (#[trigger] members[j]).0@ != name,
    ensures
        !members_map(members).contains_key(name),
{
    let names = member_names(members);
    lemma_position(names, name);
    if position(names, name) >= 0 {
        assert(names[position(names, name)] == members[position(names, name)].0@);
    }
}

/// A name is in the map exactly when some member carries it.
pub proof fn lemma_members_domain(members: Seq<(String, Json)>, name: Seq<char>)
    ensures
        members_map(members).contains_key(name) <==> exists|j: int|
            0 <= j < members.len() && (#[trigger] members[j]).0@ == name,
{
    let names = member_names(members);
    lemma_position(names, name);
    if members_map(members).contains_key(name) {
        let p = position(names, name);
        assert(members[p].0@ == names[p]);
    }
    if exists|j: int| 0 <= j < members.len() && (#[trigger] members[j]).0@ == name {
        let j = choose|j: int| 0 <= j < members.len() && (#[trigger] members[j]).0@ == name;
        assert(names[j] == name);
    }
}

/// The member of a document under a name: that of an object that has one,
/// else nothing.
pub open spec fn field(j: JsonView, name: Seq<char>) -> Option<JsonView> {
    match j {
        JsonView::Object(m) => if m.contains_key(name) {
            Some(m[name])
        } else {
            None
        },
        _ => None,
    }
}

/// The value under a name, looked up in a list of members.
pub fn find_member<'a>(members: &'a Vec<(String, Json)>, name: &str) -> (found: Option<&'a Json>)
    ensures
        match found {
            Some(j) => members_map(members@).contains_key(name@) && j@ == members_map(
                members@,
            )[name@],
            None => !members_map(members@).contains_key(name@),
        },
{
    let mut i: usize = 0;
    while i < members.len()
        invariant
            i <= members@.len(),
            forall|j: int| 0 <= j < i ==> (#[trigger] members@[j]).0@ != name@,
        decreases members@.len() - i,
    {
        if text_eq(members[i].0.as_str(), name) {
            proof {
                lemma_members_first(members@, i as int);
            }
            return Some(&members[i].1);
        }
        i += 1;
    }
    proof {
        lemma_members_absent(members@, name@);
    }
    None
}

impl Json {
    /// The member of the document under a name.
    pub fn get(&self, name: &str) -> (found: Option<&Json>)
        ensures
            match found {
                Some(j) => field(self@, name@) == Some(j@),
                None => field(self@, name@) is None,
            },
    {
        proof {
            lemma_json_value(*self);
        }
        match self {
            Json::Object(members) => find_member(members, name),
            _ => None,
        }
    }
}

} // verus!
