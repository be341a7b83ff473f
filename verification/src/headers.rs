//! Header multi-maps: from a header name to the ordered list of its values.

use vstd::prelude::*;
use crate::text::{clone_texts, text_eq};

verus! {

/// One header name with its values, in the order in which they were given.
#[derive(Debug)]
pub struct HeaderEntry {
    pub name: String,
    pub values: Vec<String>,
}

/// A multi-map from header names to ordered value lists.
///
/// The entries are kept in the order in which their names first came. For a
/// name, the first entry that carries it counts; the operations of this type
/// never add a second one.
#[derive(Debug)]
pub struct Headers {
    pub entries: Vec<HeaderEntry>,
}

/// The map that a list of entries stands for: each name with the values of
/// the first entry that carries it.
pub open spec fn entries_map(entries: Seq<HeaderEntry>) -> Map<Seq<char>, Seq<Seq<char>>>
    decreases entries.len(),
{
    if entries.len() == 0 {
        Map::empty()
    } else {
        let rest = entries_map(entries.drop_last());
        let e = entries.last();
        if rest.contains_key(e.name@) {
            rest
        } else {
            rest.insert(e.name@, e.values.deep_view())
        }
    }
}

/// The values of `name` in `map`, or no values where the name is absent.
pub open spec fn values_of(map: Map<Seq<char>, Seq<Seq<char>>>, name: Seq<char>) -> Seq<Seq<char>> {
    if map.contains_key(name) {
        map[name]
    } else {
        Seq::empty()
    }
}

/// The multi-map that results from appending each (name, value) pair in turn.
pub open spec fn group_pairs(pairs: Seq<(Seq<char>, Seq<char>)>) -> Map<Seq<char>, Seq<Seq<char>>>
    decreases pairs.len(),
{
    if pairs.len() == 0 {
        Map::empty()
    } else {
        let rest = group_pairs(pairs.drop_last());
        let p = pairs.last();
        rest.insert(p.0, values_of(rest, p.0).push(p.1))
    }
}

/// The text of a header value as it was read: empty where the value is no
/// text.
pub open spec fn value_text(value: Option<Seq<char>>) -> Seq<char> {
    match value {
        Some(v) => v,
        None => Seq::empty(),
    }
}

/// The (name, value) pairs of headers as they were read, each value as its
/// text.
pub open spec fn pair_texts(raw: Seq<(Seq<char>, Option<Seq<char>>)>) -> Seq<
    (Seq<char>, Seq<char>),
> {
    raw.map_values(|p: (Seq<char>, Option<Seq<char>>)| (p.0, value_text(p.1)))
}

/// Gives each header value that was read its text: a value that is no text
/// counts as the empty text.
pub fn text_pairs(raw: &Vec<(String, Option<String>)>) -> (pairs: Vec<(String, String)>)
    ensures
        pairs.deep_view() == pair_texts(raw.deep_view()),
{
    let mut pairs: Vec<(String, String)> = Vec::new();
    let mut i: usize = 0;
    while i < raw.len()
        invariant
            i <= raw@.len(),
            pairs@.len() == i,
            forall|k: int|
                0 <= k < i ==> (#[trigger] pairs@[k]).0@ == raw@[k].0@ && pairs@[k].1@ == value_text(
                    raw@[k].1.deep_view(),
                ),
        decreases raw@.len() - i,
    {
        let value = match &raw[i].1 {
            Some(v) => v.clone(),
            None => String::new(),
        };
        pairs.push((raw[i].0.clone(), value));
        i += 1;
    }
    proof {
        assert(pairs.deep_view() =~= pair_texts(raw.deep_view()));
    }
    pairs
}

/// A name is in the map exactly when some entry carries it.
pub proof fn lemma_entries_domain(entries: Seq<HeaderEntry>, name: Seq<char>)
    ensures
        entries_map(entries).contains_key(name) <==> exists|j: int|
            0 <= j < entries.len() && (#[trigger] entries[j]).name@ == name,
    decreases entries.len(),
{
    if entries.len() > 0 {
        let front = entries.drop_last();
        lemma_entries_domain(front, name);
        if entries_map(entries).contains_key(name) {
            if entries_map(front).contains_key(name) {
                let j = choose|j: int| 0 <= j < front.len() && (#[trigger] front[j]).name@ == name;
                assert(entries[j].name@ == name);
            } else {
                assert(entries[entries.len() - 1].name@ == name);
            }
        }
        if exists|j: int| 0 <= j < entries.len() && (#[trigger] entries[j]).name@ == name {
            let j = choose|j: int| 0 <= j < entries.len() && (#[trigger] entries[j]).name@ == name;
            if j < front.len() {
                assert(front[j].name@ == name);
            }
        }
    }
}

/// The first entry that carries a name gives the name's values.
pub proof fn lemma_entries_first(entries: Seq<HeaderEntry>, i: int)
    requires
        0 <= i < entries.len(),
        forall|j: int| 0 <= j < i ==> (#[trigger] entries[j]).name@ != entries[i].name@,
    ensures
        entries_map(entries).contains_key(entries[i].name@),
        entries_map(entries)[entries[i].name@] == entries[i].values.deep_view(),
    decreases entries.len(),
{
    let front = entries.drop_last();
    if i == entries.len() - 1 {
        lemma_entries_domain(front, entries[i].name@);
        if entries_map(front).contains_key(entries[i].name@) {
            let j = choose|j: int| 0 <= j < front.len() && (#[trigger] front[j]).name@ == entries[i].name@;
            assert(entries[j].name@ == entries[i].name@);
        }
    } else {
        assert(front[i] == entries[i]);
        assert forall|j: int| 0 <= j < i implies (#[trigger] front[j]).name@ != front[i].name@ by {
            assert(front[j] == entries[j]);
        }
        lemma_entries_first(front, i);
    }
}

/// Replacing the values of the first entry that carries a name replaces the
/// name's values in the map, and nothing else.
pub proof fn lemma_entries_update(entries: Seq<HeaderEntry>, i: int, e: HeaderEntry)
    requires
        0 <= i < entries.len(),
        e.name@ == entries[i].name@,
        forall|j: int| 0 <= j < i ==> (#[trigger] entries[j]).name@ != entries[i].name@,
    ensures
        entries_map(entries.update(i, e)) == entries_map(entries).insert(
            e.name@,
            e.values.deep_view(),
        ),
    decreases entries.len(),
{
    let front = entries.drop_last();
    let after = entries.update(i, e);
    if i == entries.len() - 1 {
        assert(after.drop_last() =~= front);
        lemma_entries_domain(front, e.name@);
        if entries_map(front).contains_key(e.name@) {
            let j = choose|j: int| 0 <= j < front.len() && (#[trigger] front[j]).name@ == e.name@;
            assert(entries[j].name@ == entries[i].name@);
        }
        assert(entries_map(after) =~= entries_map(entries).insert(e.name@, e.values.deep_view()));
    } else {
        assert(front[i] == entries[i]);
        assert forall|j: int| 0 <= j < i implies (#[trigger] front[j]).name@ != front[i].name@ by {
            assert(front[j] == entries[j]);
        }
        lemma_entries_update(front, i, e);
        assert(after.drop_last() =~= front.update(i, e));
        assert(after.last() == entries.last());
        lemma_entries_first(front, i);
        assert(entries_map(after) =~= entries_map(entries).insert(e.name@, e.values.deep_view()));
    }
}

impl View for Headers {
    type V = Map<Seq<char>, Seq<Seq<char>>>;

    open spec fn view(&self) -> Map<Seq<char>, Seq<Seq<char>>> {
        entries_map(self.entries@)
    }
}

impl Headers {
    /// The empty multi-map.
    pub fn new() -> (headers: Headers)
        ensures
            headers@ == Map::<Seq<char>, Seq<Seq<char>>>::empty(),
            headers.entries@.len() == 0,
    {
        Headers { entries: Vec::new() }
    }

    /// The index of the first entry that carries `name`.
    pub fn position(&self, name: &str) -> (found: Option<usize>)
        ensures
            match found {
                Some(i) => {
                    &&& i < self.entries@.len()
                    &&& self.entries@[i as int].name@ == name@
                    &&& forall|j: int| 0 <= j < i ==> (#[trigger] self.entries@[j]).name@ != name@
                },
                None => forall|j: int|
                    0 <= j < self.entries@.len() ==> (#[trigger] self.entries@[j]).name@ != name@,
            },
            found is Some <==> self@.contains_key(name@),
    {
        let mut i: usize = 0;
        while i < self.entries.len()
            invariant
                i <= self.entries@.len(),
                forall|j: int| 0 <= j < i ==> (#[trigger] self.entries@[j]).name@ != name@,
            decreases self.entries@.len() - i,
        {
            if text_eq(self.entries[i].name.as_str(), name) {
                proof {
                    lemma_entries_first(self.entries@, i as int);
                }
                return Some(i);
            }
            i += 1;
        }
        proof {
            lemma_entries_domain(self.entries@, name@);
        }
        None
    }

    /// True when the name has an entry.
    pub fn contains_key(&self, name: &str) -> (present: bool)
        ensures
            present == self@.contains_key(name@),
    {
        self.position(name).is_some()
    }

    /// The values of a name, if it has an entry.
    pub fn get(&self, name: &str) -> (values: Option<&Vec<String>>)
        ensures
            match values {
                Some(v) => self@.contains_key(name@) && v.deep_view() == self@[name@],
                None => !self@.contains_key(name@),
            },
    {
        match self.position(name) {
            Some(i) => {
                proof {
                    lemma_entries_first(self.entries@, i as int);
                }
                Some(&self.entries[i].values)
            },
            None => None,
        }
    }

    /// Sets the values of a name, replacing those it had.
    pub fn insert(&mut self, name: String, values: Vec<String>)
        ensures
            final(self)@ == old(self)@.insert(name@, values.deep_view()),
    {
        match self.position(name.as_str()) {
            Some(i) => {
                proof {
                    lemma_entries_update(self.entries@, i as int, HeaderEntry { name, values });
                }
                self.entries.set(i, HeaderEntry { name, values });
            },
            None => {
                proof {
                    assert(self.entries@.push(HeaderEntry { name, values }).drop_last()
                        =~= self.entries@);
                }
                self.entries.push(HeaderEntry { name, values });
            },
        }
    }

    /// Adds one value behind those that the name already has.
    pub fn append(&mut self, name: String, value: String)
        ensures
            final(self)@ == old(self)@.insert(name@, values_of(old(self)@, name@).push(value@)),
    {
        match self.position(name.as_str()) {
            Some(i) => {
                let mut values = clone_texts(&self.entries[i].values);
                values.push(value);
                proof {
                    lemma_entries_first(self.entries@, i as int);
                    lemma_entries_update(self.entries@, i as int, HeaderEntry { name, values });
                    assert(values.deep_view() =~= values_of(old(self)@, name@).push(value@));
                }
                self.entries.set(i, HeaderEntry { name, values });
            },
            None => {
                let mut values: Vec<String> = Vec::new();
                values.push(value);
                proof {
                    assert(self.entries@.push(HeaderEntry { name, values }).drop_last()
                        =~= self.entries@);
                    assert(values.deep_view() =~= values_of(old(self)@, name@).push(value@));
                }
                self.entries.push(HeaderEntry { name, values });
            },
        }
    }

    /// Groups (name, value) pairs, taken in order, into a multi-map.
    pub fn from_pairs(pairs: Vec<(String, String)>) -> (headers: Headers)
        ensures
            headers@ == group_pairs(pairs.deep_view()),
    {
        let mut headers = Headers::new();
        let mut i: usize = 0;
        while i < pairs.len()
            invariant
                i <= pairs.len(),
                headers@ == group_pairs(pairs.deep_view().take(i as int)),
            decreases pairs.len() - i,
        {
            let name = pairs[i].0.clone();
            let value = pairs[i].1.clone();
            headers.append(name, value);
            proof {
                let all = pairs.deep_view();
                assert(all.take(i as int + 1).drop_last() =~= all.take(i as int));
                assert(all.take(i as int + 1).last() == all[i as int]);
            }
            i += 1;
        }
        proof {
            assert(pairs.deep_view().take(pairs.len() as int) =~= pairs.deep_view());
        }
        headers
    }

    /// A copy of the multi-map.
    pub fn duplicate(&self) -> (copy: Headers)
        ensures
            copy@ == self@,
    {
        let mut entries: Vec<HeaderEntry> = Vec::new();
        let mut i: usize = 0;
        while i < self.entries.len()
            invariant
                i <= self.entries@.len(),
                entries@.len() == i,
                entries_map(entries@) == entries_map(self.entries@.take(i as int)),
            decreases self.entries@.len() - i,
        {
            let name = self.entries[i].name.clone();
            let values = clone_texts(&self.entries[i].values);
            proof {
                let e = HeaderEntry { name, values };
                assert(entries@.push(e).drop_last() =~= entries@);
                assert(self.entries@.take(i as int + 1).drop_last() =~= self.entries@.take(i as int));
            }
            entries.push(HeaderEntry { name, values });
            i += 1;
        }
        proof {
            assert(self.entries@.take(self.entries@.len() as int) =~= self.entries@);
        }
        Headers { entries }
    }
}

} // verus!
