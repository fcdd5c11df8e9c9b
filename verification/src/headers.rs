//! Header fields: a mapping from names to values, kept as a list in which no
//! name occurs twice.

use vstd::prelude::*;
use vstd::std_specs::cmp::PartialEqSpecImpl;

verus! {

/// One header field.
#[derive(Debug)]
pub struct Header {
    pub name: String,
    pub value: String,
}

impl Clone for Header {
    fn clone(&self) -> (copy: Header)
        ensures
            copy == *self,
    {
        Header { name: self.name.clone(), value: self.value.clone() }
    }
}

/// The mapping that a list of header fields stands for. Where a name occurs
/// more than once, the field that comes last decides.
pub open spec fn entries_map(entries: Seq<Header>) -> Map<Seq<char>, Seq<char>>
    decreases entries.len(),
{
    if entries.len() == 0 {
        Map::empty()
    } else {
        entries_map(entries.drop_last()).insert(entries.last().name@, entries.last().value@)
    }
}

/// No two fields of the list have the same name.
pub open spec fn distinct_names(entries: Seq<Header>) -> bool {
    forall|i: int, j: int|
        0 <= i < j < entries.len() ==> (#[trigger] entries[i]).name@ != (#[trigger] entries[j]).name@
}

/// A list without repeated names has none once its last field is taken off.
proof fn lemma_distinct_names_front(entries: Seq<Header>)
    requires
        distinct_names(entries),
        entries.len() > 0,
    ensures
        distinct_names(entries.drop_last()),
{
    let front = entries.drop_last();
    assert forall|a: int, b: int| 0 <= a < b < front.len() implies (#[trigger] front[a]).name@ != (
    #[trigger] front[b]).name@ by {
        assert(entries[a].name@ != entries[b].name@);
    }
}

/// A name is in the mapping exactly if a field of the list carries it.
pub proof fn lemma_entries_map_names(entries: Seq<Header>, name: Seq<char>)
    ensures
        entries_map(entries).contains_key(name) <==> exists|i: int|
            0 <= i < entries.len() && (#[trigger] entries[i]).name@ == name,
    decreases entries.len(),
{
    if entries.len() > 0 {
        let front = entries.drop_last();
        lemma_entries_map_names(front, name);
        if entries_map(front).contains_key(name) {
            let i = choose|i: int| 0 <= i < front.len() && (#[trigger] front[i]).name@ == name;
            assert(entries[i].name@ == name);
        }
        if exists|i: int| 0 <= i < entries.len() && (#[trigger] entries[i]).name@ == name {
            let i = choose|i: int| 0 <= i < entries.len() && (#[trigger] entries[i]).name@ == name;
            if i < front.len() {
                assert(front[i].name@ == name);
            }
        }
    }
}

/// In a list without repeated names, the mapping gives each field's own value.
pub proof fn lemma_entries_map_value(entries: Seq<Header>, i: int)
    requires
        distinct_names(entries),
        0 <= i < entries.len(),
    ensures
        entries_map(entries).contains_key(entries[i].name@),
        entries_map(entries)[entries[i].name@] == entries[i].value@,
    decreases entries.len(),
{
    let front = entries.drop_last();
    if i < entries.len() - 1 {
        lemma_distinct_names_front(entries);
        lemma_entries_map_value(front, i);
    }
}

/// Replacing the value of one field changes the mapping at that name only.
pub proof fn lemma_entries_map_update(entries: Seq<Header>, i: int, field: Header)
    requires
        distinct_names(entries),
        0 <= i < entries.len(),
        field.name@ == entries[i].name@,
    ensures
        distinct_names(entries.update(i, field)),
        entries_map(entries.update(i, field)) == entries_map(entries).insert(
            field.name@,
            field.value@,
        ),
    decreases entries.len(),
{
    let changed = entries.update(i, field);
    assert forall|a: int, b: int| 0 <= a < b < changed.len() implies (#[trigger] changed[a]).name@
        != (#[trigger] changed[b]).name@ by {
        assert(entries[a].name@ != entries[b].name@);
    }
    let front = entries.drop_last();
    if i == entries.len() - 1 {
        assert(changed.drop_last() == front);
    } else {
        lemma_distinct_names_front(entries);
        lemma_entries_map_update(front, i, field);
        assert(changed.drop_last() == front.update(i, field));
    }
}

/// A mapping from header names to header values. Names are told apart
/// character by character: `Accept` and `accept` are two names.
#[derive(Debug)]
pub struct Headers {
    pub(crate) entries: Vec<Header>,
}

impl View for Headers {
    type V = Map<Seq<char>, Seq<char>>;

    closed spec fn view(&self) -> Map<Seq<char>, Seq<char>> {
        entries_map(self.entries@)
    }
}

impl Headers {
    /// The fields in the order in which their names came in.
    pub closed spec fn fields(&self) -> Seq<Header> {
        self.entries@
    }

    #[verifier::type_invariant]
    spec fn no_name_twice(self) -> bool {
        distinct_names(self.entries@)
    }

    /// The position of the field called `name`, if there is one.
    fn position(&self, name: &String) -> (found: Option<usize>)
        ensures
            match found {
                Some(i) => i < self.entries.len() && self.entries[i as int].name@ == name@,
                None => forall|i: int|
                    0 <= i < self.entries.len() ==> (#[trigger] self.entries[i]).name@ != name@,
            },
    {
        let mut i: usize = 0;
        while i < self.entries.len()
            invariant
                i <= self.entries.len(),
                forall|k: int| 0 <= k < i ==> (#[trigger] self.entries[k]).name@ != name@,
            decreases self.entries.len() - i,
        {
            if self.entries[i].name == *name {
                return Some(i);
            }
            i += 1;
        }
        None
    }

    /// A mapping without fields.
    pub fn new() -> (headers: Headers)
        ensures
            headers@ == Map::<Seq<char>, Seq<char>>::empty(),
    {
        Headers { entries: Vec::new() }
    }

    /// The number of fields.
    pub fn len(&self) -> (n: usize)
        ensures
            n == self@.len(),
            self@.dom().finite(),
    {
        proof {
            use_type_invariant(self);
            lemma_entries_map_len(self.entries@);
        }
        self.entries.len()
    }

    /// Whether the mapping has no field.
    pub fn is_empty(&self) -> (empty: bool)
        ensures
            empty == (self@ == Map::<Seq<char>, Seq<char>>::empty()),
    {
        proof {
            if self.entries.len() > 0 {
                lemma_entries_map_names(self.entries@, self.entries[0].name@);
            }
        }
        self.entries.len() == 0
    }

    /// Whether a field of that name is present.
    pub fn contains_key(&self, name: &str) -> (present: bool)
        ensures
            present == self@.contains_key(name@),
    {
        let owned = name.to_owned();
        let found = self.position(&owned);
        proof {
            lemma_entries_map_names(self.entries@, name@);
        }
        found.is_some()
    }

    /// The value of the field of that name.
    pub fn get(&self, name: &str) -> (value: Option<&String>)
        ensures
            match value {
                Some(v) => self@.contains_key(name@) && v@ == self@[name@],
                None => !self@.contains_key(name@),
            },
    {
        let owned = name.to_owned();
        let found = self.position(&owned);
        proof {
            use_type_invariant(self);
            lemma_entries_map_names(self.entries@, name@);
        }
        match found {
            Some(i) => {
                proof {
                    lemma_entries_map_value(self.entries@, i as int);
                }
                Some(&self.entries[i].value)
            },
            None => None,
        }
    }

    /// Sets the field `name` to `value`, whether or not it was present.
    pub fn insert(&mut self, name: String, value: String)
        ensures
            final(self)@ == old(self)@.insert(name@, value@),
    {
        let found = self.position(&name);
        proof {
            use_type_invariant(&*self);
        }
        let field = Header { name, value };
        // The list is changed outside `self`, which holds an empty list
        // meanwhile: no name occurs twice in it at any moment.
        let mut taken = Headers { entries: Vec::new() };
        core::mem::swap(self, &mut taken);
        let mut entries = taken.entries;
        let ghost before = entries@;
        match found {
            Some(i) => {
                proof {
                    lemma_entries_map_update(before, i as int, field);
                }
                entries.set(i, field);
            },
            None => {
                entries.push(field);
                assert(entries@.drop_last() == before);
                assert forall|a: int, b: int| 0 <= a < b < entries@.len() implies (
                #[trigger] entries@[a]).name@ != (#[trigger] entries@[b]).name@ by {
                    if b < before.len() {
                        assert(before[a].name@ != before[b].name@);
                    } else {
                        assert(before[a].name@ != name@);
                    }
                }
            },
        }
        *self = Headers { entries };
    }

    /// Whether every field of `self` is a field of `other`, with the same value.
    fn included_in(&self, other: &Headers) -> (included: bool)
        ensures
            included == self@.submap_of(other@),
    {
        proof {
            use_type_invariant(self);
        }
        let mut i: usize = 0;
        while i < self.entries.len()
            invariant
                i <= self.entries.len(),
                distinct_names(self.entries@),
                forall|k: int|
                    0 <= k < i ==> other@.contains_key((#[trigger] self.entries[k]).name@)
                        && other@[self.entries[k].name@] == self.entries[k].value@,
            decreases self.entries.len() - i,
        {
            proof {
                lemma_entries_map_value(self.entries@, i as int);
            }
            match other.get(self.entries[i].name.as_str()) {
                Some(value) => {
                    if !(*value == self.entries[i].value) {
                        return false;
                    }
                },
                None => {
                    return false;
                },
            }
            i += 1;
        }
        proof {
            assert forall|name: Seq<char>| #[trigger]
                self@.dom().contains(name) implies #[trigger] other@.dom().contains(name)
                && self@[name] == other@[name] by {
                lemma_entries_map_names(self.entries@, name);
                let k = choose|k: int|
                    0 <= k < self.entries.len() && (#[trigger] self.entries[k]).name@ == name;
                lemma_entries_map_value(self.entries@, k);
            }
        }
        true
    }

    /// Whether two mappings have the same fields, in whatever order.
    pub fn same_fields(&self, other: &Headers) -> (same: bool)
        ensures
            same == (self@ == other@),
    {
        let same = self.included_in(other) && other.included_in(self);
        proof {
            self@.lemma_submap_eq_iff(other@);
        }
        same
    }

    /// The mapping that a list of fields stands for. Where a name occurs more
    /// than once in the list, the field that comes last decides.
    pub fn from_entries(fields: &Vec<Header>) -> (headers: Headers)
        ensures
            headers@ == entries_map(fields@),
    {
        let mut headers = Headers::new();
        let mut i: usize = 0;
        while i < fields.len()
            invariant
                i <= fields.len(),
                headers@ == entries_map(fields@.take(i as int)),
            decreases fields.len() - i,
        {
            headers.insert(fields[i].name.clone(), fields[i].value.clone());
            assert(fields@.take(i + 1).drop_last() == fields@.take(i as int));
            i += 1;
        }
        assert(fields@.take(i as int) == fields@);
        headers
    }

    /// The fields, each name once, in the order in which the names came in.
    pub fn entries(&self) -> (list: &Vec<Header>)
        ensures
            list@ == self.fields(),
            distinct_names(list@),
            entries_map(list@) == self@,
    {
        proof {
            use_type_invariant(self);
        }
        &self.entries
    }

    /// Gives the fields up as a list, each name once.
    pub fn into_entries(self) -> (list: Vec<Header>)
        ensures
            list@ == self.fields(),
            distinct_names(list@),
            entries_map(list@) == self@,
    {
        proof {
            use_type_invariant(&self);
        }
        self.entries
    }
}

impl Clone for Headers {
    fn clone(&self) -> (copy: Headers)
        ensures
            copy@ == self@,
            copy.fields() == self.fields(),
    {
        proof {
            use_type_invariant(self);
        }
        let mut entries: Vec<Header> = Vec::new();
        let mut i: usize = 0;
        while i < self.entries.len()
            invariant
                i <= self.entries.len(),
                entries@ == self.entries@.take(i as int),
            decreases self.entries.len() - i,
        {
            entries.push(self.entries[i].clone());
            assert(entries@ == self.entries@.take(i + 1));
            i += 1;
        }
        assert(self.entries@.take(i as int) == self.entries@);
        Headers { entries }
    }
}

impl PartialEq for Headers {
    fn eq(&self, other: &Headers) -> (same: bool) {
        self.same_fields(other)
    }
}

impl PartialEqSpecImpl for Headers {
    open spec fn obeys_eq_spec() -> bool {
        true
    }

    open spec fn eq_spec(&self, other: &Headers) -> bool {
        self@ == other@
    }
}

/// A list without repeated names stands for a mapping with as many fields.
pub proof fn lemma_entries_map_len(entries: Seq<Header>)
    requires
        distinct_names(entries),
    ensures
        entries_map(entries).dom().finite(),
        entries_map(entries).len() == entries.len(),
    decreases entries.len(),
{
    if entries.len() > 0 {
        let front = entries.drop_last();
        lemma_distinct_names_front(entries);
        lemma_entries_map_len(front);
        lemma_entries_map_names(front, entries.last().name@);
        if entries_map(front).contains_key(entries.last().name@) {
            let i = choose|i: int|
                0 <= i < front.len() && (#[trigger] front[i]).name@ == entries.last().name@;
            assert(entries[i].name@ != entries[entries.len() - 1].name@);
        }
    }
}

} // verus!
