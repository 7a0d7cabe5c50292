//! The fields of a profile: a mapping from key to field, kept as a list in
//! which no key stands twice.
use vstd::prelude::*;
use crate::models::user::{Field, FieldView};

verus! {

/// The value of a list of fields with their keys.
pub open spec fn entries_view(entries: Seq<(String, Field)>) -> Seq<(Seq<char>, FieldView)> {
    entries.map_values(|e: (String, Field)| (e.0@, e.1@))
}

/// The keys of a list of fields, in order.
pub open spec fn entry_keys(entries: Seq<(Seq<char>, FieldView)>) -> Seq<Seq<char>> {
    entries.map_values(|e: (Seq<char>, FieldView)| e.0)
}

/// Whether no key stands twice in a list of fields.
pub open spec fn keys_distinct(entries: Seq<(Seq<char>, FieldView)>) -> bool {
    forall|i: int, j: int|
        0 <= i < j < entries.len() ==> (#[trigger] entries[i]).0 != (#[trigger] entries[j]).0
}

/// Whether `i` is the place of `key` in a list of fields.
pub open spec fn is_key_at(entries: Seq<(Seq<char>, FieldView)>, key: Seq<char>, i: int) -> bool {
    0 <= i < entries.len() && entries[i].0 == key
}

/// Whether some entry of a list of fields has the key `key`.
pub open spec fn has_key(entries: Seq<(Seq<char>, FieldView)>, key: Seq<char>) -> bool {
    exists|i: int| is_key_at(entries, key, i)
}

/// Whether `i` is the place of the first field named `name`.
pub open spec fn is_first_named(
    entries: Seq<(Seq<char>, FieldView)>,
    name: Seq<char>,
    i: int,
) -> bool {
    &&& 0 <= i < entries.len()
    &&& entries[i].1.name == name
    &&& forall|j: int| 0 <= j < i ==> (#[trigger] entries[j]).1.name != name
}

/// Whether some field of a list is named `name`.
pub open spec fn has_name(entries: Seq<(Seq<char>, FieldView)>, name: Seq<char>) -> bool {
    exists|i: int| 0 <= i < entries.len() && (#[trigger] entries[i]).1.name == name
}

/// The mapping from key to field that a list of fields with distinct keys
/// stands for.
pub open spec fn entries_map(entries: Seq<(Seq<char>, FieldView)>) -> Map<Seq<char>, FieldView> {
    Map::new(
        |k: Seq<char>| has_key(entries, k),
        |k: Seq<char>| entries[choose|i: int| is_key_at(entries, k, i)].1,
    )
}

/// A copy of a list of fields.
fn clone_entries(entries: &Vec<(String, Field)>) -> (copy: Vec<(String, Field)>)
    ensures
        copy@ == entries@,
{
    let mut copy: Vec<(String, Field)> = Vec::new();
    let mut i: usize = 0;
    while i < entries.len()
        invariant
            i <= entries.len(),
            copy@ == entries@.subrange(0, i as int),
        decreases entries.len() - i,
    {
        let entry = &entries[i];
        copy.push((entry.0.clone(), entry.1.clone()));
        proof {
            assert(copy@ =~= entries@.subrange(0, i + 1));
        }
        i += 1;
    }
    proof {
        assert(copy@ =~= entries@);
    }
    copy
}

/// A mapping from key to field. The entries keep the order in which their
/// keys came.
#[derive(Debug)]
pub struct FieldMap {
    entries: Vec<(String, Field)>,
}

impl View for FieldMap {
    type V = Seq<(Seq<char>, FieldView)>;

    closed spec fn view(&self) -> Seq<(Seq<char>, FieldView)> {
        entries_view(self.entries@)
    }
}

impl Clone for FieldMap {
    fn clone(&self) -> (r: Self)
        ensures
            r@ == self@,
    {
        proof {
            use_type_invariant(self);
        }
        FieldMap { entries: clone_entries(&self.entries) }
    }
}

impl FieldMap {
    /// Every value of the type is a mapping.
    #[verifier::type_invariant]
    pub open spec fn is_mapping(&self) -> bool {
        keys_distinct(self@)
    }

    /// The mapping without entries.
    pub fn new() -> (r: Self)
        ensures
            r@ == Seq::<(Seq<char>, FieldView)>::empty(),
    {
        let r = FieldMap { entries: Vec::new() };
        proof {
            assert(r@ =~= Seq::<(Seq<char>, FieldView)>::empty());
        }
        r
    }

    /// The number of entries.
    pub fn len(&self) -> (n: usize)
        ensures
            n == self@.len(),
    {
        self.entries.len()
    }

    /// A copy of the entries, in their order.
    pub fn entries(&self) -> (copy: Vec<(String, Field)>)
        ensures
            entries_view(copy@) == self@,
            keys_distinct(self@),
    {
        proof {
            use_type_invariant(self);
        }
        clone_entries(&self.entries)
    }

    /// The place of the first field named `name`, if there is one.
    pub fn find_name(&self, name: &String) -> (place: Option<usize>)
        ensures
            match place {
                Some(i) => is_first_named(self@, name@, i as int),
                None => !has_name(self@, name@),
            },
    {
        let mut i: usize = 0;
        while i < self.entries.len()
            invariant
                i <= self.entries.len(),
                forall|j: int| 0 <= j < i ==> (#[trigger] self@[j]).1.name != name@,
            decreases self.entries.len() - i,
        {
            if self.entries[i].1.name == *name {
                return Some(i);
            }
            i += 1;
        }
        None
    }

    /// The place of `key`, if it has one.
    pub fn find_key(&self, key: &String) -> (place: Option<usize>)
        ensures
            match place {
                Some(i) => is_key_at(self@, key@, i as int),
                None => !has_key(self@, key@),
            },
    {
        let mut i: usize = 0;
        while i < self.entries.len()
            invariant
                i <= self.entries.len(),
                forall|j: int| 0 <= j < i ==> (#[trigger] self@[j]).0 != key@,
            decreases self.entries.len() - i,
        {
            if self.entries[i].0 == *key {
                return Some(i);
            }
            i += 1;
        }
        None
    }

    /// Replaces the field of the entry at `place` and says whether there is
    /// such an entry. The entry keeps its key, and no other entry changes.
    pub fn replace(&mut self, place: usize, field: Field) -> (replaced: bool)
        ensures
            replaced == (place < old(self)@.len()),
            !replaced ==> final(self)@ == old(self)@,
            replaced ==> final(self)@ == old(self)@.update(
                place as int,
                (old(self)@[place as int].0, field@),
            ),
            replaced ==> entries_map(final(self)@) == entries_map(old(self)@).insert(
                old(self)@[place as int].0,
                field@,
            ),
            entry_keys(final(self)@) == entry_keys(old(self)@),
            entries_map(final(self)@).dom() == entries_map(old(self)@).dom(),
            keys_distinct(old(self)@),
            keys_distinct(final(self)@),
    {
        proof {
            use_type_invariant(&*self);
        }
        if place >= self.entries.len() {
            return false;
        }
        let mut taken = FieldMap::new();
        std::mem::swap(self, &mut taken);
        let mut entries = taken.entries;
        let key = entries[place].0.clone();
        entries.set(place, (key, field));
        proof {
            let before = old(self)@;
            law_replace_in_place(before, place as int, field@);
            assert(entries_view(entries@) =~= before.update(
                place as int,
                (before[place as int].0, field@),
            ));
        }
        *self = FieldMap { entries };
        proof {
            assert(entry_keys(self@) =~= entry_keys(old(self)@));
        }
        true
    }

    /// Puts `field` under `key`: in place of the field that the key had, or
    /// as a new entry behind the others.
    pub fn insert(&mut self, key: String, field: Field)
        ensures
            forall|i: int|
                is_key_at(old(self)@, key@, i) ==> final(self)@ == old(self)@.update(
                    i,
                    (key@, field@),
                ),
            !has_key(old(self)@, key@) ==> final(self)@ == old(self)@.push((key@, field@)),
            keys_distinct(old(self)@),
            keys_distinct(final(self)@),
            entries_map(final(self)@) == entries_map(old(self)@).insert(key@, field@),
    {
        proof {
            use_type_invariant(&*self);
        }
        match self.find_key(&key) {
            Some(i) => {
                proof {
                    let before = old(self)@;
                    assert forall|j: int| is_key_at(before, key@, j) implies j == i by {
                        lemma_key_place_unique(before, key@, i as int, j);
                    }
                }
                self.replace(i, field);
            },
            None => {
                let mut taken = FieldMap::new();
                std::mem::swap(self, &mut taken);
                let mut entries = taken.entries;
                entries.push((key, field));
                proof {
                    law_append_new_key(old(self)@, key@, field@);
                    assert(entries_view(entries@) =~= old(self)@.push((key@, field@)));
                }
                *self = FieldMap { entries };
            },
        }
    }
}

/// A list with the keys of a mapping is a mapping.
pub proof fn lemma_same_keys_distinct(
    before: Seq<(Seq<char>, FieldView)>,
    after: Seq<(Seq<char>, FieldView)>,
)
    requires
        entry_keys(before) == entry_keys(after),
        keys_distinct(before),
    ensures
        keys_distinct(after),
{
    assert(before.len() == entry_keys(before).len());
    assert(after.len() == entry_keys(after).len());
    assert forall|i: int, j: int| 0 <= i < j < after.len() implies (#[trigger] after[i]).0 != (
    #[trigger] after[j]).0 by {
        assert(entry_keys(before)[i] == entry_keys(after)[i]);
        assert(entry_keys(before)[j] == entry_keys(after)[j]);
        assert(before[i].0 != before[j].0);
    }
}

/// In a mapping a key has one place.
pub proof fn lemma_key_place_unique(
    entries: Seq<(Seq<char>, FieldView)>,
    key: Seq<char>,
    a: int,
    b: int,
)
    requires
        keys_distinct(entries),
        is_key_at(entries, key, a),
        is_key_at(entries, key, b),
    ensures
        a == b,
{
    if a < b {
        assert(entries[a].0 != entries[b].0);
    } else if b < a {
        assert(entries[b].0 != entries[a].0);
    }
}

/// In a mapping, the field under the key of the entry at `i` is that
/// entry's field.
pub proof fn lemma_map_at_place(entries: Seq<(Seq<char>, FieldView)>, i: int)
    requires
        keys_distinct(entries),
        0 <= i < entries.len(),
    ensures
        entries_map(entries).dom().contains(entries[i].0),
        entries_map(entries)[entries[i].0] == entries[i].1,
{
    let key = entries[i].0;
    assert(is_key_at(entries, key, i));
    let j = choose|j: int| is_key_at(entries, key, j);
    lemma_key_place_unique(entries, key, i, j);
}

/// Replacing the field of one entry, under the key that the entry has,
/// changes the mapping at that key only and adds no key.
pub proof fn law_replace_in_place(entries: Seq<(Seq<char>, FieldView)>, i: int, field: FieldView)
    requires
        keys_distinct(entries),
        0 <= i < entries.len(),
    ensures
        keys_distinct(entries.update(i, (entries[i].0, field))),
        entries_map(entries.update(i, (entries[i].0, field))) == entries_map(entries).insert(
            entries[i].0,
            field,
        ),
        entries_map(entries.update(i, (entries[i].0, field))).dom() == entries_map(entries).dom(),
{
    let key = entries[i].0;
    let after = entries.update(i, (key, field));
    assert(entry_keys(after) =~= entry_keys(entries));
    lemma_same_keys_distinct(entries, after);
    let m0 = entries_map(entries);
    let m1 = entries_map(after);
    assert(is_key_at(entries, key, i));
    assert forall|q: Seq<char>| m1.dom().contains(q) <==> m0.insert(key, field).dom().contains(
        q,
    ) by {
        if has_key(after, q) {
            let j = choose|j: int| is_key_at(after, q, j);
            assert(is_key_at(entries, q, j));
        }
        if has_key(entries, q) {
            let j = choose|j: int| is_key_at(entries, q, j);
            assert(is_key_at(after, q, j));
        }
        if q == key {
            assert(is_key_at(after, q, i));
        }
    }
    assert forall|q: Seq<char>| m1.dom().contains(q) implies m1[q] == m0.insert(key, field)[q] by {
        let j = choose|j: int| is_key_at(after, q, j);
        lemma_map_at_place(after, j);
        if j != i {
            assert(is_key_at(entries, q, j));
            lemma_map_at_place(entries, j);
            assert(q != key);
        }
    }
    assert(m1 =~= m0.insert(key, field));
    assert(m0.dom().contains(key));
    assert(m1.dom() =~= m0.dom());
}

/// Appending an entry under a key that the mapping does not have adds that
/// key with its field and changes nothing else.
pub proof fn law_append_new_key(
    entries: Seq<(Seq<char>, FieldView)>,
    key: Seq<char>,
    field: FieldView,
)
    requires
        keys_distinct(entries),
        !has_key(entries, key),
    ensures
        keys_distinct(entries.push((key, field))),
        entries_map(entries.push((key, field))) == entries_map(entries).insert(key, field),
{
    let after = entries.push((key, field));
    let n = entries.len() as int;
    assert forall|i: int, j: int| 0 <= i < j < after.len() implies (#[trigger] after[i]).0 != (
    #[trigger] after[j]).0 by {
        if j < n {
            assert(entries[i].0 != entries[j].0);
        } else {
            assert(!is_key_at(entries, key, i));
        }
    }
    let m0 = entries_map(entries);
    let m1 = entries_map(after);
    assert(is_key_at(after, key, n));
    assert forall|q: Seq<char>| m1.dom().contains(q) <==> m0.insert(key, field).dom().contains(
        q,
    ) by {
        if has_key(after, q) {
            let j = choose|j: int| is_key_at(after, q, j);
            if j < n {
                assert(is_key_at(entries, q, j));
            }
        }
        if has_key(entries, q) {
            let j = choose|j: int| is_key_at(entries, q, j);
            assert(is_key_at(after, q, j));
        }
    }
    assert forall|q: Seq<char>| m1.dom().contains(q) implies m1[q] == m0.insert(key, field)[q] by {
        let j = choose|j: int| is_key_at(after, q, j);
        lemma_map_at_place(after, j);
        if j < n {
            assert(is_key_at(entries, q, j));
            lemma_map_at_place(entries, j);
        }
    }
    assert(m1 =~= m0.insert(key, field));
}

} // verus!
