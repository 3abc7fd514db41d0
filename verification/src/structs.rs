//! The layout of structures: fields in declaration order, one after the
//! other without padding.

use vstd::prelude::*;
use linked_hash_map::LinkedHashMap;
use crate::symbols::{VariableData, VariableView};

verus! {

/// The map of `linked_hash_map`: a hash map that remembers the order in which
/// its keys were inserted.
#[verifier::external_type_specification]
#[verifier::external_body]
#[verifier::reject_recursive_types(K)]
#[verifier::reject_recursive_types(V)]
#[verifier::reject_recursive_types(S)]
pub struct ExLinkedHashMap<K, V, S>(LinkedHashMap<K, V, S>);

/// The entries of a map of fields, oldest insertion first: each key by its
/// characters, with its value.
pub uninterp spec fn field_entries(m: LinkedHashMap<String, VariableData>) -> Seq<
    (Seq<char>, VariableData),
>;

/// `entries` without the entry of key `k`.
pub open spec fn without_key(entries: Seq<(Seq<char>, VariableData)>, k: Seq<char>) -> Seq<
    (Seq<char>, VariableData),
>
    decreases entries.len(),
{
    if entries.len() == 0 {
        entries
    } else if entries.last().0 == k {
        without_key(entries.drop_last(), k)
    } else {
        without_key(entries.drop_last(), k).push(entries.last())
    }
}

/// `LinkedHashMap::new`: a map without entries.
#[verifier::external_body]
fn new_field_map() -> (m: LinkedHashMap<String, VariableData>)
    ensures
        field_entries(m) == Seq::<(Seq<char>, VariableData)>::empty(),
{
    LinkedHashMap::new()
}

/// `LinkedHashMap::insert`: the entry of `key`, if there was one, leaves its
/// place, and `key` with `value` becomes the newest entry.
#[verifier::external_body]
fn insert_field_entry(m: &mut LinkedHashMap<String, VariableData>, key: String, value: VariableData)
    ensures
        field_entries(*final(m)) == without_key(field_entries(*old(m)), key@).push((key@, value)),
{
    m.insert(key, value);
}

/// `LinkedHashMap::get`: the value of the entry of `key`, or nothing where no
/// entry has that key.
#[verifier::external_body]
fn get_field_entry<'a>(m: &'a LinkedHashMap<String, VariableData>, key: &str) -> (r: Option<
    &'a VariableData,
>)
    ensures
        match r {
            Some(v) => exists|i: int|
                0 <= i < field_entries(*m).len() && field_entries(*m)[i] == (key@, *v),
            None => forall|i: int|
                0 <= i < field_entries(*m).len() ==> field_entries(*m)[i].0 != key@,
        },
{
    m.get(key)
}

/// `fields` without the field named `name`.
pub open spec fn without_field(fields: Seq<VariableView>, name: Seq<char>) -> Seq<VariableView>
    decreases fields.len(),
{
    if fields.len() == 0 {
        fields
    } else if fields.last().name == name {
        without_field(fields.drop_last(), name)
    } else {
        without_field(fields.drop_last(), name).push(fields.last())
    }
}

/// `fields` after `field` is recorded: a field of the same name gives way,
/// and `field` comes last.
pub open spec fn put_field(fields: Seq<VariableView>, field: VariableView) -> Seq<VariableView> {
    without_field(fields, field.name).push(field)
}

/// Whether no two of `fields` share a name.
pub open spec fn distinct_fields(fields: Seq<VariableView>) -> bool {
    forall|i: int, j: int|
        0 <= i < fields.len() && 0 <= j < fields.len() && i != j ==> fields[i].name
            != fields[j].name
}

/// The field named `name` among `fields`.
pub open spec fn find_field(fields: Seq<VariableView>, name: Seq<char>) -> Option<VariableView> {
    if exists|i: int| 0 <= i < fields.len() && fields[i].name == name {
        Some(fields[choose|i: int| 0 <= i < fields.len() && fields[i].name == name])
    } else {
        None
    }
}

/// Removing a name leaves a subsequence: every field that remains was there,
/// none of them has the name, and distinct names stay distinct.
pub proof fn lemma_without_field(fields: Seq<VariableView>, name: Seq<char>)
    ensures
        forall|i: int|
            0 <= i < without_field(fields, name).len() ==> (#[trigger] without_field(
                fields,
                name,
            )[i]).name != name && fields.contains(without_field(fields, name)[i]),
        distinct_fields(fields) ==> distinct_fields(without_field(fields, name)),
        without_field(fields, name).len() <= fields.len(),
        (forall|i: int| 0 <= i < fields.len() ==> fields[i].name != name) ==> without_field(
            fields,
            name,
        ) == fields,
    decreases fields.len(),
{
    if fields.len() > 0 {
        let init = fields.drop_last();
        lemma_without_field(init, name);
        let rest = without_field(init, name);
        let out = without_field(fields, name);
        assert forall|i: int| 0 <= i < out.len() implies (#[trigger] out[i]).name != name
            && fields.contains(out[i]) by {
            if i < rest.len() {
                assert(init.contains(rest[i]));
                let j = choose|j: int| 0 <= j < init.len() && init[j] == rest[i];
                assert(fields[j] == rest[i]);
            } else {
                assert(out[i] == fields.last());
                assert(fields[fields.len() - 1] == out[i]);
            }
        }
        if distinct_fields(fields) {
            assert(distinct_fields(init)) by {
                assert forall|i: int, j: int|
                    0 <= i < init.len() && 0 <= j < init.len() && i != j implies init[i].name
                    != init[j].name by {
                    assert(init[i] == fields[i]);
                    assert(init[j] == fields[j]);
                }
            }
            assert forall|i: int, j: int|
                0 <= i < out.len() && 0 <= j < out.len() && i != j implies out[i].name
                != out[j].name by {
                if i < rest.len() && j < rest.len() {
                } else {
                    let other = if i < rest.len() { i } else { j };
                    assert(init.contains(rest[other]));
                    let p = choose|p: int| 0 <= p < init.len() && init[p] == rest[other];
                    assert(fields[p] == rest[other]);
                    assert(fields[fields.len() - 1] == fields.last());
                }
            }
        }
        if forall|i: int| 0 <= i < fields.len() ==> fields[i].name != name {
            assert forall|i: int| 0 <= i < init.len() implies init[i].name != name by {
                assert(init[i] == fields[i]);
            }
            assert(fields[fields.len() - 1].name != name);
            assert(out =~= fields);
        }
    }
}

/// The fields of a structure, in the order of their declaration.
pub struct FieldTable {
    map: LinkedHashMap<String, VariableData>,
}

/// The fields that `entries` hold, in order.
pub open spec fn entry_fields(entries: Seq<(Seq<char>, VariableData)>) -> Seq<VariableView> {
    entries.map_values(|e: (Seq<char>, VariableData)| e.1@)
}

/// Whether every entry of `entries` stands under the name of its field and no
/// key occurs twice.
pub open spec fn entries_wf(entries: Seq<(Seq<char>, VariableData)>) -> bool {
    &&& forall|i: int| 0 <= i < entries.len() ==> (#[trigger] entries[i]).0 == entries[i].1.name@
    &&& distinct_fields(entry_fields(entries))
}

proof fn lemma_without_key_fields(entries: Seq<(Seq<char>, VariableData)>, k: Seq<char>)
    requires
        forall|i: int| 0 <= i < entries.len() ==> (#[trigger] entries[i]).0 == entries[i].1.name@,
    ensures
        entry_fields(without_key(entries, k)) == without_field(entry_fields(entries), k),
        forall|i: int|
            0 <= i < without_key(entries, k).len() ==> (#[trigger] without_key(entries, k)[i]).0
                == without_key(entries, k)[i].1.name@,
    decreases entries.len(),
{
    if entries.len() > 0 {
        let init = entries.drop_last();
        lemma_without_key_fields(init, k);
        assert(entry_fields(entries).drop_last() =~= entry_fields(init));
        assert(entry_fields(entries).last() == entries.last().1@);
        assert(entries.last() == entries[entries.len() - 1]);
        assert(entry_fields(without_key(entries, k)) =~= without_field(entry_fields(entries), k));
    } else {
        assert(entry_fields(without_key(entries, k)) =~= without_field(entry_fields(entries), k));
    }
}

impl View for FieldTable {
    type V = Seq<VariableView>;

    closed spec fn view(&self) -> Seq<VariableView> {
        entry_fields(field_entries(self.map))
    }
}

impl FieldTable {
    #[verifier::type_invariant]
    spec fn wf(&self) -> bool {
        entries_wf(field_entries(self.map))
    }

    /// A table without fields.
    pub fn new() -> (t: Self)
        ensures
            t@ == Seq::<VariableView>::empty(),
    {
        let t = FieldTable { map: new_field_map() };
        assert(t@ =~= Seq::<VariableView>::empty());
        t
    }

    /// No two fields of a table share a name.
    pub fn distinct(&self)
        ensures
            distinct_fields(self@),
    {
        proof {
            use_type_invariant(self);
        }
    }

    /// Records `field` under its name.
    pub fn insert(&mut self, field: VariableData)
        ensures
            final(self)@ == put_field(old(self)@, field@),
    {
        proof {
            use_type_invariant(&*self);
        }
        let ghost before = field_entries(self.map);
        // The map is changed outside the table, which holds an empty one
        // meanwhile.
        let mut map = new_field_map();
        core::mem::swap(&mut self.map, &mut map);
        let key = field.name.clone();
        insert_field_entry(&mut map, key, field);
        proof {
            let k = field.name@;
            let kept = without_key(before, k);
            lemma_without_key_fields(before, k);
            lemma_without_field(entry_fields(before), k);
            let after = field_entries(map);
            assert(entry_fields(after) =~= put_field(entry_fields(before), field@));
            assert forall|i: int, j: int|
                0 <= i < after.len() && 0 <= j < after.len() && i != j implies entry_fields(
                after,
            )[i].name != entry_fields(after)[j].name by {
                let fields = without_field(entry_fields(before), k);
                if i < kept.len() && j < kept.len() {
                    assert(entry_fields(after)[i] == fields[i]);
                    assert(entry_fields(after)[j] == fields[j]);
                } else if i < kept.len() {
                    assert(entry_fields(after)[i] == fields[i]);
                } else {
                    assert(entry_fields(after)[j] == fields[j]);
                }
            }
        }
        core::mem::swap(&mut self.map, &mut map);
    }

    /// The field named `name`.
    pub fn get(&self, name: &str) -> (r: Option<&VariableData>)
        ensures
            match r {
                Some(v) => find_field(self@, name@) == Some(v@),
                None => find_field(self@, name@).is_none(),
            },
    {
        proof {
            use_type_invariant(self);
        }
        let r = get_field_entry(&self.map, name);
        proof {
            let entries = field_entries(self.map);
            match r {
                Some(v) => {
                    let i = choose|i: int| 0 <= i < entries.len() && entries[i] == (name@, *v);
                    assert(self@[i].name == name@);
                    let j = choose|j: int| 0 <= j < self@.len() && self@[j].name == name@;
                    assert(j == i);
                },
                None => {
                    assert forall|i: int| 0 <= i < self@.len() implies self@[i].name != name@ by {
                        assert(entries[i].0 == entries[i].1.name@);
                    }
                },
            }
        }
        r
    }
}

/// The layout of a structure: its size in words and its fields, each with its
/// offset from the start of the structure.
pub struct StructData {
    pub name: String,
    pub size: u32,
    pub items: FieldTable,
}

/// The mathematical value of a [`StructData`].
pub struct StructView {
    pub name: Seq<char>,
    pub size: nat,
    pub fields: Seq<VariableView>,
}

impl View for StructData {
    type V = StructView;

    open spec fn view(&self) -> StructView {
        StructView { name: self.name@, size: self.size as nat, fields: self.items@ }
    }
}

} // verus!
