use vstd::prelude::*;

use crate::company::texts;
use crate::yaml::{find_key, is_key, is_text, key_at, lemma_first_key_unique, value_at, value_of, Yaml};

verus! {

/// How many columns every note carries after the user's own fields.
pub const COLUMN_COUNT: usize = 8;

/// The generated columns, in the order in which notes list them and the
/// schema declares them.
pub open spec fn column(t: int) -> Seq<char> {
    if t == 0 {
        "location"@
    } else if t == 1 {
        "majors"@
    } else if t == 2 {
        "job_titles"@
    } else if t == 3 {
        "job_types"@
    } else if t == 4 {
        "school_years"@
    } else if t == 5 {
        "international"@
    } else if t == 6 {
        "sessions"@
    } else {
        "website"@
    }
}

/// The identifier of generated column `t`: the base `abcdef` with only its
/// first letter advanced `t` times.
pub open spec fn field_id(t: int) -> Seq<char> {
    if t == 0 {
        "abcdef"@
    } else if t == 1 {
        "bbcdef"@
    } else if t == 2 {
        "cbcdef"@
    } else if t == 3 {
        "dbcdef"@
    } else if t == 4 {
        "ebcdef"@
    } else if t == 5 {
        "fbcdef"@
    } else if t == 6 {
        "gbcdef"@
    } else {
        "hbcdef"@
    }
}

/// The name of generated column `t`.
pub fn column_name(t: usize) -> (r: &'static str)
    requires
        t < COLUMN_COUNT,
    ensures
        r@ == column(t as int),
{
    if t == 0 {
        "location"
    } else if t == 1 {
        "majors"
    } else if t == 2 {
        "job_titles"
    } else if t == 3 {
        "job_types"
    } else if t == 4 {
        "school_years"
    } else if t == 5 {
        "international"
    } else if t == 6 {
        "sessions"
    } else {
        "website"
    }
}

/// The identifier of generated column `t`.
pub fn column_id(t: usize) -> (r: &'static str)
    requires
        t < COLUMN_COUNT,
    ensures
        r@ == field_id(t as int),
{
    if t == 0 {
        "abcdef"
    } else if t == 1 {
        "bbcdef"
    } else if t == 2 {
        "cbcdef"
    } else if t == 3 {
        "dbcdef"
    } else if t == 4 {
        "ebcdef"
    } else if t == 5 {
        "fbcdef"
    } else if t == 6 {
        "gbcdef"
    } else {
        "hbcdef"
    }
}

/// The field descriptors of a schema document.
pub open spec fn schema_fields(doc: Yaml) -> Option<Seq<Yaml>> {
    match doc {
        Yaml::Hash(entries) => match value_at(entries@, "fields"@) {
            Some(Yaml::Array(fields)) => Some(fields@),
            _ => None,
        },
        _ => None,
    }
}

/// The field order of a schema document.
pub open spec fn schema_order(doc: Yaml) -> Option<Seq<Yaml>> {
    match doc {
        Yaml::Hash(entries) => match value_at(entries@, "fieldsOrder"@) {
            Some(Yaml::Array(order)) => Some(order@),
            _ => None,
        },
        _ => None,
    }
}

/// The name of a field descriptor: the string under its `name` key.
pub open spec fn descriptor_name(f: Yaml) -> Option<Seq<char>> {
    match f {
        Yaml::Hash(entries) => match value_at(entries@, "name"@) {
            Some(Yaml::Str(s)) => Some(s@),
            _ => None,
        },
        _ => None,
    }
}

/// The names of the descriptors, when each has one.
pub open spec fn field_names(fields: Seq<Yaml>) -> Option<Seq<Seq<char>>> {
    if forall|i: int| 0 <= i < fields.len() ==> (#[trigger] descriptor_name(fields[i])) is Some {
        Some(Seq::new(fields.len(), |i: int| descriptor_name(fields[i])->Some_0))
    } else {
        None
    }
}

/// The schema can be merged: it is a mapping whose `fields` is a list of
/// named descriptors and whose `fieldsOrder` is a list.
pub open spec fn mergeable(doc: Yaml) -> bool {
    &&& schema_fields(doc) is Some
    &&& field_names(schema_fields(doc)->Some_0) is Some
    &&& schema_order(doc) is Some
}

/// The names of the fields that the schema declares before the merge.
pub open spec fn user_field_names(doc: Yaml) -> Seq<Seq<char>> {
    field_names(schema_fields(doc)->Some_0)->Some_0
}

/// Entry `e` is the string key `k` with the string value `v`.
pub open spec fn text_entry(e: (Yaml, Yaml), k: Seq<char>, v: Seq<char>) -> bool {
    is_key(e.0, k) && is_text(e.1, v)
}

/// `f` is the descriptor of an input field: `name`, `type: Input`, empty
/// `options`, empty `path` and `id`, in this order.
pub open spec fn is_descriptor(f: Yaml, name: Seq<char>, id: Seq<char>) -> bool {
    &&& f is Hash
    &&& f->Hash_0@.len() == 5
    &&& text_entry(f->Hash_0@[0], "name"@, name)
    &&& text_entry(f->Hash_0@[1], "type"@, "Input"@)
    &&& is_key(f->Hash_0@[2].0, "options"@)
    &&& f->Hash_0@[2].1 is Hash
    &&& f->Hash_0@[2].1->Hash_0@.len() == 0
    &&& text_entry(f->Hash_0@[3], "path"@, Seq::empty())
    &&& text_entry(f->Hash_0@[4], "id"@, id)
}

/// `after` is `before` followed by the descriptors of the generated
/// columns, in order.
pub open spec fn appended_fields(before: Seq<Yaml>, after: Seq<Yaml>) -> bool {
    &&& after.len() == before.len() + COLUMN_COUNT
    &&& after.subrange(0, before.len() as int) == before
    &&& forall|t: int|
        0 <= t < COLUMN_COUNT ==> is_descriptor(
            #[trigger] after[before.len() + t],
            column(t),
            field_id(t),
        )
}

/// `after` is `before` followed by the identifiers of the generated columns,
/// in order.
pub open spec fn appended_order(before: Seq<Yaml>, after: Seq<Yaml>) -> bool {
    &&& after.len() == before.len() + COLUMN_COUNT
    &&& after.subrange(0, before.len() as int) == before
    &&& forall|t: int| 0 <= t < COLUMN_COUNT ==> is_text(#[trigger] after[before.len() + t], field_id(t))
}

/// `out` is `doc` with the generated columns appended to `fields` and their
/// identifiers to `fieldsOrder`; every other entry stays as it was, in its
/// place.
pub open spec fn merged(doc: Yaml, out: Yaml) -> bool {
    let before = doc->Hash_0@;
    let after = out->Hash_0@;
    let fi = key_at(before, "fields"@);
    let oi = key_at(before, "fieldsOrder"@);
    &&& doc is Hash
    &&& out is Hash
    &&& after.len() == before.len()
    &&& forall|k: int| 0 <= k < before.len() ==> (#[trigger] after[k]).0 == before[k].0
    &&& forall|k: int| 0 <= k < before.len() && k != fi && k != oi ==> (#[trigger] after[k]).1 == before[k].1
    &&& after[fi].1 is Array
    &&& appended_fields(schema_fields(doc)->Some_0, after[fi].1->Array_0@)
    &&& after[oi].1 is Array
    &&& appended_order(schema_order(doc)->Some_0, after[oi].1->Array_0@)
}

/// A string node.
fn text_node(s: &str) -> (r: Yaml)
    ensures
        is_text(r, s@),
{
    Yaml::Str(String::from_str(s))
}

/// The descriptor of an input field named `name` with the identifier `id`.
pub fn descriptor(name: &str, id: &str) -> (r: Yaml)
    ensures
        is_descriptor(r, name@, id@),
{
    let mut entries: Vec<(Yaml, Yaml)> = Vec::new();
    entries.push((text_node("name"), text_node(name)));
    entries.push((text_node("type"), text_node("Input")));
    entries.push((text_node("options"), Yaml::Hash(Vec::new())));
    entries.push((text_node("path"), Yaml::Str(String::new())));
    entries.push((text_node("id"), text_node(id)));
    Yaml::Hash(entries)
}

/// The names of the descriptors, or nothing when one lacks a string name.
fn names_of(fields: &Vec<Yaml>) -> (r: Option<Vec<String>>)
    ensures
        r matches Some(v) ==> field_names(fields@) == Some(v@.map_values(|s: String| s@)),
        r is None ==> field_names(fields@) is None,
{
    let mut out: Vec<String> = Vec::new();
    let mut i: usize = 0;
    while i < fields.len()
        invariant
            0 <= i <= fields@.len(),
            out@.len() == i,
            forall|j: int| 0 <= j < i ==> descriptor_name(fields@[j]) == Some(#[trigger] out@[j]@),
        decreases fields@.len() - i,
    {
        let name = match &fields[i] {
            Yaml::Hash(entries) => match value_of(entries, "name") {
                Some(Yaml::Str(s)) => s.clone(),
                _ => {
                    assert(descriptor_name(fields@[i as int]) is None);
                    return None;
                },
            },
            _ => {
                assert(descriptor_name(fields@[i as int]) is None);
                return None;
            },
        };
        out.push(name);
        i = i + 1;
    }
    assert forall|j: int| 0 <= j < fields@.len() implies (#[trigger] descriptor_name(
        fields@[j],
    )) is Some by {
        assert(descriptor_name(fields@[j]) == Some(out@[j]@));
    }
    assert(field_names(fields@)->Some_0 =~= out@.map_values(|s: String| s@));
    Some(out)
}

/// Appends the descriptors of the generated columns to a field list.
fn append_descriptors(fields: &mut Vec<Yaml>)
    ensures
        appended_fields(old(fields)@, final(fields)@),
{
    let ghost before = fields@;
    let mut t: usize = 0;
    while t < COLUMN_COUNT
        invariant
            0 <= t <= COLUMN_COUNT,
            fields@.len() == before.len() + t,
            fields@.subrange(0, before.len() as int) == before,
            forall|u: int|
                0 <= u < t ==> is_descriptor(#[trigger] fields@[before.len() + u], column(u), field_id(u)),
        decreases COLUMN_COUNT - t,
    {
        let f = descriptor(column_name(t), column_id(t));
        let ghost prev = fields@;
        fields.push(f);
        assert(fields@.subrange(0, before.len() as int) =~= prev.subrange(0, before.len() as int));
        t = t + 1;
    }
}

/// Appends the identifiers of the generated columns to a field order.
fn append_ids(order: &mut Vec<Yaml>)
    ensures
        appended_order(old(order)@, final(order)@),
{
    let ghost before = order@;
    let mut t: usize = 0;
    while t < COLUMN_COUNT
        invariant
            0 <= t <= COLUMN_COUNT,
            order@.len() == before.len() + t,
            order@.subrange(0, before.len() as int) == before,
            forall|u: int| 0 <= u < t ==> is_text(#[trigger] order@[before.len() + u], field_id(u)),
        decreases COLUMN_COUNT - t,
    {
        let id = text_node(column_id(t));
        let ghost prev = order@;
        order.push(id);
        assert(order@.subrange(0, before.len() as int) =~= prev.subrange(0, before.len() as int));
        t = t + 1;
    }
}

/// Merges the generated columns into a schema document. It gives back the
/// names of the fields that the schema declared before, in order, and the
/// document with a descriptor for each generated column appended to
/// `fields` and its identifier to `fieldsOrder`. A document that is not such
/// a schema gives nothing.
pub fn merge_schema(doc: Yaml) -> (r: Option<(Vec<String>, Yaml)>)
    ensures
        r is Some <==> mergeable(doc),
        r matches Some(m) ==> texts(m.0@) == user_field_names(doc) && merged(doc, m.1),
{
    let mut entries = match doc {
        Yaml::Hash(entries) => entries,
        _ => return None,
    };
    let ghost before = entries@;
    let fi = match find_key(&entries, "fields") {
        Some(i) => i,
        None => return None,
    };
    proof {
        lemma_first_key_unique(entries@, "fields"@, fi as int);
    }
    let names = match &entries[fi].1 {
        Yaml::Array(fields) => match names_of(fields) {
            Some(names) => names,
            None => return None,
        },
        _ => return None,
    };
    let oi = match find_key(&entries, "fieldsOrder") {
        Some(i) => i,
        None => return None,
    };
    proof {
        lemma_first_key_unique(entries@, "fieldsOrder"@, oi as int);
        reveal_strlit("fields");
        reveal_strlit("fieldsOrder");
        assert("fields"@.len() != "fieldsOrder"@.len());
        assert(is_key(entries@[fi as int].0, "fields"@));
        assert(is_key(entries@[oi as int].0, "fieldsOrder"@));
        assert(fi != oi);
    }
    match &entries[oi].1 {
        Yaml::Array(_) => {},
        _ => return None,
    }
    let (key, value) = entries.remove(fi);
    let mut fields = match value {
        Yaml::Array(fields) => fields,
        _ => return None,
    };
    append_descriptors(&mut fields);
    entries.insert(fi, (key, Yaml::Array(fields)));
    assert(entries@ =~= before.update(fi as int, entries@[fi as int]));
    let ghost middle = entries@;
    let (key, value) = entries.remove(oi);
    let mut order = match value {
        Yaml::Array(order) => order,
        _ => return None,
    };
    append_ids(&mut order);
    entries.insert(oi, (key, Yaml::Array(order)));
    assert(entries@ =~= middle.update(oi as int, entries@[oi as int]));
    Some((names, Yaml::Hash(entries)))
}

} // verus!
