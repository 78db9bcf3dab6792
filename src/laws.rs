use vstd::prelude::*;

use crate::company::{company_of, companies_of, extraction, results_of, CompanyView, ExtractError};
use crate::json::Json;
use crate::note::{column_lines, column_value, joined, line, note_text, placeholder_lines};
use crate::note::note_body;
use crate::schema::{
    column, descriptor_name, field_id, is_descriptor, merged, mergeable, schema_fields,
    schema_order, user_field_names, COLUMN_COUNT,
};
use crate::vault::{fallback_warning, is_note_file, notes_for, NoteFile};
use crate::yaml::{key_at, lemma_first_key_unique, lemma_same_keys, Yaml};

verus! {

/// Each listing comes from the entry at the same position: a sequence of
/// entries that all succeed yields one listing per entry, in order.
pub proof fn lemma_companies_in_order(entries: Seq<Json>)
    requires
        companies_of(entries) is Ok,
    ensures
        companies_of(entries)->Ok_0.len() == entries.len(),
        forall|i: int|
            0 <= i < entries.len() ==> #[trigger] company_of(entries[i]) == Ok::<
                CompanyView,
                ExtractError,
            >(companies_of(entries)->Ok_0[i]),
    decreases entries.len(),
{
    if entries.len() > 0 {
        let init = entries.drop_last();
        lemma_companies_in_order(init);
        assert forall|i: int| 0 <= i < entries.len() implies #[trigger] company_of(entries[i])
            == Ok::<CompanyView, ExtractError>(companies_of(entries)->Ok_0[i]) by {
            if i < init.len() {
                assert(entries[i] == init[i]);
            }
        }
    }
}

/// Extraction keeps the entries' order and count: when a document yields
/// listings, the n-th listing is what the n-th entry of `results` yields,
/// and there are as many listings as entries.
pub proof fn lemma_extraction_in_order(doc: Json)
    requires
        extraction(doc) is Ok,
    ensures
        results_of(doc) is Some,
        extraction(doc)->Ok_0.len() == results_of(doc)->Some_0.len(),
        forall|i: int|
            0 <= i < results_of(doc)->Some_0.len() ==> #[trigger] company_of(
                results_of(doc)->Some_0[i],
            ) == Ok::<CompanyView, ExtractError>(extraction(doc)->Ok_0[i]),
{
    lemma_companies_in_order(results_of(doc)->Some_0);
}

/// One note per entry: for a document that yields listings, the notes
/// planned for those listings are exactly as many as the entries of
/// `results`, and the n-th note is made from the listing of the n-th entry,
/// under a fallback name made from n.
pub proof fn lemma_one_note_per_entry(doc: Json, fields: Seq<Seq<char>>, notes: Seq<NoteFile>)
    requires
        extraction(doc) is Ok,
        notes_for(extraction(doc)->Ok_0, fields, notes),
    ensures
        notes.len() == results_of(doc)->Some_0.len(),
        forall|i: int|
            0 <= i < notes.len() ==> company_of(results_of(doc)->Some_0[i]) is Ok && is_note_file(
                #[trigger] notes[i],
                company_of(results_of(doc)->Some_0[i])->Ok_0,
                i as nat,
                fields,
            ),
{
    lemma_extraction_in_order(doc);
    let cs = extraction(doc)->Ok_0;
    assert forall|i: int| 0 <= i < notes.len() implies company_of(results_of(doc)->Some_0[i]) is Ok
        && is_note_file(
        #[trigger] notes[i],
        company_of(results_of(doc)->Some_0[i])->Ok_0,
        i as nat,
        fields,
    ) by {
        assert(company_of(results_of(doc)->Some_0[i]) == Ok::<CompanyView, ExtractError>(cs[i]));
    }
}

/// The generated descriptors are named after their columns.
proof fn lemma_descriptor_named(f: Yaml, name: Seq<char>, id: Seq<char>)
    requires
        is_descriptor(f, name, id),
    ensures
        descriptor_name(f) == Some(name),
{
    lemma_first_key_unique(f->Hash_0@, "name"@, 0);
}

/// The document that a merge produces finds `fields` and `fieldsOrder` in
/// the same entries as the one it came from, and they now hold the appended
/// lists.
proof fn lemma_merged_lists(doc: Yaml, out: Yaml)
    requires
        mergeable(doc),
        merged(doc, out),
    ensures
        schema_fields(out) == Some(
            out->Hash_0@[key_at(doc->Hash_0@, "fields"@)].1->Array_0@,
        ),
        schema_order(out) == Some(
            out->Hash_0@[key_at(doc->Hash_0@, "fieldsOrder"@)].1->Array_0@,
        ),
{
    let before = doc->Hash_0@;
    let after = out->Hash_0@;
    lemma_same_keys(before, after, "fields"@);
    lemma_same_keys(before, after, "fieldsOrder"@);
}

/// A merge leaves a schema that can be merged again: its fields keep their
/// names and the appended descriptors are named after their columns.
proof fn lemma_merged_mergeable(doc: Yaml, out: Yaml)
    requires
        mergeable(doc),
        merged(doc, out),
    ensures
        mergeable(out),
        schema_fields(out)->Some_0.len() == schema_fields(doc)->Some_0.len() + COLUMN_COUNT,
{
    lemma_merged_lists(doc, out);
    let before = schema_fields(doc)->Some_0;
    let after = schema_fields(out)->Some_0;
    let n = before.len();
    assert forall|i: int| 0 <= i < after.len() implies (#[trigger] descriptor_name(after[i])) is Some by {
        if i < n {
            assert(after[i] == after.subrange(0, n as int)[i]);
            assert(descriptor_name(before[i]) is Some);
        } else {
            let t = i - n;
            assert(is_descriptor(after[n + t], column(t), field_id(t)));
            lemma_descriptor_named(after[i], column(t), field_id(t));
        }
    }
}

/// Merging a schema with no fields of its own: there are no user field
/// names, and the merged schema has exactly one field per generated column.
pub proof fn lemma_merge_without_user_fields(doc: Yaml, out: Yaml)
    requires
        mergeable(doc),
        schema_fields(doc)->Some_0.len() == 0,
        merged(doc, out),
    ensures
        user_field_names(doc).len() == 0,
        schema_fields(out) is Some,
        schema_fields(out)->Some_0.len() == COLUMN_COUNT,
{
    lemma_merged_mergeable(doc, out);
}

/// Merging is not idempotent: a merged schema can be merged again, and the
/// second merge appends the generated columns once more, so the schema ends
/// with twice as many fields beyond its own.
pub proof fn lemma_merge_twice(doc: Yaml, once: Yaml, twice: Yaml)
    requires
        mergeable(doc),
        merged(doc, once),
    ensures
        mergeable(once),
        merged(once, twice) ==> schema_fields(twice)->Some_0.len() == schema_fields(doc)->Some_0.len()
            + 2 * COLUMN_COUNT,
{
    lemma_merged_mergeable(doc, once);
    if merged(once, twice) {
        lemma_merged_mergeable(once, twice);
    }
}

/// The column lines of a note start with those of the first columns.
proof fn lemma_column_lines_split(c: CompanyView, t: int, n: int)
    requires
        0 <= t < n,
    ensures
        exists|post: Seq<char>|
            column_lines(c, n) == column_lines(c, t) + line(column(t), column_value(c, t)) + post,
    decreases n - t,
{
    if n == t + 1 {
        assert(column_lines(c, n) == column_lines(c, t) + line(column(t), column_value(c, t))
            + Seq::<char>::empty());
    } else {
        lemma_column_lines_split(c, t, n - 1);
        let post = choose|post: Seq<char>|
            column_lines(c, n - 1) == column_lines(c, t) + line(column(t), column_value(c, t))
                + post;
        let post2 = post + line(column(n - 1), column_value(c, n - 1));
        assert(column_lines(c, n) =~= column_lines(c, t) + line(column(t), column_value(c, t))
            + post2);
    }
}

/// The items of the list column `t` of a listing.
pub open spec fn column_list(c: CompanyView, t: int) -> Seq<Seq<char>> {
    if t == 1 {
        c.majors
    } else if t == 3 {
        c.job_types
    } else if t == 4 {
        c.school_years
    } else {
        c.attending_sessions
    }
}

/// A list column whose list is empty still has its line in the note, with
/// the empty text as its value.
pub proof fn lemma_empty_list_keeps_line(c: CompanyView, fields: Seq<Seq<char>>, t: int)
    requires
        t == 1 || t == 3 || t == 4 || t == 6,
        column_list(c, t).len() == 0,
    ensures
        column_value(c, t) == Seq::<char>::empty(),
        exists|pre: Seq<char>, post: Seq<char>|
            note_text(c, fields) == pre + line(column(t), Seq::empty()) + post,
{
    assert(column_value(c, t) == joined(column_list(c, t)));
    lemma_column_lines_split(c, t, COLUMN_COUNT as int);
    let post = choose|post: Seq<char>|
        column_lines(c, COLUMN_COUNT as int) == column_lines(c, t) + line(
            column(t),
            column_value(c, t),
        ) + post;
    let pre = "---\nfileClass: company\n"@ + placeholder_lines(fields) + column_lines(c, t);
    let rest = post + "---\n\n"@ + note_body(c);
    assert(note_text(c, fields) =~= pre + line(column(t), Seq::empty()) + rest);
}

/// The fallback note of a listing holds the company's name as it is.
pub proof fn lemma_fallback_holds_name(f: NoteFile, c: CompanyView, index: nat, fields: Seq<Seq<char>>)
    requires
        is_note_file(f, c, index, fields),
    ensures
        exists|pre: Seq<char>, post: Seq<char>| f.fallback_text@ == pre + c.name + post,
{
    let pre = note_text(c, fields) + fallback_warning() + "**Company name:** "@;
    assert(f.fallback_text@ =~= pre + c.name + "\n"@);
}

} // verus!
