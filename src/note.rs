use vstd::prelude::*;
use vstd::string::StringExecFns;

use crate::company::{texts, Company, CompanyView};
use crate::schema::{column, column_name, COLUMN_COUNT};

verus! {

/// One front-matter line: `key: value`.
pub open spec fn line(key: Seq<char>, value: Seq<char>) -> Seq<char> {
    key + ": "@ + value + "\n"@
}

/// The items separated by `, `; no item gives the empty text.
pub open spec fn joined(items: Seq<Seq<char>>) -> Seq<char>
    decreases items.len(),
{
    if items.len() == 0 {
        Seq::empty()
    } else if items.len() == 1 {
        items[0]
    } else {
        joined(items.drop_last()) + ", "@ + items.last()
    }
}

/// A blank line for each user field, in order.
pub open spec fn placeholder_lines(fields: Seq<Seq<char>>) -> Seq<char>
    decreases fields.len(),
{
    if fields.len() == 0 {
        Seq::empty()
    } else {
        placeholder_lines(fields.drop_last()) + line(fields.last(), Seq::empty())
    }
}

/// The value that a listing gives generated column `t`.
pub open spec fn column_value(c: CompanyView, t: int) -> Seq<char> {
    if t == 0 {
        c.location
    } else if t == 1 {
        joined(c.majors)
    } else if t == 2 {
        c.job_titles
    } else if t == 3 {
        joined(c.job_types)
    } else if t == 4 {
        joined(c.school_years)
    } else if t == 5 {
        c.work_authorization
    } else if t == 6 {
        joined(c.attending_sessions)
    } else {
        c.website
    }
}

/// The lines of the first `n` generated columns.
pub open spec fn column_lines(c: CompanyView, n: int) -> Seq<char>
    decreases n,
{
    if n <= 0 {
        Seq::empty()
    } else {
        column_lines(c, n - 1) + line(column(n - 1), column_value(c, n - 1))
    }
}

/// The front matter of a listing's note, delimiters included.
pub open spec fn front_matter(c: CompanyView, fields: Seq<Seq<char>>) -> Seq<char> {
    "---\nfileClass: company\n"@ + placeholder_lines(fields) + column_lines(c, COLUMN_COUNT as int)
        + "---\n\n"@
}

/// The body of a listing's note: its logo and its description.
pub open spec fn note_body(c: CompanyView) -> Seq<char> {
    "<img src=\""@ + c.logo_url + "\" style=\"width: 80px;\">\n\n"@ + "### Description\n\n"@
        + c.description + "\n"@
}

/// The whole text of a listing's note.
pub open spec fn note_text(c: CompanyView, fields: Seq<Seq<char>>) -> Seq<char> {
    front_matter(c, fields) + note_body(c)
}

/// Appends `key: value` and a line break.
fn push_line(out: &mut String, key: &str, value: &str)
    ensures
        final(out)@ == old(out)@ + line(key@, value@),
{
    out.append(key);
    out.append(": ");
    out.append(value);
    out.append("\n");
    assert(final(out)@ =~= old(out)@ + line(key@, value@));
}

/// The items separated by `, `.
pub fn join(items: &Vec<String>) -> (r: String)
    ensures
        r@ == joined(texts(items@)),
{
    let mut out = String::new();
    let mut i: usize = 0;
    while i < items.len()
        invariant
            0 <= i <= items@.len(),
            out@ == joined(texts(items@.subrange(0, i as int))),
        decreases items@.len() - i,
    {
        let ghost prefix = texts(items@.subrange(0, i as int));
        let ghost next = texts(items@.subrange(0, i + 1));
        assert(next.drop_last() =~= prefix);
        assert(next.last() == items@[i as int]@);
        if i > 0 {
            out.append(", ");
        }
        out.append(items[i].as_str());
        i = i + 1;
    }
    assert(items@.subrange(0, items@.len() as int) =~= items@);
    out
}

/// The text of generated column `t` for a listing.
fn column_text(c: &Company, t: usize) -> (r: String)
    requires
        t < COLUMN_COUNT,
    ensures
        r@ == column_value(c@, t as int),
{
    if t == 0 {
        c.location.clone()
    } else if t == 1 {
        join(&c.majors)
    } else if t == 2 {
        c.job_titles.clone()
    } else if t == 3 {
        join(&c.job_types)
    } else if t == 4 {
        join(&c.school_years)
    } else if t == 5 {
        c.work_authorization.clone()
    } else if t == 6 {
        join(&c.attending_sessions)
    } else {
        c.website.clone()
    }
}

/// The note of one listing: front matter with a blank line for each user
/// field, then a line for each generated column, then the logo and the
/// description. Values are written as they are, without quoting.
pub fn render_note(company: &Company, user_fields: &Vec<String>) -> (r: String)
    ensures
        r@ == note_text(company@, texts(user_fields@)),
{
    let mut out = String::from_str("---\nfileClass: company\n");
    let ghost head = out@;
    let mut i: usize = 0;
    while i < user_fields.len()
        invariant
            0 <= i <= user_fields@.len(),
            head == "---\nfileClass: company\n"@,
            out@ == head + placeholder_lines(texts(user_fields@.subrange(0, i as int))),
        decreases user_fields@.len() - i,
    {
        let ghost prefix = texts(user_fields@.subrange(0, i as int));
        let ghost next = texts(user_fields@.subrange(0, i + 1));
        assert(next.drop_last() =~= prefix);
        assert(next.last() == user_fields@[i as int]@);
        push_line(&mut out, user_fields[i].as_str(), "");
        proof {
            reveal_strlit("");
        }
        assert(out@ =~= head + placeholder_lines(next));
        i = i + 1;
    }
    assert(user_fields@.subrange(0, user_fields@.len() as int) =~= user_fields@);
    let ghost lead = out@;
    let mut t: usize = 0;
    while t < COLUMN_COUNT
        invariant
            0 <= t <= COLUMN_COUNT,
            out@ == lead + column_lines(company@, t as int),
        decreases COLUMN_COUNT - t,
    {
        let value = column_text(company, t);
        push_line(&mut out, column_name(t), value.as_str());
        assert(out@ =~= lead + column_lines(company@, t + 1));
        t = t + 1;
    }
    out.append("---\n\n");
    out.append("<img src=\"");
    out.append(company.logo_url.as_str());
    out.append("\" style=\"width: 80px;\">\n\n");
    out.append("### Description\n\n");
    out.append(company.description.as_str());
    out.append("\n");
    assert(out@ =~= note_text(company@, texts(user_fields@)));
    out
}

} // verus!
