use vstd::prelude::*;
use vstd::string::StringExecFns;

use crate::company::{texts, Company, CompanyView};
use crate::note::{note_text, render_note};

verus! {

/// The text of the decimal digit `d`.
pub open spec fn digit(d: nat) -> Seq<char> {
    if d == 0 {
        "0"@
    } else if d == 1 {
        "1"@
    } else if d == 2 {
        "2"@
    } else if d == 3 {
        "3"@
    } else if d == 4 {
        "4"@
    } else if d == 5 {
        "5"@
    } else if d == 6 {
        "6"@
    } else if d == 7 {
        "7"@
    } else if d == 8 {
        "8"@
    } else {
        "9"@
    }
}

/// `n` written in decimal, without leading zeros.
pub open spec fn decimal(n: nat) -> Seq<char>
    decreases n,
{
    if n < 10 {
        digit(n)
    } else {
        decimal(n / 10) + digit(n % 10)
    }
}

/// The line that a fallback note adds before the company's name.
pub open spec fn fallback_warning() -> Seq<char> {
    "==This file failed to write, likely because of an issue with the name. If everything else looks fine then you can set the name yourself==\n\n"@
}

/// A note that could not be written under the company's name: the note,
/// a warning, and the name itself.
pub open spec fn fallback_text(note: Seq<char>, name: Seq<char>) -> Seq<char> {
    note + fallback_warning() + "**Company name:** "@ + name + "\n"@
}

/// The file name of a listing's note.
pub open spec fn note_file_name(name: Seq<char>) -> Seq<char> {
    name + ".md"@
}

/// The file name of the fallback note of the listing at `index`.
pub open spec fn fallback_file_name(index: nat) -> Seq<char> {
    "error"@ + decimal(index) + ".md"@
}

/// What to write for one listing: its note under the company's name, or,
/// when that write fails, the fallback note under a name made from the
/// listing's position.
#[derive(Debug)]
pub struct NoteFile {
    pub file_name: String,
    pub text: String,
    pub fallback_name: String,
    pub fallback_text: String,
}

/// `f` is what to write for listing `c` at `index`, with the user fields
/// `fields`.
pub open spec fn is_note_file(f: NoteFile, c: CompanyView, index: nat, fields: Seq<Seq<char>>) -> bool {
    &&& f.file_name@ == note_file_name(c.name)
    &&& f.text@ == note_text(c, fields)
    &&& f.fallback_name@ == fallback_file_name(index)
    &&& f.fallback_text@ == fallback_text(note_text(c, fields), c.name)
}

/// `notes` holds what to write for each listing of `cs`, in the same order.
pub open spec fn notes_for(cs: Seq<CompanyView>, fields: Seq<Seq<char>>, notes: Seq<NoteFile>) -> bool {
    &&& notes.len() == cs.len()
    &&& forall|i: int| 0 <= i < cs.len() ==> is_note_file(#[trigger] notes[i], cs[i], i as nat, fields)
}

/// The text of the decimal digit `d`.
fn digit_text(d: usize) -> (r: &'static str)
    requires
        d < 10,
    ensures
        r@ == digit(d as nat),
{
    if d == 0 {
        "0"
    } else if d == 1 {
        "1"
    } else if d == 2 {
        "2"
    } else if d == 3 {
        "3"
    } else if d == 4 {
        "4"
    } else if d == 5 {
        "5"
    } else if d == 6 {
        "6"
    } else if d == 7 {
        "7"
    } else if d == 8 {
        "8"
    } else {
        "9"
    }
}

/// `n` written in decimal.
pub fn decimal_text(n: usize) -> (r: String)
    ensures
        r@ == decimal(n as nat),
    decreases n,
{
    if n < 10 {
        String::from_str(digit_text(n))
    } else {
        let mut s = decimal_text(n / 10);
        s.append(digit_text(n % 10));
        s
    }
}

/// The fallback note: the note, a warning, and the company's name.
pub fn fallback_note(note: &str, name: &str) -> (r: String)
    ensures
        r@ == fallback_text(note@, name@),
{
    let mut out = String::from_str(note);
    out.append(
        "==This file failed to write, likely because of an issue with the name. If everything else looks fine then you can set the name yourself==\n\n",
    );
    out.append("**Company name:** ");
    out.append(name);
    out.append("\n");
    assert(out@ =~= fallback_text(note@, name@));
    out
}

/// What to write for the listing at `index`.
pub fn note_file(company: &Company, index: usize, user_fields: &Vec<String>) -> (r: NoteFile)
    ensures
        is_note_file(r, company@, index as nat, texts(user_fields@)),
{
    let text = render_note(company, user_fields);
    let mut file_name = company.name.clone();
    file_name.append(".md");
    let mut fallback_name = String::from_str("error");
    let digits = decimal_text(index);
    fallback_name.append(digits.as_str());
    fallback_name.append(".md");
    let fallback_text = fallback_note(text.as_str(), company.name.as_str());
    NoteFile { file_name, text, fallback_name, fallback_text }
}

/// What to write for each listing, one entry per listing and in the same
/// order.
pub fn note_files(companies: &Vec<Company>, user_fields: &Vec<String>) -> (r: Vec<NoteFile>)
    ensures
        notes_for(companies@.map_values(|c: Company| c@), texts(user_fields@), r@),
{
    let ghost cs = companies@.map_values(|c: Company| c@);
    let mut out: Vec<NoteFile> = Vec::new();
    let mut i: usize = 0;
    while i < companies.len()
        invariant
            0 <= i <= companies@.len(),
            cs == companies@.map_values(|c: Company| c@),
            out@.len() == i,
            forall|j: int|
                0 <= j < i ==> is_note_file(#[trigger] out@[j], cs[j], j as nat, texts(user_fields@)),
        decreases companies@.len() - i,
    {
        let f = note_file(&companies[i], i, user_fields);
        out.push(f);
        i = i + 1;
    }
    out
}

/// The schema file's text: the emitted YAML document with the closing
/// front-matter delimiter appended.
pub fn schema_file_text(emitted: &str) -> (r: String)
    ensures
        r@ == emitted@ + "\n---"@,
{
    let mut out = String::from_str(emitted);
    out.append("\n---");
    out
}

} // verus!
