use vstd::prelude::*;
use vstd::string::StringExecFns;

use crate::json::{member, text, Json};

verus! {

/// One employer's career-fair listing.
#[derive(Debug)]
pub struct Company {
    pub name: String,
    pub description: String,
    pub location: String,
    pub website: String,
    pub logo_url: String,
    pub work_authorization: String,
    pub job_titles: String,
    pub job_types: Vec<String>,
    pub majors: Vec<String>,
    pub school_years: Vec<String>,
    pub attending_sessions: Vec<String>,
}

/// A listing as text values.
pub struct CompanyView {
    pub name: Seq<char>,
    pub description: Seq<char>,
    pub location: Seq<char>,
    pub website: Seq<char>,
    pub logo_url: Seq<char>,
    pub work_authorization: Seq<char>,
    pub job_titles: Seq<char>,
    pub job_types: Seq<Seq<char>>,
    pub majors: Seq<Seq<char>>,
    pub school_years: Seq<Seq<char>>,
    pub attending_sessions: Seq<Seq<char>>,
}

/// The texts of a list of strings.
pub open spec fn texts(v: Seq<String>) -> Seq<Seq<char>> {
    v.map_values(|s: String| s@)
}

impl View for Company {
    type V = CompanyView;

    open spec fn view(&self) -> CompanyView {
        CompanyView {
            name: self.name@,
            description: self.description@,
            location: self.location@,
            website: self.website@,
            logo_url: self.logo_url@,
            work_authorization: self.work_authorization@,
            job_titles: self.job_titles@,
            job_types: texts(self.job_types@),
            majors: texts(self.majors@),
            school_years: texts(self.school_years@),
            attending_sessions: texts(self.attending_sessions@),
        }
    }
}

/// The logical field of a listing that extraction failed on.
#[derive(PartialEq, Eq, Structural, Clone, Copy, Debug)]
pub enum Field {
    Name,
    Description,
    Location,
    Website,
    LogoUrl,
    WorkAuthorization,
    JobTitles,
    JobTypes,
    Majors,
    SchoolYears,
    Sessions,
    /// An element of the job types that has no string `name`.
    JobType,
    /// An element of the majors that has no string `name`.
    Major,
    /// An element of the school years that has no string `name`.
    SchoolYear,
    /// An element of the sessions that has no string `display_name`.
    Session,
}

/// Why a document yields no listings.
#[derive(PartialEq, Eq, Structural, Clone, Copy, Debug)]
pub enum ExtractError {
    /// The document is not an object with an array under `results`.
    InvalidFormat,
    /// An entry lacks a field, or holds it with the wrong type.
    MissingField(Field),
}

/// The short label by which a message names a field.
pub open spec fn field_label(f: Field) -> Seq<char> {
    match f {
        Field::Name => "name"@,
        Field::Description => "description"@,
        Field::Location => "location"@,
        Field::Website => "website"@,
        Field::LogoUrl => "logo_url"@,
        Field::WorkAuthorization => "work_auth"@,
        Field::JobTitles => "job_titles"@,
        Field::JobTypes => "job_types"@,
        Field::Majors => "majors"@,
        Field::SchoolYears => "school_years"@,
        Field::Sessions => "sessions"@,
        Field::JobType => "job_type"@,
        Field::Major => "major"@,
        Field::SchoolYear => "school_year"@,
        Field::Session => "session"@,
    }
}

/// The one-line message of an extraction error.
pub open spec fn error_message(e: ExtractError) -> Seq<char> {
    match e {
        ExtractError::InvalidFormat => "input data is an invalid format"@,
        ExtractError::MissingField(f) => "json missing field: "@ + field_label(f),
    }
}

impl Field {
    /// The short label by which a message names this field.
    pub fn label(&self) -> (r: &'static str)
        ensures
            r@ == field_label(*self),
    {
        match self {
            Field::Name => "name",
            Field::Description => "description",
            Field::Location => "location",
            Field::Website => "website",
            Field::LogoUrl => "logo_url",
            Field::WorkAuthorization => "work_auth",
            Field::JobTitles => "job_titles",
            Field::JobTypes => "job_types",
            Field::Majors => "majors",
            Field::SchoolYears => "school_years",
            Field::Sessions => "sessions",
            Field::JobType => "job_type",
            Field::Major => "major",
            Field::SchoolYear => "school_year",
            Field::Session => "session",
        }
    }
}

impl ExtractError {
    /// The one-line message of this error.
    pub fn message(&self) -> (r: String)
        ensures
            r@ == error_message(*self),
    {
        match self {
            ExtractError::InvalidFormat => String::from_str("input data is an invalid format"),
            ExtractError::MissingField(f) => {
                let mut out = String::from_str("json missing field: ");
                out.append(f.label());
                out
            },
        }
    }
}

/// The array under `key` of an entry.
pub open spec fn array_member(entry: Json, key: Seq<char>) -> Option<Seq<Json>> {
    match member(Some(entry), key) {
        Some(Json::Array(items)) => Some(items@),
        _ => None,
    }
}

/// The string under `key` of each item, when every item has one.
pub open spec fn texts_under(items: Seq<Json>, key: Seq<char>) -> Option<Seq<Seq<char>>> {
    if forall|i: int| 0 <= i < items.len() ==> (#[trigger] text(member(Some(items[i]), key))) is Some {
        Some(Seq::new(items.len(), |i: int| text(member(Some(items[i]), key))->Some_0))
    } else {
        None
    }
}

/// The listing that one entry of `results` yields. Scalars are checked
/// first, then that each list is an array, then the elements of each list.
pub open spec fn company_of(entry: Json) -> Result<CompanyView, ExtractError> {
    let employer = member(Some(entry), "employer"@);
    let name = text(member(employer, "name"@));
    let description = text(member(Some(entry), "company_description"@));
    let location = text(member(Some(entry), "location_name"@));
    let website = text(member(employer, "website"@));
    let logo_url = text(member(employer, "logo_url"@));
    let work_authorization = text(member(Some(entry), "work_authorization_requirements"@));
    let job_titles = text(member(Some(entry), "job_titles"@));
    let job_types = array_member(entry, "job_types"@);
    let majors = array_member(entry, "majors"@);
    let school_years = array_member(entry, "school_years"@);
    let sessions = array_member(entry, "attending_career_fair_sessions"@);
    if name is None {
        Err(ExtractError::MissingField(Field::Name))
    } else if description is None {
        Err(ExtractError::MissingField(Field::Description))
    } else if location is None {
        Err(ExtractError::MissingField(Field::Location))
    } else if website is None {
        Err(ExtractError::MissingField(Field::Website))
    } else if logo_url is None {
        Err(ExtractError::MissingField(Field::LogoUrl))
    } else if work_authorization is None {
        Err(ExtractError::MissingField(Field::WorkAuthorization))
    } else if job_titles is None {
        Err(ExtractError::MissingField(Field::JobTitles))
    } else if job_types is None {
        Err(ExtractError::MissingField(Field::JobTypes))
    } else if majors is None {
        Err(ExtractError::MissingField(Field::Majors))
    } else if school_years is None {
        Err(ExtractError::MissingField(Field::SchoolYears))
    } else if sessions is None {
        Err(ExtractError::MissingField(Field::Sessions))
    } else if texts_under(job_types->Some_0, "name"@) is None {
        Err(ExtractError::MissingField(Field::JobType))
    } else if texts_under(majors->Some_0, "name"@) is None {
        Err(ExtractError::MissingField(Field::Major))
    } else if texts_under(school_years->Some_0, "name"@) is None {
        Err(ExtractError::MissingField(Field::SchoolYear))
    } else if texts_under(sessions->Some_0, "display_name"@) is None {
        Err(ExtractError::MissingField(Field::Session))
    } else {
        Ok(
            CompanyView {
                name: name->Some_0,
                description: description->Some_0,
                location: location->Some_0,
                website: website->Some_0,
                logo_url: logo_url->Some_0,
                work_authorization: work_authorization->Some_0,
                job_titles: job_titles->Some_0,
                job_types: texts_under(job_types->Some_0, "name"@)->Some_0,
                majors: texts_under(majors->Some_0, "name"@)->Some_0,
                school_years: texts_under(school_years->Some_0, "name"@)->Some_0,
                attending_sessions: texts_under(sessions->Some_0, "display_name"@)->Some_0,
            },
        )
    }
}

/// The listings of a sequence of entries, in order, or the error of the
/// first entry that fails.
pub open spec fn companies_of(entries: Seq<Json>) -> Result<Seq<CompanyView>, ExtractError>
    decreases entries.len(),
{
    if entries.len() == 0 {
        Ok(Seq::empty())
    } else {
        match companies_of(entries.drop_last()) {
            Err(e) => Err(e),
            Ok(cs) => match company_of(entries.last()) {
                Err(e) => Err(e),
                Ok(c) => Ok(cs.push(c)),
            },
        }
    }
}

/// The entries under `results`, when the document is an object holding an
/// array there.
pub open spec fn results_of(doc: Json) -> Option<Seq<Json>> {
    array_member(doc, "results"@)
}

/// What extraction yields for a whole document.
pub open spec fn extraction(doc: Json) -> Result<Seq<CompanyView>, ExtractError> {
    match results_of(doc) {
        None => Err(ExtractError::InvalidFormat),
        Some(entries) => companies_of(entries),
    }
}

/// The string under `key` of `v`, or the error naming `field`.
fn required_text(v: &Json, key: &str, field: Field) -> (r: Result<String, ExtractError>)
    ensures
        r matches Ok(s) ==> text(member(Some(*v), key@)) == Some(s@),
        r matches Err(e) ==> text(member(Some(*v), key@)) is None && e == ExtractError::MissingField(
            field,
        ),
{
    match v.get(key) {
        Some(x) => match x.as_text() {
            Some(s) => Ok(s.clone()),
            None => Err(ExtractError::MissingField(field)),
        },
        None => Err(ExtractError::MissingField(field)),
    }
}

/// The array under `key` of `v`, or the error naming `field`.
fn required_array<'a>(v: &'a Json, key: &str, field: Field) -> (r: Result<&'a Vec<Json>, ExtractError>)
    ensures
        r matches Ok(a) ==> array_member(*v, key@) == Some(a@),
        r matches Err(e) ==> array_member(*v, key@) is None && e == ExtractError::MissingField(
            field,
        ),
{
    match v.get(key) {
        Some(Json::Array(a)) => Ok(a),
        _ => Err(ExtractError::MissingField(field)),
    }
}

/// The string under `key` of every item, or the error naming `field` when
/// some item has none.
fn texts_of_items(items: &Vec<Json>, key: &str, field: Field) -> (r: Result<Vec<String>, ExtractError>)
    ensures
        r matches Ok(v) ==> texts_under(items@, key@) == Some(texts(v@)),
        r matches Err(e) ==> texts_under(items@, key@) is None && e == ExtractError::MissingField(
            field,
        ),
{
    let mut out: Vec<String> = Vec::new();
    let mut i: usize = 0;
    while i < items.len()
        invariant
            0 <= i <= items@.len(),
            out@.len() == i,
            forall|j: int|
                0 <= j < i ==> text(member(Some(items@[j]), key@)) == Some(#[trigger] out@[j]@),
        decreases items@.len() - i,
    {
        match required_text(&items[i], key, field) {
            Ok(s) => out.push(s),
            Err(e) => {
                assert(text(member(Some(items@[i as int]), key@)) is None);
                return Err(e);
            },
        }
        i = i + 1;
    }
    assert forall|j: int| 0 <= j < items@.len() implies (#[trigger] text(
        member(Some(items@[j]), key@),
    )) is Some by {
        assert(text(member(Some(items@[j]), key@)) == Some(out@[j]@));
    }
    assert(texts_under(items@, key@)->Some_0 =~= texts(out@));
    Ok(out)
}

/// The listing that one entry of `results` yields, or the first field it
/// fails on.
pub fn company_from_entry(entry: &Json) -> (r: Result<Company, ExtractError>)
    ensures
        r matches Ok(c) ==> company_of(*entry) == Ok::<CompanyView, ExtractError>(c@),
        r matches Err(e) ==> company_of(*entry) == Err::<CompanyView, ExtractError>(e),
{
    let employer = entry.get("employer");
    let name = match employer {
        Some(emp) => required_text(emp, "name", Field::Name)?,
        None => return Err(ExtractError::MissingField(Field::Name)),
    };
    let description = required_text(entry, "company_description", Field::Description)?;
    let location = required_text(entry, "location_name", Field::Location)?;
    let website = match employer {
        Some(emp) => required_text(emp, "website", Field::Website)?,
        None => return Err(ExtractError::MissingField(Field::Website)),
    };
    let logo_url = match employer {
        Some(emp) => required_text(emp, "logo_url", Field::LogoUrl)?,
        None => return Err(ExtractError::MissingField(Field::LogoUrl)),
    };
    let work_authorization = required_text(
        entry,
        "work_authorization_requirements",
        Field::WorkAuthorization,
    )?;
    let job_titles = required_text(entry, "job_titles", Field::JobTitles)?;
    let job_types = required_array(entry, "job_types", Field::JobTypes)?;
    let majors = required_array(entry, "majors", Field::Majors)?;
    let school_years = required_array(entry, "school_years", Field::SchoolYears)?;
    let sessions = required_array(entry, "attending_career_fair_sessions", Field::Sessions)?;
    let job_types = texts_of_items(job_types, "name", Field::JobType)?;
    let majors = texts_of_items(majors, "name", Field::Major)?;
    let school_years = texts_of_items(school_years, "name", Field::SchoolYear)?;
    let attending_sessions = texts_of_items(sessions, "display_name", Field::Session)?;
    Ok(
        Company {
            name,
            description,
            location,
            website,
            logo_url,
            work_authorization,
            job_titles,
            job_types,
            majors,
            school_years,
            attending_sessions,
        },
    )
}

/// The listings of a document, one per entry of its `results` array and in
/// the same order. A document that is not an object with such an array, or
/// an entry that lacks a field, yields an error and no listing at all.
pub fn extract(doc: &Json) -> (r: Result<Vec<Company>, ExtractError>)
    ensures
        r matches Ok(cs) ==> extraction(*doc) == Ok::<Seq<CompanyView>, ExtractError>(
            cs@.map_values(|c: Company| c@),
        ),
        r matches Err(e) ==> extraction(*doc) == Err::<Seq<CompanyView>, ExtractError>(e),
{
    let entries = match doc.get("results") {
        Some(Json::Array(entries)) => entries,
        _ => return Err(ExtractError::InvalidFormat),
    };
    let mut out: Vec<Company> = Vec::new();
    let mut i: usize = 0;
    assert(entries@.subrange(0, 0) =~= Seq::<Json>::empty());
    assert(out@.map_values(|c: Company| c@) =~= Seq::<CompanyView>::empty());
    while i < entries.len()
        invariant
            0 <= i <= entries@.len(),
            results_of(*doc) == Some(entries@),
            companies_of(entries@.subrange(0, i as int)) == Ok::<Seq<CompanyView>, ExtractError>(
                out@.map_values(|c: Company| c@),
            ),
        decreases entries@.len() - i,
    {
        let ghost prefix = entries@.subrange(0, i as int);
        let ghost next = entries@.subrange(0, i + 1);
        assert(next.drop_last() =~= prefix);
        assert(next.last() == entries@[i as int]);
        match company_from_entry(&entries[i]) {
            Ok(c) => {
                let ghost before = out@;
                out.push(c);
                assert(out@.map_values(|c: Company| c@) =~= before.map_values(|c: Company| c@).push(
                    c@,
                ));
            },
            Err(e) => {
                proof {
                    lemma_first_error_stays(entries@, i as int + 1);
                }
                return Err(e);
            },
        }
        i = i + 1;
    }
    assert(entries@.subrange(0, entries@.len() as int) =~= entries@);
    Ok(out)
}

/// Once a prefix of the entries fails, every longer prefix fails the same
/// way.
proof fn lemma_first_error_stays(entries: Seq<Json>, k: int)
    requires
        0 <= k <= entries.len(),
        companies_of(entries.subrange(0, k)) is Err,
    ensures
        companies_of(entries) == companies_of(entries.subrange(0, k)),
    decreases entries.len() - k,
{
    if k < entries.len() {
        let next = entries.subrange(0, k + 1);
        assert(next.drop_last() =~= entries.subrange(0, k));
        lemma_first_error_stays(entries, k + 1);
    } else {
        assert(entries.subrange(0, k) =~= entries);
    }
}

} // verus!
