use fair_vault::company::{extract, ExtractError, Field};
use fair_vault::json::Json;

fn s(t: &str) -> Json {
    Json::Str(t.to_string())
}

fn obj(members: Vec<(&str, Json)>) -> Json {
    Json::Object(members.into_iter().map(|(k, v)| (k.to_string(), v)).collect())
}

fn named(key: &str, names: &[&str]) -> Json {
    Json::Array(names.iter().map(|n| obj(vec![(key, s(n))])).collect())
}

fn entry(name: &str, majors: &[&str]) -> Vec<(&'static str, Json)> {
    vec![
        (
            "employer",
            obj(vec![("name", s(name)), ("website", s("acme.com")), ("logo_url", s("x.png"))]),
        ),
        ("company_description", s("d")),
        ("location_name", s("NYC")),
        ("work_authorization_requirements", s("none")),
        ("job_titles", s("SWE")),
        ("job_types", named("name", &["Intern"])),
        ("majors", named("name", majors)),
        ("school_years", named("name", &["Junior"])),
        ("attending_career_fair_sessions", named("display_name", &["Morning"])),
    ]
}

fn doc(entries: Vec<Json>) -> Json {
    obj(vec![("results", Json::Array(entries))])
}

fn without(mut members: Vec<(&'static str, Json)>, key: &str) -> Json {
    members.retain(|(k, _)| *k != key);
    obj(members)
}

fn replaced(mut members: Vec<(&'static str, Json)>, key: &str, v: Json) -> Json {
    for m in members.iter_mut() {
        if m.0 == key {
            m.1 = v;
            return obj(members);
        }
    }
    panic!("no member {key}")
}

fn error_of(d: &Json) -> ExtractError {
    match extract(d) {
        Err(e) => e,
        Ok(_) => panic!("extraction should fail"),
    }
}

#[test]
fn extracts_every_field() {
    let d = doc(vec![obj(entry("Acme", &["CS", "EE"]))]);
    let cs = extract(&d).unwrap();
    assert_eq!(cs.len(), 1);
    let c = &cs[0];
    assert_eq!(c.name, "Acme");
    assert_eq!(c.description, "d");
    assert_eq!(c.location, "NYC");
    assert_eq!(c.website, "acme.com");
    assert_eq!(c.logo_url, "x.png");
    assert_eq!(c.work_authorization, "none");
    assert_eq!(c.job_titles, "SWE");
    assert_eq!(c.job_types, vec!["Intern"]);
    assert_eq!(c.majors, vec!["CS", "EE"]);
    assert_eq!(c.school_years, vec!["Junior"]);
    assert_eq!(c.attending_sessions, vec!["Morning"]);
}

#[test]
fn keeps_entry_order_and_count() {
    let d = doc(vec![obj(entry("A", &[])), obj(entry("B", &["X"])), obj(entry("C", &[]))]);
    let cs = extract(&d).unwrap();
    let names: Vec<&str> = cs.iter().map(|c| c.name.as_str()).collect();
    assert_eq!(names, vec!["A", "B", "C"]);
}

#[test]
fn empty_results_give_no_company() {
    assert_eq!(extract(&doc(vec![])).unwrap().len(), 0);
}

#[test]
fn document_without_results_array_is_invalid() {
    assert_eq!(error_of(&obj(vec![])), ExtractError::InvalidFormat);
    assert_eq!(error_of(&obj(vec![("results", s("x"))])), ExtractError::InvalidFormat);
    assert_eq!(error_of(&Json::Array(vec![])), ExtractError::InvalidFormat);
}

#[test]
fn missing_scalar_fields_are_named() {
    let cases = [
        ("company_description", Field::Description),
        ("location_name", Field::Location),
        ("work_authorization_requirements", Field::WorkAuthorization),
        ("job_titles", Field::JobTitles),
        ("job_types", Field::JobTypes),
        ("majors", Field::Majors),
        ("school_years", Field::SchoolYears),
        ("attending_career_fair_sessions", Field::Sessions),
    ];
    for (key, field) in cases {
        let d = doc(vec![without(entry("Acme", &["CS"]), key)]);
        assert_eq!(error_of(&d), ExtractError::MissingField(field));
    }
}

#[test]
fn missing_employer_fields_are_named() {
    let d = doc(vec![without(entry("Acme", &["CS"]), "employer")]);
    assert_eq!(error_of(&d), ExtractError::MissingField(Field::Name));
    let emp = obj(vec![("name", s("Acme")), ("logo_url", s("x.png"))]);
    let d = doc(vec![replaced(entry("Acme", &[]), "employer", emp)]);
    assert_eq!(error_of(&d), ExtractError::MissingField(Field::Website));
    let emp = obj(vec![("name", s("Acme")), ("website", s("w"))]);
    let d = doc(vec![replaced(entry("Acme", &[]), "employer", emp)]);
    assert_eq!(error_of(&d), ExtractError::MissingField(Field::LogoUrl));
}

#[test]
fn scalar_of_wrong_type_is_missing() {
    let d = doc(vec![replaced(entry("Acme", &[]), "location_name", Json::Null)]);
    assert_eq!(error_of(&d), ExtractError::MissingField(Field::Location));
    let d = doc(vec![replaced(entry("Acme", &[]), "job_titles", Json::Number("3".to_string()))]);
    assert_eq!(error_of(&d), ExtractError::MissingField(Field::JobTitles));
}

#[test]
fn list_element_without_name_is_named() {
    let bad = Json::Array(vec![obj(vec![("title", s("CS"))])]);
    let d = doc(vec![replaced(entry("Acme", &[]), "majors", bad)]);
    assert_eq!(error_of(&d), ExtractError::MissingField(Field::Major));
    let bad = Json::Array(vec![obj(vec![("name", s("Morning"))])]);
    let d = doc(vec![replaced(entry("Acme", &[]), "attending_career_fair_sessions", bad)]);
    assert_eq!(error_of(&d), ExtractError::MissingField(Field::Session));
    let bad = Json::Array(vec![s("Intern")]);
    let d = doc(vec![replaced(entry("Acme", &[]), "job_types", bad)]);
    assert_eq!(error_of(&d), ExtractError::MissingField(Field::JobType));
    let bad = Json::Array(vec![obj(vec![("name", Json::Bool(true))])]);
    let d = doc(vec![replaced(entry("Acme", &[]), "school_years", bad)]);
    assert_eq!(error_of(&d), ExtractError::MissingField(Field::SchoolYear));
}

#[test]
fn list_shape_is_checked_before_its_elements() {
    let bad = Json::Array(vec![s("Intern")]);
    let members = replaced(entry("Acme", &[]), "job_types", bad);
    let members = match members {
        Json::Object(m) => m,
        _ => unreachable!(),
    };
    let members: Vec<(String, Json)> =
        members.into_iter().filter(|(k, _)| k != "majors").collect();
    let d = doc(vec![Json::Object(members)]);
    assert_eq!(error_of(&d), ExtractError::MissingField(Field::Majors));
}

#[test]
fn one_bad_entry_fails_the_whole_batch() {
    let d = doc(vec![obj(entry("A", &[])), without(entry("B", &[]), "location_name")]);
    assert_eq!(error_of(&d), ExtractError::MissingField(Field::Location));
}

#[test]
fn error_messages_name_the_field() {
    assert_eq!(ExtractError::InvalidFormat.message(), "input data is an invalid format");
    assert_eq!(
        ExtractError::MissingField(Field::WorkAuthorization).message(),
        "json missing field: work_auth"
    );
    assert_eq!(ExtractError::MissingField(Field::Session).message(), "json missing field: session");
}
