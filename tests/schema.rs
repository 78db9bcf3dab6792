use fair_vault::front_matter::clean_yaml_md_file;
use fair_vault::schema::{column_id, column_name, descriptor, merge_schema, COLUMN_COUNT};
use fair_vault::vault::schema_file_text;
use fair_vault::yaml::Yaml;

fn text(t: &str) -> Yaml {
    Yaml::Str(t.to_string())
}

fn hash(entries: Vec<(&str, Yaml)>) -> Yaml {
    Yaml::Hash(entries.into_iter().map(|(k, v)| (text(k), v)).collect())
}

fn field(name: &str, id: &str) -> Yaml {
    hash(vec![
        ("name", text(name)),
        ("type", text("Select")),
        ("options", hash(vec![])),
        ("path", text("")),
        ("id", text(id)),
    ])
}

fn schema(fields: Vec<Yaml>, order: Vec<Yaml>) -> Yaml {
    hash(vec![
        ("limit", Yaml::Integer(20)),
        ("fields", Yaml::Array(fields)),
        ("fieldsOrder", Yaml::Array(order)),
        ("version", text("2.1")),
    ])
}

fn entries(y: &Yaml) -> &Vec<(Yaml, Yaml)> {
    match y {
        Yaml::Hash(e) => e,
        _ => panic!("not a mapping"),
    }
}

fn list<'a>(y: &'a Yaml, key: &str) -> &'a Vec<Yaml> {
    for (k, v) in entries(y) {
        if let (Yaml::Str(k), Yaml::Array(a)) = (k, v) {
            if k == key {
                return a;
            }
        }
    }
    panic!("no list {key}")
}

fn str_of(y: &Yaml) -> &str {
    match y {
        Yaml::Str(s) => s,
        _ => panic!("not a string"),
    }
}

fn name_of(f: &Yaml) -> &str {
    str_of(&entries(f)[0].1)
}

#[test]
fn empty_schema_gets_eight_fields() {
    let (names, out) = merge_schema(schema(vec![], vec![])).unwrap();
    assert!(names.is_empty());
    let fields = list(&out, "fields");
    assert_eq!(fields.len(), 8);
    let got: Vec<&str> = fields.iter().map(name_of).collect();
    assert_eq!(
        got,
        vec![
            "location", "majors", "job_titles", "job_types", "school_years", "international",
            "sessions", "website"
        ]
    );
    let order: Vec<&str> = list(&out, "fieldsOrder").iter().map(str_of).collect();
    assert_eq!(
        order,
        vec!["abcdef", "bbcdef", "cbcdef", "dbcdef", "ebcdef", "fbcdef", "gbcdef", "hbcdef"]
    );
}

#[test]
fn generated_descriptor_has_input_shape() {
    let (_, out) = merge_schema(schema(vec![], vec![])).unwrap();
    let d = entries(&list(&out, "fields")[2]);
    assert_eq!(d.len(), 5);
    assert_eq!(str_of(&d[0].0), "name");
    assert_eq!(str_of(&d[0].1), "job_titles");
    assert_eq!(str_of(&d[1].0), "type");
    assert_eq!(str_of(&d[1].1), "Input");
    assert_eq!(str_of(&d[2].0), "options");
    assert!(matches!(&d[2].1, Yaml::Hash(h) if h.is_empty()));
    assert_eq!(str_of(&d[3].0), "path");
    assert_eq!(str_of(&d[3].1), "");
    assert_eq!(str_of(&d[4].0), "id");
    assert_eq!(str_of(&d[4].1), "cbcdef");
}

#[test]
fn user_fields_are_kept_and_named() {
    let doc = schema(
        vec![field("rating", "zzzzzz"), field("status", "yyyyyy")],
        vec![text("zzzzzz"), text("yyyyyy")],
    );
    let (names, out) = merge_schema(doc).unwrap();
    assert_eq!(names, vec!["rating", "status"]);
    let fields = list(&out, "fields");
    assert_eq!(fields.len(), 10);
    assert_eq!(name_of(&fields[0]), "rating");
    assert_eq!(name_of(&fields[1]), "status");
    assert_eq!(name_of(&fields[2]), "location");
    let order = list(&out, "fieldsOrder");
    assert_eq!(order.len(), 10);
    assert_eq!(str_of(&order[0]), "zzzzzz");
    assert_eq!(str_of(&order[9]), "hbcdef");
    let e = entries(&out);
    assert_eq!(e.len(), 4);
    assert!(matches!(&e[0].1, Yaml::Integer(20)));
    assert_eq!(str_of(&e[3].1), "2.1");
}

#[test]
fn merging_twice_appends_sixteen_fields() {
    let (_, once) = merge_schema(schema(vec![], vec![])).unwrap();
    let (names, twice) = merge_schema(once).unwrap();
    assert_eq!(names.len(), 8);
    assert_eq!(list(&twice, "fields").len(), 16);
    assert_eq!(list(&twice, "fieldsOrder").len(), 16);
}

#[test]
fn malformed_schemas_are_refused() {
    assert!(merge_schema(Yaml::Array(vec![])).is_none());
    assert!(merge_schema(hash(vec![("fieldsOrder", Yaml::Array(vec![]))])).is_none());
    assert!(merge_schema(hash(vec![("fields", Yaml::Array(vec![]))])).is_none());
    assert!(merge_schema(hash(vec![
        ("fields", text("x")),
        ("fieldsOrder", Yaml::Array(vec![]))
    ]))
    .is_none());
    assert!(merge_schema(hash(vec![
        ("fields", Yaml::Array(vec![])),
        ("fieldsOrder", Yaml::Null)
    ]))
    .is_none());
    let nameless = hash(vec![("type", text("Input"))]);
    assert!(merge_schema(schema(vec![nameless], vec![])).is_none());
    let numbered = hash(vec![("name", Yaml::Integer(3))]);
    assert!(merge_schema(schema(vec![numbered], vec![])).is_none());
}

#[test]
fn column_table_matches_ids() {
    assert_eq!(COLUMN_COUNT, 8);
    assert_eq!(column_name(0), "location");
    assert_eq!(column_name(5), "international");
    assert_eq!(column_id(0), "abcdef");
    assert_eq!(column_id(7), "hbcdef");
    assert!(matches!(descriptor("a", "b"), Yaml::Hash(h) if h.len() == 5));
}

#[test]
fn front_matter_delimiters_are_stripped() {
    assert_eq!(clean_yaml_md_file(b"---\nfields: []\n---"), b"fields: []\n");
    assert_eq!(clean_yaml_md_file(b"---\r\nfields: []\r\n---\n"), b"fields: []\r\n---\n");
    assert_eq!(clean_yaml_md_file(b"---\n\nk: v\n---"), b"k: v\n");
    assert_eq!(clean_yaml_md_file(b"---\nk: v"), b"k: v");
}

#[test]
fn front_matter_edge_cases() {
    assert_eq!(clean_yaml_md_file(b""), b"");
    assert_eq!(clean_yaml_md_file(b"---\n"), b"");
    assert_eq!(clean_yaml_md_file(b"abc"), b"");
    assert_eq!(clean_yaml_md_file(b"x\n---"), b"-");
    assert_eq!(clean_yaml_md_file(b"---\nk: a-b--"), b"k: a-b");
}

#[test]
fn schema_text_gets_closing_delimiter() {
    assert_eq!(schema_file_text("---\nfields: []"), "---\nfields: []\n---");
}
