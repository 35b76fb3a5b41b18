use wheel_upload::request::{
    authorization_header, content_type_header, upload_fields, user_agent_header, FormField, Metadata,
};

fn bare() -> Metadata {
    Metadata {
        metadata_version: "2.1".to_string(),
        name: "My_Package--Name".to_string(),
        version: "1.0.0".to_string(),
        summary: None,
        description: None,
        description_content_type: None,
        author: None,
        author_email: None,
        maintainer: None,
        maintainer_email: None,
        license: None,
        keywords: None,
        home_page: None,
        download_url: None,
        requires_python: None,
        classifiers: vec![],
        platforms: vec![],
        requires_dist: vec![],
        provides_dist: vec![],
        obsoletes_dist: vec![],
        requires_external: vec![],
        project_urls: vec![],
    }
}

fn field(name: &str, value: &str) -> FormField {
    FormField { name: name.to_string(), value: value.to_string() }
}

fn values<'a>(fields: &'a [FormField], name: &str) -> Vec<&'a str> {
    fields.iter().filter(|f| f.name == name).map(|f| f.value.as_str()).collect()
}

#[test]
fn bare_metadata_gives_required_fields_and_empty_requires_python() {
    let fields = upload_fields(&bare(), "abc123", "py3", "bdist_wheel");
    assert_eq!(
        fields,
        vec![
            field(":action", "file_upload"),
            field("sha256_digest", "abc123"),
            field("protocol_version", "1"),
            field("metadata_version", "2.1"),
            field("name", "my-package-name"),
            field("version", "1.0.0"),
            field("pyversion", "py3"),
            field("filetype", "bdist_wheel"),
            field("requires_python", ""),
        ]
    );
}

#[test]
fn requires_python_carries_its_value() {
    let mut m = bare();
    m.requires_python = Some(">=3.7".to_string());
    let fields = upload_fields(&m, "h", "py3", "sdist");
    assert_eq!(values(&fields, "requires_python"), vec![">=3.7"]);
}

#[test]
fn requires_python_is_empty_when_absent() {
    let mut m = bare();
    m.summary = Some("s".to_string());
    m.classifiers = vec!["A".to_string()];
    let fields = upload_fields(&m, "h", "py3", "sdist");
    assert_eq!(values(&fields, "requires_python"), vec![""]);
}

#[test]
fn full_metadata_in_order() {
    let m = Metadata {
        metadata_version: "2.1".to_string(),
        name: "Pkg".to_string(),
        version: "2.0".to_string(),
        summary: Some("sum".to_string()),
        description: Some("desc".to_string()),
        description_content_type: Some("text/markdown".to_string()),
        author: Some("a".to_string()),
        author_email: Some("a@x".to_string()),
        maintainer: Some("m".to_string()),
        maintainer_email: Some("m@x".to_string()),
        license: Some("MIT".to_string()),
        keywords: Some("k".to_string()),
        home_page: Some("https://h".to_string()),
        download_url: Some("https://d".to_string()),
        requires_python: Some(">=3.8".to_string()),
        classifiers: vec!["C1".to_string(), "C2".to_string()],
        platforms: vec!["linux".to_string()],
        requires_dist: vec!["a>=1".to_string(), "b".to_string()],
        provides_dist: vec!["p".to_string()],
        obsoletes_dist: vec!["o".to_string()],
        requires_external: vec!["libc".to_string()],
        project_urls: vec!["Docs, https://docs".to_string()],
    };
    let fields = upload_fields(&m, "ff", "cp39", "bdist_wheel");
    assert_eq!(
        fields,
        vec![
            field(":action", "file_upload"),
            field("sha256_digest", "ff"),
            field("protocol_version", "1"),
            field("metadata_version", "2.1"),
            field("name", "pkg"),
            field("version", "2.0"),
            field("pyversion", "cp39"),
            field("filetype", "bdist_wheel"),
            field("summary", "sum"),
            field("description", "desc"),
            field("description_content_type", "text/markdown"),
            field("author", "a"),
            field("author_email", "a@x"),
            field("maintainer", "m"),
            field("maintainer_email", "m@x"),
            field("license", "MIT"),
            field("keywords", "k"),
            field("home_page", "https://h"),
            field("download_url", "https://d"),
            field("requires_python", ">=3.8"),
            field("classifiers", "C1"),
            field("classifiers", "C2"),
            field("platform", "linux"),
            field("requires_dist", "a>=1"),
            field("requires_dist", "b"),
            field("provides_dist", "p"),
            field("obsoletes_dist", "o"),
            field("requires_external", "libc"),
            field("project_urls", "Docs, https://docs"),
        ]
    );
}

#[test]
fn list_values_repeat_the_field_name() {
    let mut m = bare();
    m.classifiers = vec!["A".to_string(), "B".to_string(), "A".to_string()];
    let fields = upload_fields(&m, "h", "py3", "sdist");
    assert_eq!(values(&fields, "classifiers"), vec!["A", "B", "A"]);
}

#[test]
fn authorization_header_encodes_the_pair() {
    assert_eq!(authorization_header("user", "pass"), "Basic dXNlcjpwYXNz");
    assert_eq!(authorization_header("__token__", "pypi-abc"), "Basic X190b2tlbl9fOnB5cGktYWJj");
    assert_eq!(authorization_header("", ""), "Basic Og==");
}

#[test]
fn content_type_header_names_the_boundary() {
    assert_eq!(content_type_header("xyz"), "multipart/form-data; boundary=xyz");
}

#[test]
fn user_agent_header_joins_name_and_version() {
    assert_eq!(user_agent_header("maturin", "0.12.0"), "maturin/0.12.0");
}
