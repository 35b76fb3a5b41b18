//! The form that describes one artifact to the index, and the headers that
//! go with it.

use vstd::prelude::*;
use vstd::string::StringExecFns;
use crate::name::{canonical_name, canonicalize_name};

verus! {

/// The metadata of a built package, as far as the upload form carries it.
#[derive(Debug, Clone, PartialEq, Eq)]
pub struct Metadata {
    pub metadata_version: String,
    pub name: String,
    pub version: String,
    pub summary: Option<String>,
    pub description: Option<String>,
    pub description_content_type: Option<String>,
    pub author: Option<String>,
    pub author_email: Option<String>,
    pub maintainer: Option<String>,
    pub maintainer_email: Option<String>,
    pub license: Option<String>,
    pub keywords: Option<String>,
    pub home_page: Option<String>,
    pub download_url: Option<String>,
    pub requires_python: Option<String>,
    pub classifiers: Vec<String>,
    pub platforms: Vec<String>,
    pub requires_dist: Vec<String>,
    pub provides_dist: Vec<String>,
    pub obsoletes_dist: Vec<String>,
    pub requires_external: Vec<String>,
    pub project_urls: Vec<String>,
}

/// One text field of the form.
#[derive(Debug, Clone, PartialEq, Eq)]
pub struct FormField {
    pub name: String,
    pub value: String,
}

/// A field as a pair of name and value.
pub type FieldModel = (Seq<char>, Seq<char>);

impl View for FormField {
    type V = FieldModel;

    open spec fn view(&self) -> FieldModel {
        (self.name@, self.value@)
    }
}

/// The fields of a list, in order, each as a pair.
pub open spec fn fields_view(fields: Seq<FormField>) -> Seq<FieldModel> {
    fields.map_values(|f: FormField| f@)
}

/// `acc`, followed by the field `name` if there is a value for it.
pub open spec fn with_optional(acc: Seq<FieldModel>, name: Seq<char>, value: Option<String>) -> Seq<
    FieldModel,
> {
    match value {
        Some(v) => acc.push((name, v@)),
        None => acc,
    }
}

/// `acc`, followed by one field `name` for each of the values, in order.
pub open spec fn with_list(acc: Seq<FieldModel>, name: Seq<char>, values: Seq<String>) -> Seq<
    FieldModel,
> {
    acc + values.map_values(|v: String| (name, v@))
}

/// The fields that every upload carries.
pub open spec fn required_fields(
    m: Metadata,
    hash_hex: Seq<char>,
    python_version: Seq<char>,
    file_type: Seq<char>,
) -> Seq<FieldModel> {
    seq![
        (":action"@, "file_upload"@),
        ("sha256_digest"@, hash_hex),
        ("protocol_version"@, "1"@),
        ("metadata_version"@, m.metadata_version@),
        ("name"@, canonical_name(m.name@)),
        ("version"@, m.version@),
        ("pyversion"@, python_version),
        ("filetype"@, file_type),
    ]
}

/// The required fields, followed by each scalar field that the metadata
/// has a value for, once.
pub open spec fn scalar_fields(
    m: Metadata,
    hash_hex: Seq<char>,
    python_version: Seq<char>,
    file_type: Seq<char>,
) -> Seq<FieldModel> {
    let f = required_fields(m, hash_hex, python_version, file_type);
    let f = with_optional(f, "summary"@, m.summary);
    let f = with_optional(f, "description"@, m.description);
    let f = with_optional(f, "description_content_type"@, m.description_content_type);
    let f = with_optional(f, "author"@, m.author);
    let f = with_optional(f, "author_email"@, m.author_email);
    let f = with_optional(f, "maintainer"@, m.maintainer);
    let f = with_optional(f, "maintainer_email"@, m.maintainer_email);
    let f = with_optional(f, "license"@, m.license);
    let f = with_optional(f, "keywords"@, m.keywords);
    let f = with_optional(f, "home_page"@, m.home_page);
    with_optional(f, "download_url"@, m.download_url)
}

/// The field that states which interpreters the package runs on. It is
/// always there: empty where the metadata states no constraint.
pub open spec fn requires_python_field(m: Metadata) -> FieldModel {
    (
        "requires_python"@,
        match m.requires_python {
            Some(v) => v@,
            None => Seq::<char>::empty(),
        },
    )
}

/// All text fields of the upload form, in the order in which they are sent.
pub open spec fn form_fields(
    m: Metadata,
    hash_hex: Seq<char>,
    python_version: Seq<char>,
    file_type: Seq<char>,
) -> Seq<FieldModel> {
    let f = scalar_fields(m, hash_hex, python_version, file_type).push(requires_python_field(m));
    let f = with_list(f, "classifiers"@, m.classifiers@);
    let f = with_list(f, "platform"@, m.platforms@);
    let f = with_list(f, "requires_dist"@, m.requires_dist@);
    let f = with_list(f, "provides_dist"@, m.provides_dist@);
    let f = with_list(f, "obsoletes_dist"@, m.obsoletes_dist@);
    let f = with_list(f, "requires_external"@, m.requires_external@);
    with_list(f, "project_urls"@, m.project_urls@)
}

fn push_field(fields: &mut Vec<FormField>, name: &str, value: String)
    ensures
        fields_view(final(fields)@) == fields_view(old(fields)@).push((name@, value@)),
{
    fields.push(FormField { name: name.to_owned(), value });
    assert(fields_view(fields@) =~= fields_view(old(fields)@).push((name@, value@)));
}

fn push_optional(fields: &mut Vec<FormField>, name: &str, value: &Option<String>)
    ensures
        fields_view(final(fields)@) == with_optional(fields_view(old(fields)@), name@, *value),
{
    match value {
        Some(v) => push_field(fields, name, v.clone()),
        None => {},
    }
}

fn push_list(fields: &mut Vec<FormField>, name: &str, values: &Vec<String>)
    ensures
        fields_view(final(fields)@) == with_list(fields_view(old(fields)@), name@, values@),
{
    let ghost before = fields_view(fields@);
    let mut i: usize = 0;
    while i < values.len()
        invariant
            i <= values.len(),
            fields_view(fields@) == with_list(before, name@, values@.subrange(0, i as int)),
        decreases values.len() - i,
    {
        push_field(fields, name, values[i].clone());
        assert(values@.subrange(0, i + 1) =~= values@.subrange(0, i as int).push(values@[i as int]));
        assert(fields_view(fields@) =~= with_list(before, name@, values@.subrange(0, i + 1)));
        i += 1;
    }
    assert(values@.subrange(0, i as int) =~= values@);
}

/// Lays out the text fields of the upload form for one artifact, given its
/// metadata, the digest of its content in hexadecimal, and the tags of the
/// interpreter and of the kind of file.
pub fn upload_fields(
    metadata: &Metadata,
    hash_hex: &str,
    python_version: &str,
    file_type: &str,
) -> (fields: Vec<FormField>)
    ensures
        fields_view(fields@) == form_fields(*metadata, hash_hex@, python_version@, file_type@),
{
    let mut fields: Vec<FormField> = Vec::new();
    assert(fields_view(fields@) =~= Seq::<FieldModel>::empty());
    push_field(&mut fields, ":action", "file_upload".to_owned());
    push_field(&mut fields, "sha256_digest", hash_hex.to_owned());
    push_field(&mut fields, "protocol_version", "1".to_owned());
    push_field(&mut fields, "metadata_version", metadata.metadata_version.clone());
    push_field(&mut fields, "name", canonicalize_name(metadata.name.as_str()));
    push_field(&mut fields, "version", metadata.version.clone());
    push_field(&mut fields, "pyversion", python_version.to_owned());
    push_field(&mut fields, "filetype", file_type.to_owned());
    assert(fields_view(fields@) =~= required_fields(
        *metadata,
        hash_hex@,
        python_version@,
        file_type@,
    ));
    push_optional(&mut fields, "summary", &metadata.summary);
    push_optional(&mut fields, "description", &metadata.description);
    push_optional(&mut fields, "description_content_type", &metadata.description_content_type);
    push_optional(&mut fields, "author", &metadata.author);
    push_optional(&mut fields, "author_email", &metadata.author_email);
    push_optional(&mut fields, "maintainer", &metadata.maintainer);
    push_optional(&mut fields, "maintainer_email", &metadata.maintainer_email);
    push_optional(&mut fields, "license", &metadata.license);
    push_optional(&mut fields, "keywords", &metadata.keywords);
    push_optional(&mut fields, "home_page", &metadata.home_page);
    push_optional(&mut fields, "download_url", &metadata.download_url);
    match &metadata.requires_python {
        Some(v) => push_field(&mut fields, "requires_python", v.clone()),
        None => push_field(&mut fields, "requires_python", String::new()),
    }
    push_list(&mut fields, "classifiers", &metadata.classifiers);
    push_list(&mut fields, "platform", &metadata.platforms);
    push_list(&mut fields, "requires_dist", &metadata.requires_dist);
    push_list(&mut fields, "provides_dist", &metadata.provides_dist);
    push_list(&mut fields, "obsoletes_dist", &metadata.obsoletes_dist);
    push_list(&mut fields, "requires_external", &metadata.requires_external);
    push_list(&mut fields, "project_urls", &metadata.project_urls);
    fields
}

/// Whatever the metadata holds, the form carries the field that states the
/// interpreter constraint: with the constraint as its value where there is
/// one, and with the empty text where there is none.
pub proof fn lemma_requires_python_always_present(
    m: Metadata,
    hash_hex: Seq<char>,
    python_version: Seq<char>,
    file_type: Seq<char>,
)
    ensures
        form_fields(m, hash_hex, python_version, file_type).contains(requires_python_field(m)),
        m.requires_python is None ==> requires_python_field(m) == (
            "requires_python"@,
            Seq::<char>::empty(),
        ),
        m.requires_python matches Some(v) ==> requires_python_field(m) == ("requires_python"@, v@),
{
    let s = scalar_fields(m, hash_hex, python_version, file_type);
    let f = s.push(requires_python_field(m));
    let all = form_fields(m, hash_hex, python_version, file_type);
    assert(f[s.len() as int] == requires_python_field(m));
    assert(all[s.len() as int] == requires_python_field(m));
}

/// What `base64::encode` returns for the UTF-8 bytes of a text.
pub uninterp spec fn base64_encoding(text: Seq<char>) -> Seq<char>;

/// `base64::encode`: the standard base64 form, with padding, of the bytes
/// of the text.
#[verifier::external_body]
fn base64_encode(text: &str) -> (r: String)
    ensures
        r@ == base64_encoding(text@),
{
    base64::encode(text)
}

/// The text that the credentials are encoded from.
pub open spec fn credential_pair(username: Seq<char>, password: Seq<char>) -> Seq<char> {
    username + ":"@ + password
}

/// The value of the `Authorization` header for basic authentication.
pub fn authorization_header(username: &str, password: &str) -> (r: String)
    ensures
        r@ == "Basic "@ + base64_encoding(credential_pair(username@, password@)),
{
    let pair = username.to_owned().concat(":").concat(password);
    let encoded = base64_encode(pair.as_str());
    "Basic ".to_owned().concat(encoded.as_str())
}

/// The value of the `Content-Type` header of a form whose parts are
/// separated by `boundary`.
pub fn content_type_header(boundary: &str) -> (r: String)
    ensures
        r@ == "multipart/form-data; boundary="@ + boundary@,
{
    "multipart/form-data; boundary=".to_owned().concat(boundary)
}

/// The value of the `User-Agent` header: the tool's name, a slash, and its
/// version.
pub fn user_agent_header(tool: &str, version: &str) -> (r: String)
    ensures
        r@ == tool@ + "/"@ + version@,
{
    tool.to_owned().concat("/").concat(version)
}

} // verus!
