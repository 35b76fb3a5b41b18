//! The account that a batch is uploaded with, and how it is found: from
//! the environment, from the per-user configuration file, from the options
//! given on the command line, and from what the user answers when asked.

use vstd::prelude::*;
use vstd::string::StringExecFns;
use configparser::ini::Ini;
use crate::text::{is_substring, opt_view, str_starts_with};

verus! {

/// What the user asked for on the command line.
#[derive(Debug, Clone, PartialEq, Eq)]
pub struct PublishOpt {
    /// The URL of the index, or the name of a section of the configuration
    /// file that gives it.
    pub registry: String,
    /// The username, where it was given.
    pub username: Option<String>,
    /// The password, where it was given.
    pub password: Option<String>,
    /// Whether to go on when the index holds a file already.
    pub skip_existing: bool,
}

impl Default for PublishOpt {
    /// The options of a run without arguments: the public index, no
    /// credentials, and no file passed over.
    fn default() -> (opt: PublishOpt)
        ensures
            opt.registry@ == "https://upload.pypi.org/legacy/"@,
            opt.username is None,
            opt.password is None,
            !opt.skip_existing,
    {
        PublishOpt {
            registry: "https://upload.pypi.org/legacy/".to_owned(),
            username: None,
            password: None,
            skip_existing: false,
        }
    }
}

/// An index with the credentials to upload to it.
#[derive(Debug, Clone, PartialEq, Eq)]
pub struct Registry {
    /// The username
    pub username: String,
    /// The password
    pub password: String,
    /// The URL of the endpoint for uploads
    pub url: String,
}

/// The mathematical value of a [`Registry`].
pub struct RegistryModel {
    pub username: Seq<char>,
    pub password: Seq<char>,
    pub url: Seq<char>,
}

impl View for Registry {
    type V = RegistryModel;

    open spec fn view(&self) -> RegistryModel {
        RegistryModel { username: self.username@, password: self.password@, url: self.url@ }
    }
}

impl Registry {
    /// Creates a new registry
    pub fn new(username: String, password: String, url: String) -> (r: Registry)
        ensures
            r.username == username,
            r.password == password,
            r.url == url,
    {
        Registry { username, password, url }
    }
}

/// `configparser::ini::Ini`, a parsed configuration file. Nothing of its
/// inside is known here; what it answers is named by [`ini_value`].
#[verifier::external_type_specification]
#[verifier::external_body]
pub struct ExIni(Ini);

/// What `configparser::ini::Ini::get` returns for a section and a key of a
/// configuration.
pub uninterp spec fn ini_value(config: Ini, section: Seq<char>, key: Seq<char>) -> Option<
    Seq<char>,
>;

/// `configparser::ini::Ini::get`: a copy of the value stored under the key
/// in the section, where there is one. The configuration decides how names
/// are matched.
#[verifier::external_body]
fn ini_get(config: &Ini, section: &str, key: &str) -> (r: Option<String>)
    ensures
        opt_view(r) == ini_value(*config, section@, key@),
{
    config.get(section, key)
}

/// What `str::trim` returns for a text.
pub uninterp spec fn trimmed(s: Seq<char>) -> Seq<char>;

/// `str::trim`: the text without leading and trailing whitespace, as a
/// sub-slice of the text.
#[verifier::external_body]
fn str_trim<'a>(text: &'a str) -> (r: &'a str)
    ensures
        r@ == trimmed(text@),
        is_substring(r@, text@),
{
    text.trim()
}

/// `configparser::ini::Ini::new`: a configuration that holds nothing, so
/// that it has no value for any section and key.
#[verifier::external_body]
fn ini_new() -> (config: Ini)
    ensures
        forall|section: Seq<char>, key: Seq<char>| #[trigger]
            ini_value(config, section, key) is None,
{
    Ini::new()
}

/// What `configparser::ini::Ini::get` returns for a section and a key of
/// the configuration that a new `Ini` holds after `Ini::read` was given a
/// text.
pub uninterp spec fn ini_text_value(text: Seq<char>, section: Seq<char>, key: Seq<char>) -> Option<
    Seq<char>,
>;

/// `configparser::ini::Ini::new` followed by `Ini::read`: a configuration
/// with the default settings that holds what the text parses to, or
/// nothing where the text does not parse. What it answers depends on the
/// text alone.
#[verifier::external_body]
fn ini_from_text(text: String) -> (config: Ini)
    ensures
        forall|section: Seq<char>, key: Seq<char>| #[trigger]
            ini_value(config, section, key) == ini_text_value(text@, section, key),
{
    let mut config = Ini::new();
    let _ = config.read(text);
    config
}

/// The answers of the configuration that the per-user file gives; `None`
/// stands for a file that is not there or cannot be read.
pub open spec fn pypirc_value(contents: Option<Seq<char>>, section: Seq<char>, key: Seq<char>)
    -> Option<Seq<char>> {
    match contents {
        Some(text) => ini_text_value(text, section, key),
        None => None,
    }
}

/// The configuration that the per-user file gives, from the file's text;
/// `None` stands for a file that is not there or cannot be read, and gives
/// a configuration that holds nothing.
pub fn load_pypirc(contents: Option<String>) -> (config: Ini)
    ensures
        forall|section: Seq<char>, key: Seq<char>| #[trigger]
            ini_value(config, section, key) == pypirc_value(opt_view(contents), section, key),
{
    match contents {
        Some(text) => ini_from_text(text),
        None => ini_new(),
    }
}

/// The registry is given by its URL rather than by a name.
pub open spec fn is_url(registry: Seq<char>) -> bool {
    "http://"@.is_prefix_of(registry) || "https://"@.is_prefix_of(registry)
}

/// Where the uploads go: the name under which the configuration file may
/// hold credentials, if any, and the URL.
#[derive(Debug, Clone, PartialEq, Eq)]
pub struct Target {
    pub name: Option<String>,
    pub url: String,
}

/// The mathematical value of a [`Target`].
pub struct TargetModel {
    pub name: Option<Seq<char>>,
    pub url: Seq<char>,
}

impl View for Target {
    type V = TargetModel;

    open spec fn view(&self) -> TargetModel {
        TargetModel { name: opt_view(self.name), url: self.url@ }
    }
}

/// The target that a registry identifier stands for; `None` where it names
/// a section that gives no repository.
///
/// A name is looked up in the configuration. The default index is known
/// under the name `pypi`. Any other URL has no name.
pub open spec fn target_of(config: Ini, registry: Seq<char>) -> Option<TargetModel> {
    if !is_url(registry) {
        match ini_value(config, registry, "repository"@) {
            Some(url) => Some(TargetModel { name: Some(registry), url }),
            None => None,
        }
    } else if registry == "https://upload.pypi.org/legacy/"@ {
        Some(TargetModel { name: Some("pypi"@), url: registry })
    } else {
        Some(TargetModel { name: None, url: registry })
    }
}

/// Finds the target that a registry identifier stands for.
pub fn resolve_target(config: &Ini, registry: &str) -> (r: Option<Target>)
    ensures
        match r {
            Some(t) => target_of(*config, registry@) == Some(t@),
            None => target_of(*config, registry@) is None,
        },
{
    if !str_starts_with(registry, "http://") && !str_starts_with(registry, "https://") {
        match ini_get(config, registry, "repository") {
            Some(url) => Some(Target { name: Some(registry.to_owned()), url }),
            None => None,
        }
    } else if registry.to_owned() == "https://upload.pypi.org/legacy/".to_owned() {
        Some(Target { name: Some("pypi".to_owned()), url: registry.to_owned() })
    } else {
        Some(Target { name: None, url: registry.to_owned() })
    }
}

/// The credentials that a section of the configuration gives: both a
/// username and a password, or nothing.
pub open spec fn config_credentials(config: Ini, section: Seq<char>) -> Option<
    (Seq<char>, Seq<char>),
> {
    match (ini_value(config, section, "username"@), ini_value(config, section, "password"@)) {
        (Some(username), Some(password)) => Some((username, password)),
        _ => None,
    }
}

/// The view of an optional pair of strings.
pub open spec fn pair_view(o: Option<(String, String)>) -> Option<(Seq<char>, Seq<char>)> {
    match o {
        Some((a, b)) => Some((a@, b@)),
        None => None,
    }
}

/// Reads the credentials of a section of the configuration.
pub fn load_pypi_cred_from_config(config: &Ini, registry_name: &str) -> (r: Option<
    (String, String),
>)
    ensures
        pair_view(r) == config_credentials(*config, registry_name@),
{
    match ini_get(config, registry_name, "username") {
        Some(username) => match ini_get(config, registry_name, "password") {
            Some(password) => Some((username, password)),
            None => None,
        },
        None => None,
    }
}

/// What the user has answered so far.
#[derive(Debug, Clone, PartialEq, Eq)]
pub struct Answers {
    /// The username, once it was asked for.
    pub username: Option<String>,
    /// The password, once it was looked up or asked for.
    pub password: Option<String>,
}

/// How far the search for credentials has come.
#[derive(Debug, Clone, PartialEq, Eq)]
pub enum CredentialStep {
    /// Username and password are known.
    Resolved(String, String),
    /// The user has to be asked for the username.
    AskUsername,
    /// The password of this username has to be looked up or asked for.
    AskPassword(String),
}

/// The mathematical value of a [`CredentialStep`].
pub enum CredentialStepModel {
    Resolved(Seq<char>, Seq<char>),
    AskUsername,
    AskPassword(Seq<char>),
}

impl View for CredentialStep {
    type V = CredentialStepModel;

    open spec fn view(&self) -> CredentialStepModel {
        match self {
            CredentialStep::Resolved(u, p) => CredentialStepModel::Resolved(u@, p@),
            CredentialStep::AskUsername => CredentialStepModel::AskUsername,
            CredentialStep::AskPassword(u) => CredentialStepModel::AskPassword(u@),
        }
    }
}

/// The first of two optional values that is there.
pub open spec fn first_of(a: Option<Seq<char>>, b: Option<Seq<char>>) -> Option<Seq<char>> {
    if a is Some {
        a
    } else {
        b
    }
}

/// The step that the layers of credentials lead to, taken in their order:
/// a token stands for a whole account; then the configured section, where
/// it holds both parts; then, for each part by itself, the option given on
/// the command line, and last the user's answer.
pub open spec fn credential_step(
    opt: PublishOpt,
    config: Ini,
    registry_name: Option<Seq<char>>,
    token: Option<Seq<char>>,
    answers: Answers,
) -> CredentialStepModel {
    if let Some(t) = token {
        CredentialStepModel::Resolved("__token__"@, t)
    } else if registry_name is Some && config_credentials(config, registry_name->0) is Some {
        let (u, p) = config_credentials(config, registry_name->0)->0;
        CredentialStepModel::Resolved(u, p)
    } else {
        match first_of(opt_view(opt.username), opt_view(answers.username)) {
            None => CredentialStepModel::AskUsername,
            Some(u) => match first_of(opt_view(opt.password), opt_view(answers.password)) {
                None => CredentialStepModel::AskPassword(u),
                Some(p) => CredentialStepModel::Resolved(u, p),
            },
        }
    }
}

fn first_given(a: &Option<String>, b: &Option<String>) -> (r: Option<String>)
    ensures
        opt_view(r) == first_of(opt_view(*a), opt_view(*b)),
{
    match a {
        Some(s) => Some(s.clone()),
        None => match b {
            Some(s) => Some(s.clone()),
            None => None,
        },
    }
}

/// Finds username and password, or says what has to be asked next.
///
/// `token` is the API token from the environment, where one is set.
pub fn resolve_pypi_cred(
    opt: &PublishOpt,
    config: &Ini,
    registry_name: &Option<String>,
    token: &Option<String>,
    answers: &Answers,
) -> (step: CredentialStep)
    ensures
        step@ == credential_step(
            *opt,
            *config,
            opt_view(*registry_name),
            opt_view(*token),
            *answers,
        ),
{
    if let Some(t) = token {
        return CredentialStep::Resolved("__token__".to_owned(), t.clone());
    }
    if let Some(name) = registry_name {
        if let Some((username, password)) = load_pypi_cred_from_config(config, name.as_str()) {
            return CredentialStep::Resolved(username, password);
        }
    }
    match first_given(&opt.username, &answers.username) {
        None => CredentialStep::AskUsername,
        Some(username) => match first_given(&opt.password, &answers.password) {
            None => CredentialStep::AskPassword(username),
            Some(password) => CredentialStep::Resolved(username, password),
        },
    }
}

/// How far the completion of a registry has come.
#[derive(Debug, Clone, PartialEq, Eq)]
pub enum Completion {
    /// The registry is complete.
    Complete(Registry),
    /// The user has to be asked for the username.
    AskUsername,
    /// The password of this username has to be looked up or asked for.
    AskPassword(String),
    /// The registry was given by a name that the configuration file gives
    /// no repository for; carries the name.
    UnknownRegistry(String),
}

/// The mathematical value of a [`Completion`].
pub enum CompletionModel {
    Complete(RegistryModel),
    AskUsername,
    AskPassword(Seq<char>),
    UnknownRegistry(Seq<char>),
}

impl View for Completion {
    type V = CompletionModel;

    open spec fn view(&self) -> CompletionModel {
        match self {
            Completion::Complete(r) => CompletionModel::Complete(r@),
            Completion::AskUsername => CompletionModel::AskUsername,
            Completion::AskPassword(u) => CompletionModel::AskPassword(u@),
            Completion::UnknownRegistry(n) => CompletionModel::UnknownRegistry(n@),
        }
    }
}

/// The state of the completion: the target is found first, and the
/// credentials for it after that.
pub open spec fn completion(
    opt: PublishOpt,
    config: Ini,
    token: Option<Seq<char>>,
    answers: Answers,
) -> CompletionModel {
    match target_of(config, opt.registry@) {
        None => CompletionModel::UnknownRegistry(opt.registry@),
        Some(target) => match credential_step(opt, config, target.name, token, answers) {
            CredentialStepModel::Resolved(username, password) => CompletionModel::Complete(
                RegistryModel { username, password, url: target.url },
            ),
            CredentialStepModel::AskUsername => CompletionModel::AskUsername,
            CredentialStepModel::AskPassword(u) => CompletionModel::AskPassword(u),
        },
    }
}

/// Completes the registry from the options, the configuration, the token
/// of the environment and the answers given so far, or says what is missing.
pub fn complete_registry(
    opt: &PublishOpt,
    config: &Ini,
    token: &Option<String>,
    answers: &Answers,
) -> (r: Completion)
    ensures
        r@ == completion(*opt, *config, opt_view(*token), *answers),
{
    match resolve_target(config, opt.registry.as_str()) {
        None => Completion::UnknownRegistry(opt.registry.clone()),
        Some(target) => match resolve_pypi_cred(opt, config, &target.name, token, answers) {
            CredentialStep::Resolved(username, password) => Completion::Complete(
                Registry::new(username, password, target.url),
            ),
            CredentialStep::AskUsername => Completion::AskUsername,
            CredentialStep::AskPassword(u) => Completion::AskPassword(u),
        },
    }
}

/// The message for a registry name that the configuration file does not
/// know.
pub fn unknown_registry_message(registry: &str) -> (r: String)
    ensures
        r@ == "Failed to get registry "@ + registry@
            + " in .pypirc. Note: Your index didn't start with http:// or https://, which is required for non-pypirc indices."@,
{
    "Failed to get registry ".to_owned().concat(registry).concat(
        " in .pypirc. Note: Your index didn't start with http:// or https://, which is required for non-pypirc indices.",
    )
}

/// With a token in the environment the account is the token's, whatever
/// the configuration, the options and the answers hold.
pub proof fn lemma_token_takes_precedence(
    opt: PublishOpt,
    config: Ini,
    registry_name: Option<Seq<char>>,
    token: Seq<char>,
    answers: Answers,
)
    ensures
        credential_step(opt, config, registry_name, Some(token), answers)
            == CredentialStepModel::Resolved("__token__"@, token),
        target_of(config, opt.registry@) matches Some(target) ==> completion(
            opt,
            config,
            Some(token),
            answers,
        ) == CompletionModel::Complete(
            RegistryModel { username: "__token__"@, password: token, url: target.url },
        ),
{
}

/// Where the configuration holds both a username and a password for the
/// name of the target, nothing is asked for, whatever the options and the
/// answers hold; without a token the account is the configured one.
pub proof fn lemma_config_credentials_need_no_prompt(
    opt: PublishOpt,
    config: Ini,
    token: Option<Seq<char>>,
    answers: Answers,
)
    requires
        target_of(config, opt.registry@) matches Some(target) && target.name matches Some(name)
            && config_credentials(config, name) is Some,
    ensures
        completion(opt, config, token, answers) is Complete,
        token is None ==> ({
            let target = target_of(config, opt.registry@)->0;
            let cred = config_credentials(config, target.name->0)->0;
            completion(opt, config, token, answers) == CompletionModel::Complete(
                RegistryModel { username: cred.0, password: cred.1, url: target.url },
            )
        }),
{
}

/// The username that a line typed by the user gives: the line without the
/// whitespace around it.
pub fn get_username(line: &str) -> (r: String)
    ensures
        r@ == trimmed(line@),
        is_substring(r@, line@),
{
    str_trim(line).to_owned()
}

/// The places where a password is looked for, in their order.
#[derive(Debug, Clone, Copy, PartialEq, Eq, Structural)]
pub enum PasswordSource {
    /// The variable of the environment that holds the password.
    Environment,
    /// The secret store, under the username.
    SecretStore,
    /// A prompt that hides what is typed.
    MaskedPrompt,
    /// A plain line from the terminal, where nothing can be hidden.
    LinePrompt,
}

/// What follows from looking in one place.
#[derive(Debug, Clone, PartialEq, Eq)]
pub enum PasswordStep {
    /// The password.
    Found(String),
    /// Nothing there: look in this place next.
    Try(PasswordSource),
}

/// The mathematical value of a [`PasswordStep`].
pub enum PasswordStepModel {
    Found(Seq<char>),
    Try(PasswordSource),
}

impl View for PasswordStep {
    type V = PasswordStepModel;

    open spec fn view(&self) -> PasswordStepModel {
        match self {
            PasswordStep::Found(p) => PasswordStepModel::Found(p@),
            PasswordStep::Try(s) => PasswordStepModel::Try(*s),
        }
    }
}

/// The step after a place was looked in. The first place that has a
/// password gives it, as it stands; only a plain line loses the whitespace
/// around it. A place without one leads to the next.
pub open spec fn password_step(source: PasswordSource, found: Option<Seq<char>>) -> PasswordStepModel
    recommends
        source is LinePrompt ==> found is Some,
{
    match (source, found) {
        (PasswordSource::LinePrompt, Some(p)) => PasswordStepModel::Found(trimmed(p)),
        (_, Some(p)) => PasswordStepModel::Found(p),
        (PasswordSource::Environment, None) => PasswordStepModel::Try(PasswordSource::SecretStore),
        (PasswordSource::SecretStore, None) => PasswordStepModel::Try(PasswordSource::MaskedPrompt),
        (_, None) => PasswordStepModel::Try(PasswordSource::LinePrompt),
    }
}

/// Decides how the search for a password goes on after `source` gave
/// `found`. The search starts at [`PasswordSource::Environment`]; a failure
/// to look into the secret store counts as nothing found. The plain line is
/// the last resort and has to be there.
pub fn get_password(source: PasswordSource, found: Option<String>) -> (step: PasswordStep)
    requires
        source is LinePrompt ==> found is Some,
    ensures
        step@ == password_step(source, opt_view(found)),
        found is None ==> step is Try,
        found matches Some(given) ==> step matches PasswordStep::Found(p) && is_substring(
            p@,
            given@,
        ),
{
    match found {
        Some(p) => match source {
            PasswordSource::LinePrompt => PasswordStep::Found(str_trim(p.as_str()).to_owned()),
            _ => {
                assert(p@.subrange(0, 0 + p@.len() as int) =~= p@);
                PasswordStep::Found(p)
            },
        },
        None => match source {
            PasswordSource::Environment => PasswordStep::Try(PasswordSource::SecretStore),
            PasswordSource::SecretStore => PasswordStep::Try(PasswordSource::MaskedPrompt),
            _ => PasswordStep::Try(PasswordSource::LinePrompt),
        },
    }
}

} // verus!
