//! Settings: what the command line gave, what the settings file holds, and
//! the merge of the two that the rest of a run works with.

use vstd::prelude::*;
use vstd::string::*;
use crate::text::{clone_list, clone_strings, clone_text};

verus! {

/// What was given on the command line.
#[derive(Debug, Clone, PartialEq, Eq)]
pub struct Cli {
    pub branch_name: Option<String>,
    pub repos: Option<Vec<String>>,
    pub gitlab_api_key: Option<String>,
    pub gitlab_url: Option<String>,
    pub update_config: bool,
    pub config: Option<String>,
}

/// A command line as contracts see it: texts in place of strings.
pub struct CliView {
    pub branch_name: Option<Seq<char>>,
    pub repos: Option<Seq<Seq<char>>>,
    pub gitlab_api_key: Option<Seq<char>>,
    pub gitlab_url: Option<Seq<char>>,
    pub update_config: bool,
    pub config: Option<Seq<char>>,
}

impl View for Cli {
    type V = CliView;

    open spec fn view(&self) -> CliView {
        CliView {
            branch_name: self.branch_name.deep_view(),
            repos: self.repos.deep_view(),
            gitlab_api_key: self.gitlab_api_key.deep_view(),
            gitlab_url: self.gitlab_url.deep_view(),
            update_config: self.update_config,
            config: self.config.deep_view(),
        }
    }
}

/// What the settings file holds. Every key may be absent.
#[derive(Debug, Clone, PartialEq, Eq)]
pub struct ConfigFile {
    pub repos: Option<Vec<String>>,
    pub gitlab_api_key: Option<String>,
    pub gitlab_url: Option<String>,
}

/// The contents of a settings file as contracts see them.
pub struct ConfigFileView {
    pub repos: Option<Seq<Seq<char>>>,
    pub gitlab_api_key: Option<Seq<char>>,
    pub gitlab_url: Option<Seq<char>>,
}

impl View for ConfigFile {
    type V = ConfigFileView;

    open spec fn view(&self) -> ConfigFileView {
        ConfigFileView {
            repos: self.repos.deep_view(),
            gitlab_api_key: self.gitlab_api_key.deep_view(),
            gitlab_url: self.gitlab_url.deep_view(),
        }
    }
}

/// The settings a file is written with when only the command line is known.
pub open spec fn file_of_cli(cli: CliView) -> ConfigFileView {
    ConfigFileView {
        repos: cli.repos,
        gitlab_api_key: cli.gitlab_api_key,
        gitlab_url: cli.gitlab_url,
    }
}

impl ConfigFile {
    /// The settings to write to a new or refreshed file: the three values of
    /// the command line, absent where the command line left them out.
    pub fn from(value: &Cli) -> (r: ConfigFile)
        ensures
            r@ == file_of_cli(value@),
    {
        ConfigFile {
            repos: clone_list(&value.repos),
            gitlab_api_key: clone_text(&value.gitlab_api_key),
            gitlab_url: clone_text(&value.gitlab_url),
        }
    }
}

/// A setting that a run cannot do without.
#[derive(Clone, Copy, Debug, PartialEq, Eq, Structural)]
pub enum RequiredField {
    BranchName,
    Repos,
    GitlabApiKey,
}

/// Why no settings could be made for a run.
#[derive(Clone, Copy, Debug, PartialEq, Eq, Structural)]
pub enum ConfigError {
    MissingRequiredField(RequiredField),
}

/// The sentence that reports a missing field.
pub open spec fn missing_text(field: RequiredField) -> Seq<char> {
    match field {
        RequiredField::BranchName => "branch name has to be set"@,
        RequiredField::Repos => "There has to be atleast one repostiory set"@,
        RequiredField::GitlabApiKey => "gitlab api key has to be set"@,
    }
}

impl ConfigError {
    /// The field whose absence the error reports.
    pub fn field(&self) -> (r: RequiredField)
        ensures
            *self == ConfigError::MissingRequiredField(r),
    {
        match self {
            ConfigError::MissingRequiredField(f) => *f,
        }
    }

    /// The sentence shown to the user for this error.
    pub fn message(&self) -> (r: String)
        ensures
            r@ == missing_text(self->MissingRequiredField_0),
    {
        match self {
            ConfigError::MissingRequiredField(RequiredField::BranchName) => String::from_str(
                "branch name has to be set",
            ),
            ConfigError::MissingRequiredField(RequiredField::Repos) => String::from_str(
                "There has to be atleast one repostiory set",
            ),
            ConfigError::MissingRequiredField(RequiredField::GitlabApiKey) => String::from_str(
                "gitlab api key has to be set",
            ),
        }
    }
}

/// The GitLab instance used when neither the file nor the command line names one.
pub open spec fn default_gitlab_url() -> Seq<char> {
    "https://gitlab.com"@
}

/// The merged settings of one run.
#[derive(Debug, Clone, PartialEq, Eq)]
pub struct State {
    pub branch_name: String,
    pub repos: Vec<String>,
    pub gitlab_api: String,
    pub gitlab_url: String,
}

/// The merged settings as contracts see them.
pub struct StateView {
    pub branch_name: Seq<char>,
    pub repos: Seq<Seq<char>>,
    pub gitlab_api: Seq<char>,
    pub gitlab_url: Seq<char>,
}

impl View for State {
    type V = StateView;

    open spec fn view(&self) -> StateView {
        StateView {
            branch_name: self.branch_name@,
            repos: self.repos.deep_view(),
            gitlab_api: self.gitlab_api@,
            gitlab_url: self.gitlab_url@,
        }
    }
}

/// The first of two optional values that is present.
pub open spec fn first_of<T>(a: Option<T>, b: Option<T>) -> Option<T> {
    if a is Some {
        a
    } else {
        b
    }
}

/// The merge of file and command line. The branch name comes from the
/// command line alone. For the project list and the token the file goes
/// first, then the command line; for the instance the file, the command line,
/// then the default. The first field found missing, in the order branch name,
/// project list, token, is the one reported.
pub open spec fn resolve(config: ConfigFileView, cli: CliView) -> Result<StateView, ConfigError> {
    if cli.branch_name is None {
        Err(ConfigError::MissingRequiredField(RequiredField::BranchName))
    } else if first_of(config.repos, cli.repos) is None {
        Err(ConfigError::MissingRequiredField(RequiredField::Repos))
    } else if first_of(config.gitlab_api_key, cli.gitlab_api_key) is None {
        Err(ConfigError::MissingRequiredField(RequiredField::GitlabApiKey))
    } else {
        Ok(
            StateView {
                branch_name: cli.branch_name->0,
                repos: first_of(config.repos, cli.repos)->0,
                gitlab_api: first_of(config.gitlab_api_key, cli.gitlab_api_key)->0,
                gitlab_url: match first_of(config.gitlab_url, cli.gitlab_url) {
                    Some(url) => url,
                    None => default_gitlab_url(),
                },
            },
        )
    }
}

/// What a result of [`State::new`] stands for.
pub open spec fn outcome_view(r: Result<State, ConfigError>) -> Result<StateView, ConfigError> {
    match r {
        Ok(s) => Ok(s@),
        Err(e) => Err(e),
    }
}

fn pick_text(first: &Option<String>, second: &Option<String>) -> (r: Option<String>)
    ensures
        r.deep_view() == first_of(first.deep_view(), second.deep_view()),
{
    match first {
        Some(s) => Some(s.clone()),
        None => clone_text(second),
    }
}

fn pick_list(first: &Option<Vec<String>>, second: &Option<Vec<String>>) -> (r: Option<
    Vec<String>,
>)
    ensures
        r.deep_view() == first_of(first.deep_view(), second.deep_view()),
{
    match first {
        Some(v) => Some(clone_strings(v)),
        None => clone_list(second),
    }
}

/// The lines that list the projects, each on a line of its own behind a dash.
pub open spec fn repo_lines(repos: Seq<Seq<char>>) -> Seq<char>
    decreases repos.len(),
{
    if repos.len() == 0 {
        Seq::empty()
    } else {
        repo_lines(repos.drop_last()) + "\n- "@ + repos.last()
    }
}

/// The text that shows the settings of a run: branch, instance, projects.
/// The token is not shown.
pub open spec fn summary_text(state: StateView) -> Seq<char> {
    "Branch to create: "@ + state.branch_name + "\nGitlab Instance: "@ + state.gitlab_url
        + "\nRepositories to change: "@ + repo_lines(state.repos)
}

impl State {
    /// The text that shows these settings to the user.
    pub fn summary(&self) -> (r: String)
        ensures
            r@ == summary_text(self@),
    {
        let mut buffer = String::new();
        let mut i: usize = 0;
        while i < self.repos.len()
            invariant
                i <= self.repos.len(),
                buffer@ == repo_lines(self.repos.deep_view().take(i as int)),
            decreases self.repos.len() - i,
        {
            proof {
                let next = self.repos.deep_view().take(i + 1);
                assert(next.drop_last() =~= self.repos.deep_view().take(i as int));
            }
            buffer.append("\n- ");
            buffer.append(self.repos[i].as_str());
            i += 1;
        }
        assert(self.repos.deep_view().take(self.repos.len() as int) =~= self.repos.deep_view());
        let mut out = String::from_str("Branch to create: ");
        out.append(self.branch_name.as_str());
        out.append("\nGitlab Instance: ");
        out.append(self.gitlab_url.as_str());
        out.append("\nRepositories to change: ");
        out.append(buffer.as_str());
        out
    }

    /// Merges the settings file with the command line.
    pub fn new(config: &ConfigFile, cli: &Cli) -> (r: Result<State, ConfigError>)
        ensures
            outcome_view(r) == resolve(config@, cli@),
    {
        let branch_name = match &cli.branch_name {
            Some(name) => name.clone(),
            None => {
                return Err(ConfigError::MissingRequiredField(RequiredField::BranchName));
            },
        };
        let repos = match pick_list(&config.repos, &cli.repos) {
            Some(repos) => repos,
            None => {
                return Err(ConfigError::MissingRequiredField(RequiredField::Repos));
            },
        };
        let gitlab_api = match pick_text(&config.gitlab_api_key, &cli.gitlab_api_key) {
            Some(key) => key,
            None => {
                return Err(ConfigError::MissingRequiredField(RequiredField::GitlabApiKey));
            },
        };
        let gitlab_url = match pick_text(&config.gitlab_url, &cli.gitlab_url) {
            Some(url) => url,
            None => String::from_str("https://gitlab.com"),
        };
        Ok(State { branch_name, repos, gitlab_api, gitlab_url })
    }
}

/// Settings are made exactly when the command line names the branch and
/// the project list and the token each stand in the file or on the command
/// line.
pub proof fn lemma_resolves_when_complete(config: ConfigFileView, cli: CliView)
    ensures
        resolve(config, cli) is Ok <==> cli.branch_name is Some && (config.repos is Some
            || cli.repos is Some) && (config.gitlab_api_key is Some || cli.gitlab_api_key is Some),
{
}

/// Without a branch name on the command line no settings are made, whatever
/// the file holds, and the branch name is the field reported.
pub proof fn lemma_branch_name_required(config: ConfigFileView, cli: CliView)
    requires
        cli.branch_name is None,
    ensures
        resolve(config, cli) == Err::<StateView, ConfigError>(
            ConfigError::MissingRequiredField(RequiredField::BranchName),
        ),
{
}

/// What the file holds goes before the command line: for the token, the
/// project list and the instance alike.
pub proof fn lemma_file_goes_first(config: ConfigFileView, cli: CliView)
    requires
        resolve(config, cli) is Ok,
    ensures
        config.gitlab_api_key is Some ==> resolve(config, cli)->Ok_0.gitlab_api
            == config.gitlab_api_key->0,
        config.repos is Some ==> resolve(config, cli)->Ok_0.repos == config.repos->0,
        config.gitlab_url is Some ==> resolve(config, cli)->Ok_0.gitlab_url == config.gitlab_url->0,
{
}

/// Where neither the file nor the command line names an instance, the
/// settings name the default one.
pub proof fn lemma_default_instance(config: ConfigFileView, cli: CliView)
    requires
        config.gitlab_url is None,
        cli.gitlab_url is None,
        resolve(config, cli) is Ok,
    ensures
        resolve(config, cli)->Ok_0.gitlab_url == default_gitlab_url(),
{
}

} // verus!
