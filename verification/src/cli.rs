//! The command line: two addresses and, if given, the file that holds the
//! key of the mapping service.

use crate::configs::{get_default_config_path, home_path, Configs, DEFAULT_CONFIG_PATH};
use vstd::prelude::*;
use vstd::string::*;

verus! {

/// The arguments as they were typed.
#[derive(Debug)]
pub struct RawArgs {
    /// Address to start the estimation from.
    pub from: String,
    /// Address of destination.
    pub destination: String,
    /// Path to the file that holds the API key.
    pub api_key: Option<String>,
}

/// The arguments with the API key itself in place of the path to it.
#[derive(Debug)]
pub struct CliArgs {
    pub from: String,
    pub destination: String,
    pub api_key: String,
}

/// Why the command line could not be resolved.
#[derive(Debug, Clone, Copy, PartialEq, Eq, Structural)]
pub enum CliError {
    /// The environment does not name the user.
    MissingUser,
    /// The configuration file could not be read or understood.
    Configs,
    /// Neither the command line nor the configuration names the key file.
    MissingApiKeyPath,
    /// The key file could not be read.
    ApiKey,
}

impl CliError {
    /// The sentence that reports the error.
    pub open spec fn text(self) -> Seq<char> {
        match self {
            CliError::MissingUser => "failed to read USER environment variable"@,
            CliError::Configs => "failed to build configs"@,
            CliError::MissingApiKeyPath => "no api key path on the command line or in the configs"@,
            CliError::ApiKey => "failed to read api key"@,
        }
    }

    /// The sentence that reports the error.
    pub fn message(&self) -> (text: String)
        ensures
            text@ == self.text(),
    {
        String::from_str(
            match self {
                CliError::MissingUser => "failed to read USER environment variable",
                CliError::Configs => "failed to build configs",
                CliError::MissingApiKeyPath => "no api key path on the command line or in the configs",
                CliError::ApiKey => "failed to read api key",
            },
        )
    }
}

/// Where the resolution of the command line stands. Each of the first three
/// states names what has to be read next; what was read is handed to
/// [`CliProgress::resume`].
#[derive(Debug)]
pub enum CliProgress {
    /// The name of the user has to be read from the environment.
    NeedUser { from: String, destination: String },
    /// The configuration file at `path` has to be loaded.
    NeedConfigs { from: String, destination: String, path: String },
    /// The key file at `path` has to be read.
    NeedApiKey { from: String, destination: String, path: String },
    /// The command line is resolved.
    Done { args: CliArgs },
    /// The command line cannot be resolved.
    Failed { error: CliError },
}

/// What was read for a [`CliProgress`]; `None` where reading failed.
#[derive(Debug)]
pub enum CliEvent {
    User(Option<String>),
    Configs(Option<Configs>),
    ApiKey(Option<String>),
}

/// A state of the resolution as mathematics sees it.
pub enum CliView {
    NeedUser { from: Seq<char>, destination: Seq<char> },
    NeedConfigs { from: Seq<char>, destination: Seq<char>, path: Seq<char> },
    NeedApiKey { from: Seq<char>, destination: Seq<char>, path: Seq<char> },
    Done { from: Seq<char>, destination: Seq<char>, api_key: Seq<char> },
    Failed { error: CliError },
}

impl View for CliProgress {
    type V = CliView;

    open spec fn view(&self) -> CliView {
        match self {
            CliProgress::NeedUser { from, destination } => CliView::NeedUser {
                from: from@,
                destination: destination@,
            },
            CliProgress::NeedConfigs { from, destination, path } => CliView::NeedConfigs {
                from: from@,
                destination: destination@,
                path: path@,
            },
            CliProgress::NeedApiKey { from, destination, path } => CliView::NeedApiKey {
                from: from@,
                destination: destination@,
                path: path@,
            },
            CliProgress::Done { args } => CliView::Done {
                from: args.from@,
                destination: args.destination@,
                api_key: args.api_key@,
            },
            CliProgress::Failed { error } => CliView::Failed { error: *error },
        }
    }
}

/// The state in which the resolution starts: with a key file named on the
/// command line that file is read next; without one the configuration has to
/// name it, and the configuration is found through the name of the user.
pub open spec fn cli_start(raw: RawArgs) -> CliView {
    match raw.api_key {
        Some(path) => CliView::NeedApiKey {
            from: raw.from@,
            destination: raw.destination@,
            path: path@,
        },
        None => CliView::NeedUser { from: raw.from@, destination: raw.destination@ },
    }
}

/// The state that follows `state` on `event`.
///
/// Whatever cannot be read ends the resolution with the error of that step,
/// and so does a configuration that names no key file. An event that the
/// state did not ask for changes nothing.
pub open spec fn cli_next(state: CliView, event: CliEvent) -> CliView {
    match (state, event) {
        (CliView::NeedUser { from, destination }, CliEvent::User(Some(user))) => {
            CliView::NeedConfigs {
                from,
                destination,
                path: home_path(user@, DEFAULT_CONFIG_PATH@, "configs.toml"@),
            }
        },
        (CliView::NeedUser { .. }, CliEvent::User(None)) => CliView::Failed {
            error: CliError::MissingUser,
        },
        (CliView::NeedConfigs { from, destination, .. }, CliEvent::Configs(Some(configs))) => {
            match configs.api_key_path {
                Some(path) => CliView::NeedApiKey { from, destination, path: path@ },
                None => CliView::Failed { error: CliError::MissingApiKeyPath },
            }
        },
        (CliView::NeedConfigs { .. }, CliEvent::Configs(None)) => CliView::Failed {
            error: CliError::Configs,
        },
        (CliView::NeedApiKey { from, destination, .. }, CliEvent::ApiKey(Some(key))) => {
            CliView::Done { from, destination, api_key: key@ }
        },
        (CliView::NeedApiKey { .. }, CliEvent::ApiKey(None)) => CliView::Failed {
            error: CliError::ApiKey,
        },
        _ => state,
    }
}

/// Starts resolving the command line from the arguments as they were typed.
pub fn parse_cli_args(raw: RawArgs) -> (state: CliProgress)
    ensures
        state@ == cli_start(raw),
{
    let RawArgs { from, destination, api_key } = raw;
    match api_key {
        Some(path) => CliProgress::NeedApiKey { from, destination, path },
        None => CliProgress::NeedUser { from, destination },
    }
}

impl CliProgress {
    /// Goes on with the resolution once what the state asked for was read.
    pub fn resume(self, event: CliEvent) -> (state: CliProgress)
        ensures
            state@ == cli_next(self@, event),
    {
        match self {
            CliProgress::NeedUser { from, destination } => match event {
                CliEvent::User(Some(user)) => {
                    let path = get_default_config_path(user.as_str());
                    CliProgress::NeedConfigs { from, destination, path }
                },
                CliEvent::User(None) => CliProgress::Failed { error: CliError::MissingUser },
                _ => CliProgress::NeedUser { from, destination },
            },
            CliProgress::NeedConfigs { from, destination, path } => match event {
                CliEvent::Configs(Some(configs)) => match configs.api_key_path {
                    Some(key_path) => CliProgress::NeedApiKey { from, destination, path: key_path },
                    None => CliProgress::Failed { error: CliError::MissingApiKeyPath },
                },
                CliEvent::Configs(None) => CliProgress::Failed { error: CliError::Configs },
                _ => CliProgress::NeedConfigs { from, destination, path },
            },
            CliProgress::NeedApiKey { from, destination, path } => match event {
                CliEvent::ApiKey(Some(api_key)) => CliProgress::Done {
                    args: CliArgs { from, destination, api_key },
                },
                CliEvent::ApiKey(None) => CliProgress::Failed { error: CliError::ApiKey },
                _ => CliProgress::NeedApiKey { from, destination, path },
            },
            CliProgress::Done { args } => CliProgress::Done { args },
            CliProgress::Failed { error } => CliProgress::Failed { error },
        }
    }
}

} // verus!
