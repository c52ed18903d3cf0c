//! What a run is told before it starts: the repository to write to, and the
//! service to talk to.

use crate::error::CommitError;
use vstd::prelude::*;

verus! {

/// The record a configuration file holds, field by field as it was read.
/// A field that the file lacks is `None`.
#[derive(Debug, PartialEq, Eq)]
pub struct ConfigFields {
    pub github_token: Option<String>,
    pub github_username: Option<String>,
    pub github_file_path: Option<String>,
    pub github_repo_name: Option<String>,
    pub github_branch: Option<String>,
    pub github_commit_message: Option<String>,
}

/// A complete configuration. It is fixed for the whole run: every stage reads
/// it and none changes it.
#[derive(Debug, PartialEq, Eq)]
pub struct Config {
    /// The credential presented with every authenticated call.
    pub github_token: String,
    /// The account that owns the repository.
    pub github_username: String,
    /// The path, inside the repository, of the file that is rewritten.
    pub github_file_path: String,
    /// The repository.
    pub github_repo_name: String,
    /// The branch that is advanced.
    pub github_branch: String,
    /// The message of the new commit.
    pub github_commit_message: String,
}

/// A configuration as contracts see it.
pub struct ConfigView {
    pub github_token: Seq<char>,
    pub github_username: Seq<char>,
    pub github_file_path: Seq<char>,
    pub github_repo_name: Seq<char>,
    pub github_branch: Seq<char>,
    pub github_commit_message: Seq<char>,
}

impl View for Config {
    type V = ConfigView;

    open spec fn view(&self) -> ConfigView {
        ConfigView {
            github_token: self.github_token@,
            github_username: self.github_username@,
            github_file_path: self.github_file_path@,
            github_repo_name: self.github_repo_name@,
            github_branch: self.github_branch@,
            github_commit_message: self.github_commit_message@,
        }
    }
}

impl ConfigFields {
    /// No field is missing.
    pub open spec fn complete(&self) -> bool {
        &&& self.github_token is Some
        &&& self.github_username is Some
        &&& self.github_file_path is Some
        &&& self.github_repo_name is Some
        &&& self.github_branch is Some
        &&& self.github_commit_message is Some
    }

    /// The configuration that a complete record stands for.
    pub open spec fn settled(&self) -> ConfigView
        recommends
            self.complete(),
    {
        ConfigView {
            github_token: self.github_token->0@,
            github_username: self.github_username->0@,
            github_file_path: self.github_file_path->0@,
            github_repo_name: self.github_repo_name->0@,
            github_branch: self.github_branch->0@,
            github_commit_message: self.github_commit_message->0@,
        }
    }
}

impl Config {
    /// Accepts a record in which every field is present, and refuses any
    /// other with [`CommitError::ConfigError`].
    pub fn from_fields(fields: ConfigFields) -> (outcome: Result<Config, CommitError>)
        ensures
            fields.complete() ==> outcome is Ok && outcome->Ok_0@ == fields.settled(),
            !fields.complete() ==> outcome == Err::<Config, CommitError>(
                CommitError::ConfigError,
            ),
    {
        let ConfigFields {
            github_token,
            github_username,
            github_file_path,
            github_repo_name,
            github_branch,
            github_commit_message,
        } = fields;
        match (
            github_token,
            github_username,
            github_file_path,
            github_repo_name,
            github_branch,
            github_commit_message,
        ) {
            (Some(token), Some(username), Some(file_path), Some(repo_name), Some(branch), Some(message)) => {
                Ok(
                    Config {
                        github_token: token,
                        github_username: username,
                        github_file_path: file_path,
                        github_repo_name: repo_name,
                        github_branch: branch,
                        github_commit_message: message,
                    },
                )
            },
            _ => Err(CommitError::ConfigError),
        }
    }
}

/// Where the service is, and how the client names itself. These are values,
/// not literals in the code, so that a run can be pointed at another host.
#[derive(Debug, PartialEq, Eq)]
pub struct Endpoint {
    /// Scheme and host of the Git data API, without a trailing slash.
    pub api_base: String,
    /// The `User-Agent` header of every call to the API.
    pub user_agent: String,
    /// The address fetched to see whether the network is reachable.
    pub probe_url: String,
}

/// An endpoint as contracts see it.
pub struct EndpointView {
    pub api_base: Seq<char>,
    pub user_agent: Seq<char>,
    pub probe_url: Seq<char>,
}

impl View for Endpoint {
    type V = EndpointView;

    open spec fn view(&self) -> EndpointView {
        EndpointView {
            api_base: self.api_base@,
            user_agent: self.user_agent@,
            probe_url: self.probe_url@,
        }
    }
}

impl Endpoint {
    /// The public GitHub API.
    pub open spec fn github_view() -> EndpointView {
        EndpointView {
            api_base: "https://api.github.com"@,
            user_agent: "my-app/0.0.1"@,
            probe_url: "http://www.google.com"@,
        }
    }

    /// The public GitHub API, with the client name `my-app/0.0.1`.
    pub fn github() -> (endpoint: Endpoint)
        ensures
            endpoint@ == Endpoint::github_view(),
    {
        Endpoint {
            api_base: String::from_str("https://api.github.com"),
            user_agent: String::from_str("my-app/0.0.1"),
            probe_url: String::from_str("http://www.google.com"),
        }
    }
}

} // verus!
