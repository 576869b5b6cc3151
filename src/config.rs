//! The service's settings: provider credential, repository coordinates, the
//! artifact prefix and the listening port.

use vstd::prelude::*;

verus! {

#[derive(Debug)]
pub struct Config {
    pub github: Github,
    pub builds: Builds,
    pub http: Http,
}

#[derive(Debug)]
pub struct Github {
    pub token: String,
}

#[derive(Debug)]
pub struct Builds {
    pub owner: String,
    pub repo: String,
    pub branch: String,
    pub artifact_prefix: String,
}

#[derive(Debug)]
pub struct Http {
    pub port: u16,
}

/// A key of the settings, in the order in which they are checked.
#[derive(Debug, Clone, Copy, PartialEq, Eq)]
pub enum ConfigKey {
    GithubToken,
    BuildsOwner,
    BuildsRepo,
    BuildsBranch,
    BuildsArtifactPrefix,
    HttpPort,
}

pub open spec fn key_path(k: ConfigKey) -> Seq<char> {
    match k {
        ConfigKey::GithubToken => "github.token"@,
        ConfigKey::BuildsOwner => "builds.owner"@,
        ConfigKey::BuildsRepo => "builds.repo"@,
        ConfigKey::BuildsBranch => "builds.branch"@,
        ConfigKey::BuildsArtifactPrefix => "builds.artifact_prefix"@,
        ConfigKey::HttpPort => "http.port"@,
    }
}

impl ConfigKey {
    /// The dotted path of the key in the layered settings.
    pub fn path(&self) -> (r: &'static str)
        ensures
            r@ == key_path(*self),
    {
        match self {
            ConfigKey::GithubToken => "github.token",
            ConfigKey::BuildsOwner => "builds.owner",
            ConfigKey::BuildsRepo => "builds.repo",
            ConfigKey::BuildsBranch => "builds.branch",
            ConfigKey::BuildsArtifactPrefix => "builds.artifact_prefix",
            ConfigKey::HttpPort => "http.port",
        }
    }
}

/// Why the settings do not make a configuration.
#[derive(Debug, Clone, Copy, PartialEq, Eq)]
pub enum ConfigError {
    /// No layer sets this key.
    Missing(ConfigKey),
    /// The port is not an integer from 0 to 65535.
    PortOutOfRange(i64),
}

/// The values that the layered sources give for each key, after later
/// layers have overridden earlier ones.
#[derive(Debug)]
pub struct ConfigSettings {
    pub github_token: Option<String>,
    pub builds_owner: Option<String>,
    pub builds_repo: Option<String>,
    pub builds_branch: Option<String>,
    pub builds_artifact_prefix: Option<String>,
    pub http_port: Option<i64>,
}

/// The first problem of `s`: the first key, in declaration order, that has
/// no value, or else a port out of range.
pub open spec fn first_problem(s: ConfigSettings) -> Option<ConfigError> {
    if s.github_token is None {
        Some(ConfigError::Missing(ConfigKey::GithubToken))
    } else if s.builds_owner is None {
        Some(ConfigError::Missing(ConfigKey::BuildsOwner))
    } else if s.builds_repo is None {
        Some(ConfigError::Missing(ConfigKey::BuildsRepo))
    } else if s.builds_branch is None {
        Some(ConfigError::Missing(ConfigKey::BuildsBranch))
    } else if s.builds_artifact_prefix is None {
        Some(ConfigError::Missing(ConfigKey::BuildsArtifactPrefix))
    } else if s.http_port is None {
        Some(ConfigError::Missing(ConfigKey::HttpPort))
    } else if !(0 <= s.http_port->Some_0 <= 65535) {
        Some(ConfigError::PortOutOfRange(s.http_port->Some_0))
    } else {
        None
    }
}

impl Config {
    /// The configuration that `settings` describe, or the first problem
    /// with them.
    pub fn load(settings: ConfigSettings) -> (r: Result<Config, ConfigError>)
        ensures
            first_problem(settings) is None <==> r is Ok,
            r is Err ==> Some(r->Err_0) == first_problem(settings),
            r is Ok ==> ({
                let c = r->Ok_0;
                &&& c.github.token@ == settings.github_token->Some_0@
                &&& c.builds.owner@ == settings.builds_owner->Some_0@
                &&& c.builds.repo@ == settings.builds_repo->Some_0@
                &&& c.builds.branch@ == settings.builds_branch->Some_0@
                &&& c.builds.artifact_prefix@ == settings.builds_artifact_prefix->Some_0@
                &&& c.http.port as i64 == settings.http_port->Some_0
            }),
    {
        let token = match settings.github_token {
            Some(v) => v,
            None => return Err(ConfigError::Missing(ConfigKey::GithubToken)),
        };
        let owner = match settings.builds_owner {
            Some(v) => v,
            None => return Err(ConfigError::Missing(ConfigKey::BuildsOwner)),
        };
        let repo = match settings.builds_repo {
            Some(v) => v,
            None => return Err(ConfigError::Missing(ConfigKey::BuildsRepo)),
        };
        let branch = match settings.builds_branch {
            Some(v) => v,
            None => return Err(ConfigError::Missing(ConfigKey::BuildsBranch)),
        };
        let artifact_prefix = match settings.builds_artifact_prefix {
            Some(v) => v,
            None => return Err(ConfigError::Missing(ConfigKey::BuildsArtifactPrefix)),
        };
        let port = match settings.http_port {
            Some(v) => v,
            None => return Err(ConfigError::Missing(ConfigKey::HttpPort)),
        };
        if port < 0 || port > 65535 {
            return Err(ConfigError::PortOutOfRange(port));
        }
        Ok(
            Config {
                github: Github { token },
                builds: Builds { owner, repo, branch, artifact_prefix },
                http: Http { port: port as u16 },
            },
        )
    }

    /// The files read for `environment`, lowest precedence first:
    /// `config.yaml`, `config.local.yaml`, `config.{environment}.yaml` and
    /// `config.{environment}.local.yaml`.
    pub fn source_files(environment: &str) -> (r: Vec<String>)
        ensures
            r@.len() == 4,
            r@[0]@ == "config.yaml"@,
            r@[1]@ == "config.local.yaml"@,
            r@[2]@ == "config."@ + environment@ + ".yaml"@,
            r@[3]@ == "config."@ + environment@ + ".local.yaml"@,
    {
        let mut r: Vec<String> = Vec::new();
        r.push(String::from_str("config.yaml"));
        r.push(String::from_str("config.local.yaml"));
        let mut named = String::from_str("config.");
        named.append(environment);
        named.append(".yaml");
        r.push(named);
        let mut named_local = String::from_str("config.");
        named_local.append(environment);
        named_local.append(".local.yaml");
        r.push(named_local);
        r
    }
}

} // verus!
