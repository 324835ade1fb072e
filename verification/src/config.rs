//! The manifest as the core sees it: a package section and the raw
//! dependency declarations, with their parsing into descriptors. Reading
//! the manifest file and decoding its text are the caller's I/O.

use vstd::prelude::*;
use vstd::string::StringExecFns;
use crate::decl::DeclValue;
use crate::dependency::DependencySource;
use crate::dependency::DependencyError;
use crate::dependency::dependency_error_message;
use crate::dependency::parse_error_matches;
use crate::dependency::parse_ok;
use crate::dependency::source_matches;
use crate::dependency::source_wf;

verus! {

/// The `package` section of a manifest.
#[derive(Debug, Clone, PartialEq, Eq)]
pub struct Package {
    pub name: String,
    pub version: String,
    pub description: Option<String>,
}

/// A manifest: its package section and its dependency declarations, in
/// manifest order.
#[derive(Debug, Clone)]
pub struct MarkdownConfig {
    pub package: Package,
    pub dependencies: Vec<(String, DeclValue)>,
}

/// A manifest that could not be used, with the failing stage's message.
#[derive(Debug, Clone, PartialEq, Eq)]
pub enum ConfigError {
    ReadError(String),
    ParseError(String),
    DependencyError(DependencyError),
    NotFound(String),
}

/// Message text of a manifest error, as reporting shows it.
pub open spec fn config_error_message(e: ConfigError) -> Seq<char> {
    match e {
        ConfigError::ReadError(m) => "Failed to read config file: "@ + m@,
        ConfigError::ParseError(m) => "Failed to parse TOML: "@ + m@,
        ConfigError::DependencyError(d) => "Dependency error: "@ + dependency_error_message(d),
        ConfigError::NotFound(m) => "Config file not found: "@ + m@,
    }
}

impl ConfigError {
    /// Human-readable message of this error.
    pub fn message(&self) -> (r: String)
        ensures
            r@ == config_error_message(*self),
    {
        match self {
            ConfigError::ReadError(m) => {
                let mut t = String::from_str("Failed to read config file: ");
                t.append(m.as_str());
                t
            },
            ConfigError::ParseError(m) => {
                let mut t = String::from_str("Failed to parse TOML: ");
                t.append(m.as_str());
                t
            },
            ConfigError::DependencyError(d) => {
                let mut t = String::from_str("Dependency error: ");
                let dm = d.message();
                t.append(dm.as_str());
                t
            },
            ConfigError::NotFound(m) => {
                let mut t = String::from_str("Config file not found: ");
                t.append(m.as_str());
                t
            },
        }
    }
}

impl MarkdownConfig {
    /// Parse every declaration into a descriptor, keeping names and order.
    /// The first malformed declaration fails the whole manifest: a
    /// declaration error is fatal to the batch, and nothing is fetched.
    pub fn parse_dependencies(&self) -> (r: Result<Vec<(String, DependencySource)>, ConfigError>)
        ensures
            r is Ok <==> (forall|i: int|
                0 <= i < self.dependencies@.len() ==> parse_ok(#[trigger] self.dependencies@[i].1)),
            r matches Ok(deps) ==> {
                &&& deps@.len() == self.dependencies@.len()
                &&& forall|i: int|
                    0 <= i < deps@.len() ==> (#[trigger] deps@[i]).0 == self.dependencies@[i].0
                        && source_matches(deps@[i].1, self.dependencies@[i].1)
                        && source_wf(deps@[i].1)
            },
            r matches Err(e) ==> (e matches ConfigError::DependencyError(de) && exists|i: int|
                0 <= i < self.dependencies@.len() && !parse_ok(#[trigger] self.dependencies@[i].1)
                    && parse_error_matches(de, self.dependencies@[i].1) && (forall|j: int|
                    0 <= j < i ==> parse_ok(#[trigger] self.dependencies@[j].1))),
    {
        let mut deps: Vec<(String, DependencySource)> = Vec::new();
        let n = self.dependencies.len();
        let mut i: usize = 0;
        while i < n
            invariant
                i <= n,
                n == self.dependencies@.len(),
                deps@.len() == i as nat,
                forall|k: int|
                    0 <= k < i ==> (#[trigger] deps@[k]).0 == self.dependencies@[k].0
                        && source_matches(deps@[k].1, self.dependencies@[k].1)
                        && source_wf(deps@[k].1),
                forall|k: int| 0 <= k < i ==> parse_ok(#[trigger] self.dependencies@[k].1),
            decreases n - i,
        {
            let name = self.dependencies[i].0.clone();
            match DependencySource::parse(&self.dependencies[i].1) {
                Ok(src) => {
                    deps.push((name, src));
                },
                Err(e) => {
                    proof {
                        assert(!parse_ok(self.dependencies@[i as int].1));
                    }
                    return Err(ConfigError::DependencyError(e));
                },
            }
            i = i + 1;
        }
        Ok(deps)
    }

    /// The manifest a new project starts from: the given name, version
    /// `0.1.0`, a stock description, and no dependencies.
    pub fn default_template(name: &str) -> (c: MarkdownConfig)
        ensures
            c.package.name@ == name@,
            c.package.version@ == "0.1.0"@,
            c.package.description matches Some(d) && d@
                == "A collection of Markdown documentation files"@,
            c.dependencies@.len() == 0,
    {
        MarkdownConfig {
            package: Package {
                name: name.to_owned(),
                version: String::from_str("0.1.0"),
                description: Some(String::from_str("A collection of Markdown documentation files")),
            },
            dependencies: Vec::new(),
        }
    }
}

} // verus!
