//! Configuration of the scanner, the healing loop and the release pipeline,
//! with its defaults. Reading it from a file is the application's part.
use crate::text::string_views;
use vstd::prelude::*;

verus! {

#[derive(Debug, Clone)]
pub struct Config {
    pub meta: MetaConfig,
    pub oracle: OracleConfig,
    pub heal: HealConfig,
    pub ship: ShipConfig,
}

#[derive(Debug, Clone)]
pub struct MetaConfig {
    pub config_version: u32,
}

#[derive(Debug, Clone)]
pub struct OracleConfig {
    pub include_globs: Vec<String>,
    pub exclude_globs: Vec<String>,
    pub model_path: String,
}

#[derive(Debug, Clone)]
pub struct HealConfig {
    pub max_attempts: u32,
    pub ollama_endpoint: String,
    pub ollama_model: String,
    pub enabled: bool,
}

#[derive(Debug, Clone)]
pub struct ShipConfig {
    pub require_branches: Vec<String>,
    pub version_scheme: String,
}

/// The default configuration.
pub open spec fn is_default_config(c: Config) -> bool {
    &&& c.meta.config_version == 1
    &&& string_views(c.oracle.include_globs@) == seq!["src/**/*.rs"@, "src/**/*.py"@]
    &&& string_views(c.oracle.exclude_globs@) == seq!["target/"@, "venv/"@, ".git/"@]
    &&& c.oracle.model_path@ == "~/.arqonship/models/"@
    &&& c.heal.max_attempts == 2
    &&& c.heal.ollama_endpoint@ == "http://localhost:11434"@
    &&& c.heal.ollama_model@ == "qwen2.5-coder:7b-instruct"@
    &&& c.heal.enabled
    &&& string_views(c.ship.require_branches@) == seq!["main"@]
    &&& c.ship.version_scheme@ == "semver"@
}

fn default_config() -> (r: Config)
    ensures
        is_default_config(r),
{
    let mut include_globs: Vec<String> = Vec::new();
    include_globs.push("src/**/*.rs".to_owned());
    include_globs.push("src/**/*.py".to_owned());
    assert(string_views(include_globs@) =~= seq!["src/**/*.rs"@, "src/**/*.py"@]);
    let mut exclude_globs: Vec<String> = Vec::new();
    exclude_globs.push("target/".to_owned());
    exclude_globs.push("venv/".to_owned());
    exclude_globs.push(".git/".to_owned());
    assert(string_views(exclude_globs@) =~= seq!["target/"@, "venv/"@, ".git/"@]);
    let mut require_branches: Vec<String> = Vec::new();
    require_branches.push("main".to_owned());
    assert(string_views(require_branches@) =~= seq!["main"@]);
    Config {
        meta: MetaConfig { config_version: 1 },
        oracle: OracleConfig {
            include_globs,
            exclude_globs,
            model_path: "~/.arqonship/models/".to_owned(),
        },
        heal: HealConfig {
            max_attempts: 2,
            ollama_endpoint: "http://localhost:11434".to_owned(),
            ollama_model: "qwen2.5-coder:7b-instruct".to_owned(),
            enabled: true,
        },
        ship: ShipConfig { require_branches, version_scheme: "semver".to_owned() },
    }
}

impl Default for Config {
    fn default() -> (r: Config)
        ensures
            is_default_config(r),
    {
        default_config()
    }
}

impl Config {
    /// The default configuration.
    pub fn load_default() -> (r: Config)
        ensures
            is_default_config(r),
    {
        default_config()
    }
}

} // verus!
