//! The process's settings, as far as the library reads them.

use crate::sources::MetadataSources;
use config::Config;
use vstd::prelude::*;
use vstd::string::StringExecFns;

verus! {

/// `config::Config`: the settings as they were loaded. Nothing inside it is
/// seen here; it is read through the two lookups below.
#[verifier::external_type_specification]
#[verifier::external_body]
pub struct ExConfig(Config);

/// The settings of `cfg` that can be read as text, by key.
pub uninterp spec fn config_strings(cfg: Config) -> Map<Seq<char>, Seq<char>>;

/// The settings of `cfg` that can be read as a truth value, by key.
pub uninterp spec fn config_bools(cfg: Config) -> Map<Seq<char>, bool>;

/// `config::Config::get_string` looks `key` up in the settings that were
/// loaded. It gives the setting's text, or nothing where the key cannot be
/// read, there is no such setting, or the setting is no text.
#[verifier::external_body]
fn get_string(cfg: &Config, key: &str) -> (value: Option<String>)
    ensures
        match value {
            Some(v) => config_strings(*cfg).contains_key(key@) && config_strings(*cfg)[key@]
                == v@,
            None => !config_strings(*cfg).contains_key(key@),
        },
{
    cfg.get_string(key).ok()
}

/// `config::Config::get_bool` looks `key` up in the settings that were
/// loaded. It gives the setting's truth value, or nothing where the key
/// cannot be read, there is no such setting, or the setting is no truth
/// value.
#[verifier::external_body]
fn get_bool(cfg: &Config, key: &str) -> (value: Option<bool>)
    ensures
        match value {
            Some(v) => config_bools(*cfg).contains_key(key@) && config_bools(*cfg)[key@] == v,
            None => !config_bools(*cfg).contains_key(key@),
        },
{
    cfg.get_bool(key).ok()
}

/// What can be wrong with a directory that a setting names.
#[derive(Debug, Clone, Copy, PartialEq, Eq, Structural)]
pub enum DirectoryProblem {
    /// The setting is not there.
    Unset,
    /// Nothing is at the path.
    Missing,
    /// What is at the path is no directory.
    WrongType,
}

/// The settings, and the sources that they call for.
pub struct Configuration {
    pub config: Config,
    pub metadatasources: MetadataSources,
}

impl Configuration {
    /// The file of the local catalog that `cfg` names, if it names one.
    pub open spec fn catalog_file(cfg: Config) -> Option<Seq<char>> {
        if config_strings(cfg).contains_key("spotifydb"@) {
            Some(config_strings(cfg)["spotifydb"@])
        } else {
            None
        }
    }

    /// The words for a problem with the directory that the setting `dir`
    /// names.
    pub open spec fn problem_text(dir: Seq<char>, problem: DirectoryProblem) -> Seq<char> {
        "Directory '"@ + dir + match problem {
            DirectoryProblem::Unset => "' unset"@,
            DirectoryProblem::Missing => "' does not exist"@,
            DirectoryProblem::WrongType => "' is of wrong type"@,
        }
    }

    /// Takes the loaded settings and sets the sources up: the local catalog
    /// is among them exactly when the setting `spotifydb` names its file.
    pub fn open(config: Config) -> (c: Configuration)
        ensures
            c.config == config,
            c.metadatasources.spotifydb.is_some() == Configuration::catalog_file(config).is_some(),
            c.metadatasources.spotifydb matches Some(db) ==> Some(db.dbfile@)
                == Configuration::catalog_file(config),
    {
        let file = get_string(&config, "spotifydb");
        Configuration { metadatasources: MetadataSources::new(file), config }
    }

    /// The path that the setting `dir` names, or the words that say it is
    /// unset.
    pub fn get_directory(&self, dir: &str) -> (path: Result<String, String>)
        ensures
            match path {
                Ok(p) => config_strings(self.config).contains_key(dir@) && p@ == config_strings(
                    self.config,
                )[dir@],
                Err(e) => !config_strings(self.config).contains_key(dir@) && e@
                    == Configuration::problem_text(dir@, DirectoryProblem::Unset),
            },
    {
        match get_string(&self.config, dir) {
            Some(p) => Ok(p),
            None => Err(Configuration::directory_problem(dir, DirectoryProblem::Unset)),
        }
    }

    /// The words for a problem with the directory that the setting `dir`
    /// names.
    pub fn directory_problem(dir: &str, problem: DirectoryProblem) -> (text: String)
        ensures
            text@ == Configuration::problem_text(dir@, problem),
    {
        let mut text = String::from_str("Directory '");
        text.append(dir);
        match problem {
            DirectoryProblem::Unset => text.append("' unset"),
            DirectoryProblem::Missing => text.append("' does not exist"),
            DirectoryProblem::WrongType => text.append("' is of wrong type"),
        }
        text
    }

    /// The truth value of the setting `key`, if there is one.
    pub fn get_bool(&self, key: &str) -> (value: Option<bool>)
        ensures
            match value {
                Some(v) => config_bools(self.config).contains_key(key@) && config_bools(
                    self.config,
                )[key@] == v,
                None => !config_bools(self.config).contains_key(key@),
            },
    {
        get_bool(&self.config, key)
    }
}

} // verus!
