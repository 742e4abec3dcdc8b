//! The stored configuration: the API key and the model's name.

use vstd::prelude::*;
use crate::error::{text_result, Error, Failure};
use crate::table::{
    all_text, empty_table, entries_of, item_text, parse_table, parsed_toml, put_text,
    render_table, rendered_toml, table_item, TomlItem,
};
use crate::text::{trim, trimmed};

verus! {

/// What authorises and parametrises a translation request.
#[derive(Debug, Clone, PartialEq, Eq)]
pub struct Config {
    pub api_key: String,
    pub model: String,
}

/// A [`Config`] as contracts speak of it.
pub struct ConfigView {
    pub api_key: Seq<char>,
    pub model: Seq<char>,
}

impl View for Config {
    type V = ConfigView;

    open spec fn view(&self) -> ConfigView {
        ConfigView { api_key: self.api_key@, model: self.model@ }
    }
}

impl ConfigView {
    /// Both fields are non-empty, as they are in a configuration worth storing.
    pub open spec fn valid(self) -> bool {
        self.api_key.len() > 0 && self.model.len() > 0
    }
}

/// A configuration or a failure as contracts speak of it.
pub open spec fn config_result(r: Result<Config, Error>) -> Result<ConfigView, Failure> {
    match r {
        Ok(c) => Ok(c@),
        Err(e) => Err(e@),
    }
}

/// The entries of the table that stores `c`: its two fields, each a string
/// under the field's name.
pub open spec fn config_entries(c: ConfigView) -> Map<Seq<char>, TomlItem> {
    Map::empty().insert("api_key"@, TomlItem::Text(c.api_key)).insert(
        "model"@,
        TomlItem::Text(c.model),
    )
}

/// The string under `key`, where the entries have that key and hold a
/// string there.
pub open spec fn text_entry(entries: Map<Seq<char>, TomlItem>, key: Seq<char>) -> Option<
    Seq<char>,
> {
    if entries.contains_key(key) {
        match entries[key] {
            TomlItem::Text(s) => Some(s),
            TomlItem::Other => None,
        }
    } else {
        None
    }
}

/// The configuration that a table stores. Both fields must be there as
/// strings; what else the table holds does not count.
pub open spec fn config_in(entries: Map<Seq<char>, TomlItem>) -> Result<ConfigView, Failure> {
    match (text_entry(entries, "api_key"@), text_entry(entries, "model"@)) {
        (Some(api_key), Some(model)) => Ok(ConfigView { api_key, model }),
        _ => Err(Failure::ConfigMissingOrInvalid),
    }
}

/// The configuration that the configuration file stores, where `contents`
/// is the file's text, or `None` for a file that is not there.
pub open spec fn config_in_file(contents: Option<Seq<char>>) -> Result<ConfigView, Failure> {
    match contents {
        Some(text) => match parsed_toml(text) {
            Some(entries) => config_in(entries),
            None => Err(Failure::ConfigMissingOrInvalid),
        },
        None => Err(Failure::ConfigMissingOrInvalid),
    }
}

/// Whether `text`, as the contents of the configuration file, stores `c`.
pub open spec fn reads_back(text: Seq<char>, c: ConfigView) -> bool {
    config_in_file(Some(text)) == Ok::<ConfigView, Failure>(c)
}

/// What writing the configuration `c` gives. A configuration with an empty
/// field is not stored: it is refused as invalid. For any other the result
/// is its table as TOML, where that text can be made and reads back as `c`,
/// and the failure `Io` where it cannot.
pub open spec fn written_config(c: ConfigView) -> Result<Seq<char>, Failure> {
    if !c.valid() {
        Err(Failure::ConfigMissingOrInvalid)
    } else {
        match rendered_toml(config_entries(c)) {
            Some(text) => if reads_back(text, c) {
                Ok(text)
            } else {
                Err(Failure::Io)
            },
            None => Err(Failure::Io),
        }
    }
}

/// The path of the configuration file for the configuration directory
/// `dir`: the file `trlt.toml` inside it, and `DirectoryResolution` where
/// there is no such directory.
pub open spec fn config_path_in(dir: Option<std::path::PathBuf>) -> Result<
    std::path::PathBuf,
    Failure,
> {
    match dir {
        Some(d) => Ok(joined(d, "trlt.toml"@)),
        None => Err(Failure::DirectoryResolution),
    }
}

/// A path or a failure as contracts speak of it.
pub open spec fn path_result(r: Result<std::path::PathBuf, Error>) -> Result<
    std::path::PathBuf,
    Failure,
> {
    match r {
        Ok(p) => Ok(p),
        Err(e) => Err(e@),
    }
}

/// `std::path::PathBuf`, a path of the file system.
#[verifier::external_type_specification]
#[verifier::external_body]
pub struct ExPathBuf(std::path::PathBuf);

/// Calls `dirs::config_dir`: the per-user configuration directory, or `None`
/// where there is none to be found. The result depends on the platform and
/// on the environment, so nothing is stated of it.
#[verifier::external_body]
fn user_config_dir() -> (dir: Option<std::path::PathBuf>) {
    dirs::config_dir()
}

/// The path that `Path::join` makes of the directory `dir` and the name
/// `name`: for a plain file name, the file of that name inside `dir`. It
/// is made from the two alone; no file system is asked.
pub uninterp spec fn joined(dir: std::path::PathBuf, name: Seq<char>) -> std::path::PathBuf;

/// Calls `Path::join`: the result is the path that `dir` and `name` give
/// when joined, `joined(dir, name)`.
#[verifier::external_body]
fn path_inside(dir: &std::path::PathBuf, name: &str) -> (path: std::path::PathBuf)
    ensures
        path == joined(*dir, name@),
{
    dir.join(name)
}

/// Reads the string under `key` from a table.
fn entry_text(t: &toml::map::Map<String, toml::Value>, key: &str) -> (r: Option<String>)
    ensures
        match r {
            Some(s) => text_entry(entries_of(*t), key@) == Some(s@),
            None => text_entry(entries_of(*t), key@) is None,
        },
{
    match table_item(t, key) {
        Some(v) => item_text(v),
        None => None,
    }
}

/// A configuration that is written to a table and read back from it is the
/// same configuration.
pub proof fn lemma_config_round_trip(c: ConfigView)
    ensures
        config_in(config_entries(c)) == Ok::<ConfigView, Failure>(c),
        all_text(config_entries(c)),
{
    reveal_strlit("api_key");
    reveal_strlit("model");
    assert("api_key"@.len() != "model"@.len());
}

/// The name of the configuration file in the per-user configuration directory.
pub fn config_file_name() -> (name: &'static str)
    ensures
        name@ == "trlt.toml"@,
{
    "trlt.toml"
}

/// The line that is shown once the configuration file at `path` is written.
pub fn created_message(path: &str) -> (line: String)
    ensures
        line@ == "Config file created successfully in "@ + path@,
{
    String::from_str("Config file created successfully in ").concat(path)
}

/// The line that asks for the API key.
pub fn key_prompt() -> (line: &'static str)
    ensures
        line@ == "Provide the OpenAI API key: "@,
{
    "Provide the OpenAI API key: "
}

impl Config {
    /// The API key that a typed line gives: the line without the whitespace
    /// at its two ends.
    pub fn key_from_line(line: &str) -> (key: String)
        ensures
            key@ == trimmed(line@),
    {
        trim(line)
    }

    /// Makes a configuration from a key, if one is given, and a model. Without
    /// a key it asks `prompt` for a line, once, and takes the key from that
    /// line; a failure of `prompt` is handed on. With a key `prompt` is not
    /// called.
    pub fn new<P: FnOnce() -> Result<String, Error>>(
        api_key: Option<String>,
        model: String,
        prompt: P,
    ) -> (r: Result<Config, Error>)
        requires
            api_key is None ==> prompt.requires(()),
        ensures
            match api_key {
                Some(key) => r matches Ok(c) && c.api_key == key && c.model == model,
                None => exists|answer: Result<String, Error>| #[trigger]
                    prompt.ensures((), answer) && match answer {
                        Ok(line) => r matches Ok(c) && c.api_key@ == trimmed(line@) && c.model
                            == model,
                        Err(e) => r == Err::<Config, Error>(e),
                    },
            },
    {
        match api_key {
            Some(key) => Ok(Config { api_key: key, model }),
            None => {
                match prompt() {
                    Ok(line) => Ok(Config { api_key: Config::key_from_line(line.as_str()), model }),
                    Err(e) => Err(e),
                }
            },
        }
    }

    /// The table that stores this configuration.
    pub fn to_table(&self) -> (t: toml::map::Map<String, toml::Value>)
        ensures
            entries_of(t) == config_entries(self@),
    {
        let mut t = empty_table();
        put_text(&mut t, String::from_str("api_key"), self.api_key.clone());
        put_text(&mut t, String::from_str("model"), self.model.clone());
        t
    }

    /// The configuration that a table stores, or `ConfigMissingOrInvalid`
    /// where it stores none.
    pub fn from_table(t: &toml::map::Map<String, toml::Value>) -> (r: Result<Config, Error>)
        ensures
            config_result(r) == config_in(entries_of(*t)),
    {
        match entry_text(t, "api_key") {
            Some(api_key) => match entry_text(t, "model") {
                Some(model) => Ok(Config { api_key, model }),
                None => Err(Error::ConfigMissingOrInvalid),
            },
            None => Err(Error::ConfigMissingOrInvalid),
        }
    }

    /// The text that the configuration file is to hold for this
    /// configuration: its table as TOML. A configuration with an empty key
    /// or model is not stored: the write fails with
    /// `ConfigMissingOrInvalid`. The text is handed out only where it reads
    /// back as this configuration, so that what is written can be read;
    /// where no such text can be made, the write fails with `Io`.
    pub fn write_to_file(&self) -> (r: Result<String, Error>)
        ensures
            text_result(r) == written_config(self@),
            r matches Ok(s) ==> self@.valid() && config_in_file(Some(s@)) == Ok::<
                ConfigView,
                Failure,
            >(self@),
    {
        if !self.is_valid() {
            return Err(Error::ConfigMissingOrInvalid);
        }
        let t = self.to_table();
        proof {
            lemma_config_round_trip(self@);
        }
        match render_table(&t) {
            Some(text) => match Config::read_from_file(Some(text.clone())) {
                Ok(back) => if back.api_key == self.api_key && back.model == self.model {
                    Ok(text)
                } else {
                    Err(Error::Io)
                },
                Err(_) => Err(Error::Io),
            },
            None => Err(Error::Io),
        }
    }

    /// The configuration that the configuration file stores, where
    /// `contents` is the file's text, or `None` for a file that is not
    /// there. A missing file, a text that is not TOML and a table without
    /// the two fields all give `ConfigMissingOrInvalid`.
    pub fn read_from_file(contents: Option<String>) -> (r: Result<Config, Error>)
        ensures
            config_result(r) == config_in_file(
                match contents {
                    Some(text) => Some(text@),
                    None => None,
                },
            ),
    {
        match contents {
            Some(text) => match parse_table(text.as_str()) {
                Some(t) => Config::from_table(&t),
                None => Err(Error::ConfigMissingOrInvalid),
            },
            None => Err(Error::ConfigMissingOrInvalid),
        }
    }

    /// The path of the configuration file inside the configuration
    /// directory `dir`: the file `trlt.toml` in it, or `DirectoryResolution`
    /// where there is no such directory.
    pub fn path_in(dir: Option<std::path::PathBuf>) -> (r: Result<std::path::PathBuf, Error>)
        ensures
            path_result(r) == config_path_in(dir),
    {
        match dir {
            Some(d) => Ok(path_inside(&d, config_file_name())),
            None => Err(Error::DirectoryResolution),
        }
    }

    /// The path of the configuration file of this user: the file
    /// `trlt.toml` inside the per-user configuration directory, or
    /// `DirectoryResolution` where that directory cannot be determined.
    /// Which directory that is depends on the platform and on the
    /// environment.
    pub fn config_path() -> (r: Result<std::path::PathBuf, Error>)
        ensures
            match r {
                Ok(p) => exists|d: std::path::PathBuf| p == joined(d, "trlt.toml"@),
                Err(e) => e@ == Failure::DirectoryResolution,
            },
    {
        Config::path_in(user_config_dir())
    }

    /// Tells whether both fields are non-empty.
    pub fn is_valid(&self) -> (b: bool)
        ensures
            b == self@.valid(),
    {
        !self.api_key.as_str().is_empty() && !self.model.as_str().is_empty()
    }
}

} // verus!
