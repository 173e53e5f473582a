//! Settings of the service and how they are read from a TOML document.

use vstd::prelude::*;
use vstd::string::*;

verus! {

/// Name of the settings file inside the per-user settings directory.
pub const DFT_CONF_PATH: &'static str = "conf.toml";

/// The settings one operation works with. The record is read afresh for each
/// operation and never modified by the core.
#[derive(Clone, Debug, PartialEq, Eq)]
pub struct Config {
    /// Address of the remote repository.
    pub url: String,
    /// Directory of the local mirror.
    pub local_dir: String,
    /// Branch that every commit goes to.
    pub branch: String,
    /// Directory of the buffers, relative to the mirror's root.
    pub buffer_dir_rel: String,
    /// Private key used to authenticate over SSH.
    pub ssh_file: String,
}

/// One of the five settings.
#[derive(Clone, Copy, Debug, PartialEq, Eq, Structural)]
pub enum ConfigField {
    Url,
    LocalDir,
    Branch,
    BufferDirRel,
    SshFile,
}

/// Why a settings document was refused.
#[derive(Clone, Debug, PartialEq, Eq)]
pub enum ConfigError {
    /// The settings file could not be read; the cause is attached. The
    /// caller, who reads the file, reports this; parsing never does.
    Unreadable(String),
    /// The text is not a TOML document; the parser's account is attached.
    Malformed(String),
    /// The setting is absent, or its value is not a string.
    Missing(ConfigField),
}

/// `toml::map::Map`, the table that the TOML parser returns. Its contents
/// are known only through `table_strings`.
#[verifier::external_type_specification]
#[verifier::external_body]
#[verifier::reject_recursive_types(K)]
#[verifier::reject_recursive_types(V)]
pub struct ExTomlMap<K, V>(toml::map::Map<K, V>);

/// `toml::Value`, what a table holds under a key. It is only carried.
#[verifier::external_type_specification]
#[verifier::external_body]
pub struct ExTomlValue(toml::Value);

/// `toml::de::Error`, what the TOML parser fails with. It is only carried.
#[verifier::external_type_specification]
#[verifier::external_body]
pub struct ExTomlError(toml::de::Error);

/// The string-valued entries of a parsed table: each key whose value is a TOML
/// string, with that string.
pub uninterp spec fn table_strings(table: toml::map::Map<String, toml::Value>) -> Map<
    Seq<char>,
    Seq<char>,
>;

/// What the TOML parser makes of a text: `None` where it refuses the text,
/// else the string-valued entries of the document's top-level table.
pub uninterp spec fn toml_document(text: Seq<char>) -> Option<Map<Seq<char>, Seq<char>>>;

/// Calls the `FromStr` impl of `toml::Table`, which parses a whole document.
/// The contract only gives the outcome its name: `toml_document`.
#[verifier::external_body]
fn parse_table(text: &str) -> (r: Result<toml::map::Map<String, toml::Value>, toml::de::Error>)
    ensures
        match r {
            Ok(table) => toml_document(text@) == Some(table_strings(table)),
            Err(_) => toml_document(text@) is None,
        },
{
    text.parse::<toml::Table>()
}

/// Calls `toml::map::Map::get` and `toml::Value::as_str`: the value under
/// `key` if there is one and it is a string.
#[verifier::external_body]
fn table_str(table: &toml::map::Map<String, toml::Value>, key: &str) -> (r: Option<String>)
    ensures
        match r {
            Some(s) => table_strings(*table).contains_key(key@) && table_strings(*table)[key@]
                == s@,
            None => !table_strings(*table).contains_key(key@),
        },
{
    table.get(key).and_then(|v| v.as_str()).map(|s| s.to_string())
}

/// Writes a `toml::de::Error` out through its `Display` impl: where the
/// parser stopped and what it says went wrong. Nothing is claimed of the text.
#[verifier::external_body]
fn error_message(e: &toml::de::Error) -> String {
    e.to_string()
}

/// Name of each setting as it is written in the document.
pub open spec fn field_key(field: ConfigField) -> Seq<char> {
    match field {
        ConfigField::Url => "url"@,
        ConfigField::LocalDir => "local_dir"@,
        ConfigField::Branch => "branch"@,
        ConfigField::BufferDirRel => "buffer_dir_rel"@,
        ConfigField::SshFile => "ssh_file"@,
    }
}

/// Name of a setting as it is written in the document.
pub fn field_name(field: ConfigField) -> (name: &'static str)
    ensures
        name@ == field_key(field),
{
    match field {
        ConfigField::Url => "url",
        ConfigField::LocalDir => "local_dir",
        ConfigField::Branch => "branch",
        ConfigField::BufferDirRel => "buffer_dir_rel",
        ConfigField::SshFile => "ssh_file",
    }
}

impl ConfigError {
    /// The description: what is wrong with the settings, then the parser's
    /// message or the name of the setting.
    pub open spec fn described(self) -> Seq<char> {
        match self {
            ConfigError::Unreadable(cause) => "settings unreadable: "@ + cause@,
            ConfigError::Malformed(message) => "settings malformed: "@ + message@,
            ConfigError::Missing(field) => "setting missing: "@ + field_key(field),
        }
    }

    /// The description: what is wrong with the settings, then the parser's
    /// message or the name of the setting.
    pub fn describe(&self) -> (text: String)
        ensures
            text@ == self.described(),
    {
        match self {
            ConfigError::Unreadable(cause) => {
                let mut text = String::from_str("settings unreadable: ");
                text.append(cause.as_str());
                text
            },
            ConfigError::Malformed(message) => {
                let mut text = String::from_str("settings malformed: ");
                text.append(message.as_str());
                text
            },
            ConfigError::Missing(field) => {
                let mut text = String::from_str("setting missing: ");
                text.append(field_name(*field));
                text
            },
        }
    }
}

/// The record made of five looked-up settings, or the first of them, in the
/// order of the record's fields, that was not found.
pub open spec fn assembled(
    url: Option<String>,
    local_dir: Option<String>,
    branch: Option<String>,
    buffer_dir_rel: Option<String>,
    ssh_file: Option<String>,
) -> Result<Config, ConfigError> {
    if url is None {
        Err(ConfigError::Missing(ConfigField::Url))
    } else if local_dir is None {
        Err(ConfigError::Missing(ConfigField::LocalDir))
    } else if branch is None {
        Err(ConfigError::Missing(ConfigField::Branch))
    } else if buffer_dir_rel is None {
        Err(ConfigError::Missing(ConfigField::BufferDirRel))
    } else if ssh_file is None {
        Err(ConfigError::Missing(ConfigField::SshFile))
    } else {
        Ok(
            Config {
                url: url->0,
                local_dir: local_dir->0,
                branch: branch->0,
                buffer_dir_rel: buffer_dir_rel->0,
                ssh_file: ssh_file->0,
            },
        )
    }
}

/// The first setting, in the order of the record's fields, that a table's
/// string entries lack.
pub open spec fn first_missing(entries: Map<Seq<char>, Seq<char>>) -> Option<ConfigField> {
    if !entries.contains_key(field_key(ConfigField::Url)) {
        Some(ConfigField::Url)
    } else if !entries.contains_key(field_key(ConfigField::LocalDir)) {
        Some(ConfigField::LocalDir)
    } else if !entries.contains_key(field_key(ConfigField::Branch)) {
        Some(ConfigField::Branch)
    } else if !entries.contains_key(field_key(ConfigField::BufferDirRel)) {
        Some(ConfigField::BufferDirRel)
    } else if !entries.contains_key(field_key(ConfigField::SshFile)) {
        Some(ConfigField::SshFile)
    } else {
        None
    }
}

/// Whether `config` holds exactly the five settings found in `entries`.
pub open spec fn reads_from(config: Config, entries: Map<Seq<char>, Seq<char>>) -> bool {
    &&& config.url@ == entries[field_key(ConfigField::Url)]
    &&& config.local_dir@ == entries[field_key(ConfigField::LocalDir)]
    &&& config.branch@ == entries[field_key(ConfigField::Branch)]
    &&& config.buffer_dir_rel@ == entries[field_key(ConfigField::BufferDirRel)]
    &&& config.ssh_file@ == entries[field_key(ConfigField::SshFile)]
}

/// Whether `r` is the right answer for a document that the parser read as
/// `document`.
pub open spec fn config_outcome(
    document: Option<Map<Seq<char>, Seq<char>>>,
    r: Result<Config, ConfigError>,
) -> bool {
    match document {
        None => r matches Err(ConfigError::Malformed(_)),
        Some(entries) => match first_missing(entries) {
            Some(field) => r == Err::<Config, ConfigError>(ConfigError::Missing(field)),
            None => r matches Ok(config) && reads_from(config, entries),
        },
    }
}

impl Config {
    /// Builds the record from the five settings as they were looked up. It
    /// fails on the first one, in the order of the fields, that is absent.
    pub fn from_fields(
        url: Option<String>,
        local_dir: Option<String>,
        branch: Option<String>,
        buffer_dir_rel: Option<String>,
        ssh_file: Option<String>,
    ) -> (r: Result<Config, ConfigError>)
        ensures
            r == assembled(url, local_dir, branch, buffer_dir_rel, ssh_file),
    {
        let url = match url {
            Some(v) => v,
            None => { return Err(ConfigError::Missing(ConfigField::Url)); },
        };
        let local_dir = match local_dir {
            Some(v) => v,
            None => { return Err(ConfigError::Missing(ConfigField::LocalDir)); },
        };
        let branch = match branch {
            Some(v) => v,
            None => { return Err(ConfigError::Missing(ConfigField::Branch)); },
        };
        let buffer_dir_rel = match buffer_dir_rel {
            Some(v) => v,
            None => { return Err(ConfigError::Missing(ConfigField::BufferDirRel)); },
        };
        let ssh_file = match ssh_file {
            Some(v) => v,
            None => { return Err(ConfigError::Missing(ConfigField::SshFile)); },
        };
        Ok(Config { url, local_dir, branch, buffer_dir_rel, ssh_file })
    }
}

/// Reads the settings from the text of a settings file.
///
/// The text must be a TOML document whose top-level table holds the five
/// settings as strings; other entries are ignored. A text that is no TOML
/// document gives `Malformed`; otherwise the first setting that is absent or
/// not a string gives `Missing`.
pub fn get_config(conf_text: &str) -> (r: Result<Config, ConfigError>)
    ensures
        config_outcome(toml_document(conf_text@), r),
{
    match parse_table(conf_text) {
        Err(e) => Err(ConfigError::Malformed(error_message(&e))),
        Ok(table) => {
            let url = table_str(&table, "url");
            let local_dir = table_str(&table, "local_dir");
            let branch = table_str(&table, "branch");
            let buffer_dir_rel = table_str(&table, "buffer_dir_rel");
            let ssh_file = table_str(&table, "ssh_file");
            Config::from_fields(url, local_dir, branch, buffer_dir_rel, ssh_file)
        },
    }
}

/// Path of the settings file of the user whose home directory is `home`.
pub open spec fn dft_conf_path(home: Seq<char>) -> Seq<char> {
    home + "/.simple-text/"@ + DFT_CONF_PATH@
}

/// Path of the settings file of the user whose home directory is `home`:
/// the file `conf.toml` in the directory `.simple-text` under it.
pub fn get_dft_conf(home: &str) -> (path: String)
    ensures
        path@ == dft_conf_path(home@),
{
    let mut path = String::from_str(home);
    path.append("/.simple-text/");
    path.append(DFT_CONF_PATH);
    path
}

} // verus!
