//! The user's configuration: its defaults, how it is read from the stored
//! TOML text, and how the target game version is changed.
//!
//! A configuration always names a game version and a loader. Where the
//! stored text does not give one, the default stands in for it.

use crate::model::{Config, ConfigView, MinecraftVersions, MinecraftVersionsView};
use crate::text::same_text;
use vstd::prelude::*;
use vstd::string::StringExecFns;

verus! {

/// A parsed TOML document. Nothing is known of it but its string entries,
/// which [`toml_strings`] names.
#[verifier::external_type_specification]
#[verifier::external_body]
pub struct ExTomlValue(toml::Value);

/// Why a text is no TOML document.
#[verifier::external_type_specification]
#[verifier::external_body]
pub struct ExTomlError(toml::de::Error);

/// The string entries at the top of a parsed document: each key whose value
/// is a string, with that string.
pub uninterp spec fn toml_strings(document: toml::Value) -> Map<Seq<char>, Seq<char>>;

/// The string entries at the top of the document that `text` is, or `None`
/// where `text` is no TOML document.
pub uninterp spec fn toml_text_strings(text: Seq<char>) -> Option<Map<Seq<char>, Seq<char>>>;

/// Calls `toml::from_str` for a `toml::Value`. Whether the text parses, and
/// the string entries of the document if it does, depend on the text alone.
#[verifier::external_body]
fn parse_document(text: &str) -> (parsed: Result<toml::Value, toml::de::Error>)
    ensures
        match parsed {
            Ok(document) => toml_text_strings(text@) == Some(toml_strings(document)),
            Err(_) => toml_text_strings(text@) is None,
        },
{
    toml::from_str::<toml::Value>(text)
}

/// Calls `toml::Value::get` with a key and `toml::Value::as_str` on what it
/// finds: the string under `key` at the top of the document, or `None` where
/// the document has no such key or holds something else than a string there.
#[verifier::external_body]
fn string_entry(document: &toml::Value, key: &str) -> (entry: Option<String>)
    ensures
        match entry {
            Some(text) => toml_strings(*document).contains_key(key@) && toml_strings(
                *document,
            )[key@] == text@,
            None => !toml_strings(*document).contains_key(key@),
        },
{
    document.get(key).and_then(toml::Value::as_str).map(str::to_string)
}

/// The game version of a configuration that names none.
pub open spec fn default_version() -> Seq<char> {
    "1.16.5"@
}

/// The loader of a configuration that names none.
pub open spec fn default_loader() -> Seq<char> {
    "fabric"@
}

/// The configuration that is used where none is stored.
pub open spec fn default_config() -> ConfigView {
    ConfigView { version: default_version(), loader: default_loader() }
}

/// A stored field is usable when it is there and not empty.
pub open spec fn usable(field: Option<Seq<char>>) -> bool {
    field matches Some(text) && text.len() > 0
}

/// The configuration that is made of what could be read field by field:
/// each usable field as it is, and the default for each other one.
pub open spec fn config_of_fields(
    version: Option<Seq<char>>,
    loader: Option<Seq<char>>,
) -> ConfigView {
    ConfigView {
        version: if usable(version) {
            version->0
        } else {
            default_version()
        },
        loader: if usable(loader) {
            loader->0
        } else {
            default_loader()
        },
    }
}

/// The entry under `key`, where the text is a document that has one.
pub open spec fn stored_field(
    entries: Option<Map<Seq<char>, Seq<char>>>,
    key: Seq<char>,
) -> Option<Seq<char>> {
    match entries {
        Some(map) if map.contains_key(key) => Some(map[key]),
        _ => None,
    }
}

/// What is read from stored entries: the configuration, and whether the
/// stored text was intact, that is, gave both fields.
pub open spec fn config_of_entries(entries: Option<Map<Seq<char>, Seq<char>>>) -> (
    ConfigView,
    bool,
) {
    let version = stored_field(entries, "version"@);
    let loader = stored_field(entries, "loader"@);
    (config_of_fields(version, loader), usable(version) && usable(loader))
}

/// A configuration read from stored text.
#[derive(Debug, Clone, PartialEq)]
pub struct ConfigReading {
    /// The configuration to go on with.
    pub config: Config,
    /// Whether the text gave both fields. Where it did not, the stored text
    /// is to be moved aside and `config` stored in its place.
    pub intact: bool,
}

/// The view of an optional string.
pub open spec fn field_view(field: Option<String>) -> Option<Seq<char>> {
    match field {
        Some(text) => Some(text@),
        None => None,
    }
}

impl Config {
    /// A configuration names a game version and a loader.
    pub open spec fn is_complete(&self) -> bool {
        self@.version.len() > 0 && self@.loader.len() > 0
    }

    /// The configuration made of the fields that could be read: each field
    /// that is there and not empty as it is, the default for each other one.
    pub fn from_fields(version: Option<String>, loader: Option<String>) -> (config: Config)
        ensures
            config@ == config_of_fields(field_view(version), field_view(loader)),
            config.is_complete(),
    {
        proof {
            reveal_strlit("1.16.5");
            reveal_strlit("fabric");
        }
        let version = match version {
            Some(text) => if text.as_str().is_empty() {
                String::from_str("1.16.5")
            } else {
                text
            },
            None => String::from_str("1.16.5"),
        };
        let loader = match loader {
            Some(text) => if text.as_str().is_empty() {
                String::from_str("fabric")
            } else {
                text
            },
            None => String::from_str("fabric"),
        };
        Config { version, loader }
    }

    /// Reads the configuration from stored TOML text, as far as it can be
    /// read: a field that the text gives as a string that is not empty is
    /// taken, and the default stands for each other one.
    pub fn read(text: &str) -> (reading: ConfigReading)
        ensures
            (reading.config@, reading.intact) == config_of_entries(toml_text_strings(text@)),
            reading.config.is_complete(),
    {
        match parse_document(text) {
            Ok(document) => {
                let version = string_entry(&document, "version");
                let loader = string_entry(&document, "loader");
                let intact = Self::field_usable(&version) && Self::field_usable(&loader);
                ConfigReading { config: Config::from_fields(version, loader), intact }
            },
            Err(_) => ConfigReading { config: Config::from_fields(None, None), intact: false },
        }
    }

    /// Whether a stored field is there and not empty.
    fn field_usable(field: &Option<String>) -> (yes: bool)
        ensures
            yes == usable(field_view(*field)),
    {
        match field {
            Some(text) => !text.as_str().is_empty(),
            None => false,
        }
    }

    /// Sets the target game version to `id` if the manifest knows it, and
    /// leaves the configuration as it is if not. Says whether it was set.
    pub fn set_version(&mut self, manifest: &MinecraftVersions, id: &str) -> (set: bool)
        ensures
            set == known_version(manifest@, id@),
            final(self)@.loader == old(self)@.loader,
            final(self)@.version == if set {
                id@
            } else {
                old(self)@.version
            },
            old(self).is_complete() ==> final(self).is_complete(),
    {
        match manifest.find_version(id) {
            Some(_) => {
                self.version = String::from_str(id);
                true
            },
            None => false,
        }
    }

    /// The text that shows this configuration: its game version.
    pub fn to_text(&self) -> (text: String)
        ensures
            text@ == self@.version,
    {
        self.version.clone()
    }
}

impl Default for Config {
    fn default() -> (config: Config)
        ensures
            config@ == default_config(),
            config.is_complete(),
    {
        proof {
            reveal_strlit("1.16.5");
            reveal_strlit("fabric");
        }
        Config { version: String::from_str("1.16.5"), loader: String::from_str("fabric") }
    }
}

/// The manifest lists a game version `id`, and `id` is not empty.
pub open spec fn known_version(manifest: MinecraftVersionsView, id: Seq<char>) -> bool {
    id.len() > 0 && exists|i: int| 0 <= i < manifest.versions.len() && manifest.versions[i].id == id
}

impl MinecraftVersions {
    /// The position of the first game version `id` in the manifest, if `id`
    /// is not empty and the manifest lists it.
    pub fn find_version(&self, id: &str) -> (found: Option<usize>)
        ensures
            found is Some <==> known_version(self@, id@),
            found matches Some(i) ==> {
                &&& i < self@.versions.len()
                &&& self@.versions[i as int].id == id@
                &&& forall|j: int| 0 <= j < i ==> self@.versions[j].id != id@
            },
    {
        if id.is_empty() {
            return None;
        }
        let mut i: usize = 0;
        while i < self.versions.len()
            invariant
                0 <= i <= self.versions@.len(),
                id@.len() > 0,
                self@.versions.len() == self.versions@.len(),
                forall|j: int| 0 <= j < i ==> self@.versions[j].id != id@,
            decreases self.versions@.len() - i,
        {
            assert(self@.versions[i as int] == self.versions@[i as int]@);
            if same_text(self.versions[i].id.as_str(), id) {
                return Some(i);
            }
            i += 1;
        }
        None
    }
}

} // verus!
