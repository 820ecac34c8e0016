//! The rules of the web service: what a request is answered with, given
//! what the database and the configuration hold.

use vstd::prelude::*;

pub mod database;
pub mod routes;

verus! {

/// What the service needs to know to run.
#[derive(Clone, Debug, PartialEq, Eq)]
pub struct FlygSettings {
    /// Where the database is.
    pub database_url: String,
    /// The RSA key with which tokens are signed, in PEM.
    pub private_key: String,
    /// The RSA key with which tokens are checked, in PEM.
    pub public_key: String,
}

/// What the configuration file says: where the database is, and in which
/// files the keys are. An entry that the file does not hold is empty.
#[derive(Clone, Debug, PartialEq, Eq)]
pub struct ConfigurationEntries {
    /// The entry `url` of the table `global.databases.flyg_database`.
    pub database_url: String,
    /// The entry `public_key` of the table `global.flyg.token`.
    pub public_key_file: String,
    /// The entry `private_key` of the table `global.flyg.token`.
    pub private_key_file: String,
}

/// A value of a TOML document.
#[verifier::external_type_specification]
#[verifier::external_body]
pub struct ExTomlValue(toml::Value);

/// What a TOML value holds: each path of keys that leads from the value to
/// something that `toml::to_string` can write out, with what it writes. The
/// empty path leads to the value itself, and a path that starts with a key
/// leads on from the entry of that name, where the value is a table that
/// has one.
pub uninterp spec fn toml_entries(value: toml::Value) -> Map<Seq<Seq<char>>, Seq<char>>;

/// What the table holds that a text spells as a TOML document, as
/// `toml::from_str` reads it; `None` where the text is no TOML document.
pub uninterp spec fn toml_document(text: Seq<char>) -> Option<Map<Seq<Seq<char>>, Seq<char>>>;

/// What is found below the key `key`: the paths that start with `key`,
/// without it.
pub open spec fn below(entries: Map<Seq<Seq<char>>, Seq<char>>, key: Seq<char>) -> Map<
    Seq<Seq<char>>,
    Seq<char>,
> {
    Map::new(
        |path: Seq<Seq<char>>| entries.dom().contains(seq![key] + path),
        |path: Seq<Seq<char>>| entries[seq![key] + path],
    )
}

/// Whether nothing is found below the key `key`: no path starts with it.
pub open spec fn nothing_below(entries: Map<Seq<Seq<char>>, Seq<char>>, key: Seq<char>) -> bool {
    forall|path: Seq<Seq<char>>| !(#[trigger] entries.dom().contains(seq![key] + path))
}

/// `toml::from_str`, reading a document as a table: the table, or `None`
/// where the text is refused. The same text always reads the same.
#[verifier::external_body]
fn parse_document(text: &str) -> (document: Option<toml::Value>)
    ensures
        document matches Some(table) ==> toml_document(text@) == Some(toml_entries(table)),
        document is None ==> toml_document(text@) is None,
{
    toml::from_str::<toml::value::Table>(text).ok().map(toml::Value::Table)
}

/// `toml::Value::get` with a key: the entry of that name where `value` is a
/// table that has one, and `None` where it is no table or has none. What
/// the entry holds is what `value` holds below the key.
#[verifier::external_body]
fn child<'a>(value: &'a toml::Value, key: &str) -> (entry: Option<&'a toml::Value>)
    ensures
        entry matches Some(found) ==> toml_entries(*found) == below(toml_entries(*value), key@),
        entry is None ==> nothing_below(toml_entries(*value), key@),
{
    value.get(key)
}

/// `toml::to_string` of a value: the value written out as TOML, a string
/// between double quotes; `None` where the value cannot be written. What is
/// written is what the value holds at the empty path.
#[verifier::external_body]
fn written(value: &toml::Value) -> (text: Option<String>)
    ensures
        text matches Some(written) ==> toml_entries(*value).dom().contains(Seq::empty())
            && toml_entries(*value)[Seq::empty()] == written@,
        text is None ==> !toml_entries(*value).dom().contains(Seq::empty()),
{
    toml::to_string(value).ok()
}

/// `str::replace` of the standard library with a single character as the
/// pattern and nothing to put in its place: what is left of `text` when
/// every `unwanted` is taken out.
#[verifier::external_body]
fn without(text: &str, unwanted: char) -> (rest: String)
    ensures
        rest@ == text@.filter(|c: char| c != unwanted),
{
    text.replace(unwanted, "")
}

/// What a document says under `global.<section>.<group>.<key>`, given what
/// the document holds: the entry written out as TOML with every double
/// quote taken out, and nothing where the document has no such entry.
pub open spec fn entry_at(
    entries: Map<Seq<Seq<char>>, Seq<char>>,
    section: Seq<char>,
    group: Seq<char>,
    key: Seq<char>,
) -> Seq<char> {
    let path = seq!["global"@, section, group, key];
    if entries.dom().contains(path) {
        entries[path].filter(|c: char| c != '"')
    } else {
        Seq::empty()
    }
}

/// What a text says under `global.<section>.<group>.<key>` when read as a
/// TOML document; nothing where it is no TOML document.
pub open spec fn configured(
    text: Seq<char>,
    section: Seq<char>,
    group: Seq<char>,
    key: Seq<char>,
) -> Seq<char> {
    match toml_document(text) {
        Some(entries) => entry_at(entries, section, group, key),
        None => Seq::empty(),
    }
}

/// The entry `key` of the table `group` of the table `section` of the table
/// `global` of `document`, written out without double quotes; empty where
/// there is none.
fn entry(document: &toml::Value, section: &str, group: &str, key: &str) -> (text: String)
    ensures
        text@ == entry_at(toml_entries(*document), section@, group@, key@),
{
    let ghost entries = toml_entries(*document);
    let ghost path = seq!["global"@, section@, group@, key@];
    proof {
        assert(seq!["global"@] + seq![section@, group@, key@] =~= path);
        assert(seq![section@] + seq![group@, key@] =~= seq![section@, group@, key@]);
        assert(seq![group@] + seq![key@] =~= seq![group@, key@]);
        assert(seq![key@] + Seq::<Seq<char>>::empty() =~= seq![key@]);
    }
    let global = match child(document, "global") {
        Some(found) => found,
        None => {
            assert(!entries.dom().contains(seq!["global"@] + seq![section@, group@, key@]));
            return String::new();
        },
    };
    let found_section = match child(global, section) {
        Some(found) => found,
        None => {
            assert(!toml_entries(*global).dom().contains(seq![section@] + seq![group@, key@]));
            return String::new();
        },
    };
    let found_group = match child(found_section, group) {
        Some(found) => found,
        None => {
            assert(!toml_entries(*found_section).dom().contains(seq![group@] + seq![key@]));
            return String::new();
        },
    };
    let found = match child(found_group, key) {
        Some(found) => found,
        None => {
            assert(!toml_entries(*found_group).dom().contains(
                seq![key@] + Seq::<Seq<char>>::empty(),
            ));
            return String::new();
        },
    };
    proof {
        let leaf = toml_entries(*found);
        assert(leaf.dom().contains(Seq::empty()) == entries.dom().contains(path));
        assert(leaf.dom().contains(Seq::empty()) ==> leaf[Seq::empty()] == entries[path]);
    }
    match written(found) {
        Some(text) => without(text.as_str(), '"'),
        None => String::new(),
    }
}

/// Reads the entries of the configuration file with the given contents.
pub fn read_entries(contents: &str) -> (entries: ConfigurationEntries)
    ensures
        entries.database_url@ == configured(
            contents@,
            "databases"@,
            "flyg_database"@,
            "url"@,
        ),
        entries.public_key_file@ == configured(contents@, "flyg"@, "token"@, "public_key"@),
        entries.private_key_file@ == configured(contents@, "flyg"@, "token"@, "private_key"@),
{
    match parse_document(contents) {
        Some(document) => ConfigurationEntries {
            database_url: entry(&document, "databases", "flyg_database", "url"),
            public_key_file: entry(&document, "flyg", "token", "public_key"),
            private_key_file: entry(&document, "flyg", "token", "private_key"),
        },
        None => ConfigurationEntries {
            database_url: String::new(),
            public_key_file: String::new(),
            private_key_file: String::new(),
        },
    }
}

impl ConfigurationEntries {
    /// Whether the file said all that is needed: no entry is empty.
    pub open spec fn complete(&self) -> bool {
        self.database_url@.len() > 0 && self.public_key_file@.len() > 0
            && self.private_key_file@.len() > 0
    }

    /// Whether the file said all that is needed, so that the key files are
    /// worth reading: no entry is empty.
    pub fn is_complete(&self) -> (complete: bool)
        ensures
            complete == self.complete(),
    {
        !self.database_url.as_str().is_empty() && !self.public_key_file.as_str().is_empty()
            && !self.private_key_file.as_str().is_empty()
    }
}

/// Puts the settings together from the entries of the configuration file
/// and the contents of the two key files (`None` for a file that could not
/// be read).
///
/// There are settings where no entry is empty and both key files were read;
/// the service cannot run where there are none.
pub fn get_configuration(
    entries: ConfigurationEntries,
    public_key: Option<String>,
    private_key: Option<String>,
) -> (settings: Option<FlygSettings>)
    ensures
        settings is Some <==> entries.complete() && public_key is Some && private_key is Some,
        settings matches Some(found) ==> found.database_url == entries.database_url && Some(
            found.public_key,
        ) == public_key && Some(found.private_key) == private_key,
{
    if !entries.is_complete() {
        return None;
    }
    match (public_key, private_key) {
        (Some(public_key), Some(private_key)) => Some(
            FlygSettings { database_url: entries.database_url, private_key, public_key },
        ),
        _ => None,
    }
}

} // verus!
