//! The directories and packages whose build scripts are named in the
//! user's configuration file.

use vstd::prelude::*;
use crate::document::{entry_in, entry_of, parse, toml_document, value_of, Item};
use crate::paths::{path_starts_with, starts_with};
use crate::text::{same_text, text_of_str, texts};

verus! {

/// What the configuration file names.
#[derive(Debug, Default)]
pub struct Config {
    /// The directories of the `allow` table and then of the `ignore` table.
    pub directories: Vec<String>,
    /// The packages of the `allow` table and then of the `ignore` table.
    pub packages: Vec<String>,
    /// The tables of the file that are neither `allow` nor `ignore`.
    pub unrecognized: Vec<String>,
}

/// The mathematical value of a [`Config`].
pub struct Policy {
    pub directories: Seq<Seq<char>>,
    pub packages: Seq<Seq<char>>,
    pub unrecognized: Seq<Seq<char>>,
}

impl View for Config {
    type V = Policy;

    open spec fn view(&self) -> Policy {
        Policy {
            directories: texts(self.directories@),
            packages: texts(self.packages@),
            unrecognized: texts(self.unrecognized@),
        }
    }
}

/// The strings among `items[i..]`, in order.
pub open spec fn strings_from(items: Seq<Item>, i: int) -> Seq<Seq<char>>
    decreases items.len() - i,
{
    if i < 0 || i >= items.len() {
        Seq::empty()
    } else {
        match items[i] {
            Item::Text(s) => seq![s@] + strings_from(items, i + 1),
            _ => strings_from(items, i + 1),
        }
    }
}

/// The strings of an array, in order. What is no array holds none, and what
/// is no string in an array is passed over.
pub open spec fn string_array(value: Option<Item>) -> Seq<Seq<char>> {
    match value {
        Some(Item::List(items)) => strings_from(items@, 0),
        _ => Seq::empty(),
    }
}

/// The strings of the array `field` of the table `section` of `document`.
pub open spec fn listed(document: Item, section: Seq<char>, field: Seq<char>) -> Seq<Seq<char>> {
    string_array(entry_in(entry_of(document, section), field))
}

/// Whether a table of this name is read.
pub open spec fn is_recognized(key: Seq<char>) -> bool {
    key == "allow"@ || key == "ignore"@
}

/// The keys among `entries[i..]` that name no table that is read.
pub open spec fn unrecognized_from(entries: Seq<(String, Item)>, i: int) -> Seq<Seq<char>>
    decreases entries.len() - i,
{
    if i < 0 || i >= entries.len() {
        Seq::empty()
    } else if is_recognized(entries[i].0@) {
        unrecognized_from(entries, i + 1)
    } else {
        seq![entries[i].0@] + unrecognized_from(entries, i + 1)
    }
}

/// The keys of `document` that name no table that is read.
pub open spec fn unrecognized_in(document: Item) -> Seq<Seq<char>> {
    match document {
        Item::Table(entries) => unrecognized_from(entries@, 0),
        _ => Seq::empty(),
    }
}

/// What a document names: the directories and the packages of its tables
/// `allow` and `ignore`, in this order.
pub open spec fn policy_of(document: Item) -> Policy {
    Policy {
        directories: listed(document, "allow"@, "directories"@) + listed(
            document,
            "ignore"@,
            "directories"@,
        ),
        packages: listed(document, "allow"@, "packages"@) + listed(
            document,
            "ignore"@,
            "packages"@,
        ),
        unrecognized: unrecognized_in(document),
    }
}

/// A configuration that names nothing.
pub open spec fn no_policy() -> Policy {
    Policy { directories: Seq::empty(), packages: Seq::empty(), unrecognized: Seq::empty() }
}

/// What a configuration file with these contents names. A file that cannot
/// be read, and one that is no TOML document, name nothing.
pub open spec fn policy_in(contents: Option<Seq<char>>) -> Policy {
    match contents {
        Some(text) => match toml_document(text) {
            Ok(document) => policy_of(document),
            Err(_) => no_policy(),
        },
        None => no_policy(),
    }
}

/// Appends the strings of the array `value` to `vec`. Nothing is appended
/// if `value` is no array.
pub fn extend_from_string_array(vec: &mut Vec<String>, value: Option<&Item>)
    ensures
        texts(final(vec)@) == texts(old(vec)@) + string_array(value_of(value)),
{
    match value {
        Some(Item::List(items)) => {
            let mut i: usize = 0;
            while i < items.len()
                invariant
                    i <= items.len(),
                    texts(old(vec)@) + strings_from(items@, 0) == texts(vec@) + strings_from(
                        items@,
                        i as int,
                    ),
                decreases items.len() - i,
            {
                let ghost before = texts(vec@);
                match &items[i] {
                    Item::Text(s) => {
                        vec.push(s.clone());
                        assert(texts(vec@) =~= before + seq![s@]);
                        assert((before + seq![s@]) + strings_from(items@, i + 1) =~= before + (
                        seq![s@] + strings_from(items@, i + 1)));
                    },
                    _ => {},
                }
                i += 1;
            }
            assert(texts(vec@) + Seq::<Seq<char>>::empty() =~= texts(vec@));
        },
        _ => {
            assert(texts(vec@) + Seq::<Seq<char>>::empty() =~= texts(vec@));
        },
    }
}

fn unrecognized_tables(document: &Item) -> (r: Vec<String>)
    ensures
        texts(r@) == unrecognized_in(*document),
{
    let mut keys: Vec<String> = Vec::new();
    match document {
        Item::Table(entries) => {
            let mut i: usize = 0;
            while i < entries.len()
                invariant
                    i <= entries.len(),
                    unrecognized_from(entries@, 0) == texts(keys@) + unrecognized_from(
                        entries@,
                        i as int,
                    ),
                decreases entries.len() - i,
            {
                let key = &entries[i].0;
                let ghost before = texts(keys@);
                if !same_text(key.as_str(), "allow") && !same_text(key.as_str(), "ignore") {
                    keys.push(key.clone());
                    assert(texts(keys@) =~= before + seq![key@]);
                    assert((before + seq![key@]) + unrecognized_from(entries@, i + 1) =~= before
                        + (seq![key@] + unrecognized_from(entries@, i + 1)));
                }
                i += 1;
            }
            assert(texts(keys@) + Seq::<Seq<char>>::empty() =~= texts(keys@));
        },
        _ => {},
    }
    keys
}

impl Config {
    /// A configuration that names nothing.
    pub fn empty() -> (config: Config)
        ensures
            config@ == no_policy(),
    {
        let config = Config {
            directories: Vec::new(),
            packages: Vec::new(),
            unrecognized: Vec::new(),
        };
        assert(config@.directories =~= no_policy().directories);
        assert(config@.packages =~= no_policy().packages);
        assert(config@.unrecognized =~= no_policy().unrecognized);
        config
    }

    /// What a document names.
    pub fn from_document(document: &Item) -> (config: Config)
        ensures
            config@ == policy_of(*document),
    {
        let mut directories: Vec<String> = Vec::new();
        let mut packages: Vec<String> = Vec::new();
        let allow = document.get("allow");
        let ignore = document.get("ignore");
        match allow {
            Some(table) => {
                extend_from_string_array(&mut directories, table.get("directories"));
                extend_from_string_array(&mut packages, table.get("packages"));
            },
            None => {},
        }
        assert(texts(directories@) =~= listed(*document, "allow"@, "directories"@));
        assert(texts(packages@) =~= listed(*document, "allow"@, "packages"@));
        match ignore {
            Some(table) => {
                extend_from_string_array(&mut directories, table.get("directories"));
                extend_from_string_array(&mut packages, table.get("packages"));
            },
            None => {},
        }
        let unrecognized = unrecognized_tables(document);
        let config = Config { directories, packages, unrecognized };
        assert(config@.directories =~= policy_of(*document).directories);
        assert(config@.packages =~= policy_of(*document).packages);
        config
    }

    /// Reads a configuration file from its contents, which are missing where
    /// the file could not be read. A file that is no TOML document names
    /// nothing.
    pub fn load_from(contents: Option<&str>) -> (config: Config)
        ensures
            config@ == policy_in(text_of_str(contents)),
    {
        match contents {
            Some(text) => match parse(text) {
                Ok(document) => Config::from_document(&document),
                Err(_) => Config::empty(),
            },
            None => Config::empty(),
        }
    }
}

/// Whether one of `directories` is the directory `cwd` or one above it.
pub open spec fn names_directory(directories: Seq<Seq<char>>, cwd: Option<Seq<char>>) -> bool {
    cwd matches Some(cwd) && exists|i: int|
        0 <= i < directories.len() && path_starts_with(cwd, #[trigger] directories[i])
}

/// Whether `name` is one of `packages`.
pub open spec fn names_package(packages: Seq<Seq<char>>, name: Option<Seq<char>>) -> bool {
    name matches Some(name) && exists|i: int| 0 <= i < packages.len() && #[trigger] packages[i] == name
}

/// Whether the configuration names the current directory or one above it.
/// It names none where the current directory is not known.
pub fn directory_allowed(config: &Config, cwd: Option<&str>) -> (r: bool)
    ensures
        r == names_directory(config@.directories, text_of_str(cwd)),
{
    match cwd {
        Some(here) => {
            let mut i: usize = 0;
            while i < config.directories.len()
                invariant
                    cwd == Some(here),
                    i <= config.directories.len(),
                    forall|k: int|
                        0 <= k < i ==> !path_starts_with(here@, #[trigger] config@.directories[k]),
                decreases config.directories.len() - i,
            {
                if starts_with(here, config.directories[i].as_str()) {
                    assert(path_starts_with(here@, config@.directories[i as int]));
                    return true;
                }
                i += 1;
            }
            false
        },
        None => false,
    }
}

/// Whether the configuration names the package that is built. It names
/// none where the package's name is not known.
pub fn package_allowed(config: &Config, name: Option<&str>) -> (r: bool)
    ensures
        r == names_package(config@.packages, text_of_str(name)),
{
    match name {
        Some(package) => {
            let mut i: usize = 0;
            while i < config.packages.len()
                invariant
                    name == Some(package),
                    i <= config.packages.len(),
                    forall|k: int| 0 <= k < i ==> #[trigger] config@.packages[k] != package@,
                decreases config.packages.len() - i,
            {
                if same_text(config.packages[i].as_str(), package) {
                    assert(config@.packages[i as int] == package@);
                    return true;
                }
                i += 1;
            }
            false
        },
        None => false,
    }
}

/// Whether the configuration names the current directory, one above it, or
/// the package that is built.
pub fn allowed(config: &Config, cwd: Option<&str>, name: Option<&str>) -> (r: bool)
    ensures
        r == (names_directory(config@.directories, text_of_str(cwd)) || names_package(
            config@.packages,
            text_of_str(name),
        )),
{
    directory_allowed(config, cwd) || package_allowed(config, name)
}

} // verus!
