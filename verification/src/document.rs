//! Configuration files, as far as the crate reads them: the tables, arrays
//! and strings of a TOML document.

use vstd::prelude::*;
use crate::text::{same_text, text_of_str};

verus! {

/// A value of a configuration file.
#[derive(Debug, PartialEq, Eq)]
pub enum Item {
    /// A string.
    Text(String),
    /// An array, with its items in order.
    List(Vec<Item>),
    /// A table, with its keys and their values.
    Table(Vec<(String, Item)>),
    /// A number, a truth value or a date.
    Other,
}

/// `toml::Value`, which is carried from the parser to [`from_toml`] and is
/// not looked into.
#[verifier::external_type_specification]
#[verifier::external_body]
pub struct ExValue(toml::Value);

/// What the text of a configuration file holds, as `toml` reads it: the
/// document's table, or the words in which `toml` refuses the text.
pub uninterp spec fn toml_document(text: Seq<char>) -> Result<Item, Seq<char>>;

/// What a value of `toml` holds.
pub uninterp spec fn toml_value(value: toml::Value) -> Item;

/// Parses a document with `toml`, through `FromStr` for `toml::Table`. The
/// value that comes back is the document's table; an error comes back as
/// its message. Both depend on the text alone.
#[verifier::external_body]
fn parse_table(text: &str) -> (r: Result<toml::Value, String>)
    ensures
        match r {
            Ok(value) => toml_document(text@) == Ok::<Item, Seq<char>>(toml_value(value)),
            Err(message) => toml_document(text@) == Err::<Item, Seq<char>>(message@),
        },
{
    match text.parse::<toml::Table>() {
        Ok(table) => Ok(toml::Value::Table(table)),
        Err(e) => Err(e.to_string()),
    }
}

/// Copies a value of `toml` into an [`Item`], variant by variant: a string
/// with its text, an array with its items in order, a table with its keys in
/// the order in which `toml` holds them.
#[verifier::external_body]
fn from_toml(value: &toml::Value) -> (r: Item)
    ensures
        r == toml_value(*value),
{
    match value {
        toml::Value::String(s) => Item::Text(s.clone()),
        toml::Value::Array(items) => Item::List(items.iter().map(from_toml).collect()),
        toml::Value::Table(table) => Item::Table(
            table.iter().map(|(key, item)| (key.clone(), from_toml(item))).collect(),
        ),
        _ => Item::Other,
    }
}

/// Reads the text of a configuration file. The result is the document's
/// table, or the words in which the text is refused.
pub fn parse(text: &str) -> (r: Result<Item, String>)
    ensures
        match r {
            Ok(value) => toml_document(text@) == Ok::<Item, Seq<char>>(value),
            Err(message) => toml_document(text@) == Err::<Item, Seq<char>>(message@),
        },
{
    match parse_table(text) {
        Ok(value) => Ok(from_toml(&value)),
        Err(message) => Err(message),
    }
}

/// The value of the first of `entries[i..]` whose key is `key`.
pub open spec fn entry_from(entries: Seq<(String, Item)>, key: Seq<char>, i: int) -> Option<Item>
    decreases entries.len() - i,
{
    if i < 0 || i >= entries.len() {
        None
    } else if entries[i].0@ == key {
        Some(entries[i].1)
    } else {
        entry_from(entries, key, i + 1)
    }
}

/// The value that `value` holds under `key`: that of the first entry with
/// this key if `value` is a table, and none if it is not.
pub open spec fn entry_of(value: Item, key: Seq<char>) -> Option<Item> {
    match value {
        Item::Table(entries) => entry_from(entries@, key, 0),
        _ => None,
    }
}

/// The value under `key` of an optional value.
pub open spec fn entry_in(value: Option<Item>, key: Seq<char>) -> Option<Item> {
    match value {
        Some(value) => entry_of(value, key),
        None => None,
    }
}

/// A reference's value.
pub open spec fn value_of(value: Option<&Item>) -> Option<Item> {
    match value {
        Some(value) => Some(*value),
        None => None,
    }
}

impl Item {
    /// The value under `key`, if this is a table that has one.
    pub fn get<'a>(&'a self, key: &str) -> (r: Option<&'a Item>)
        ensures
            value_of(r) == entry_of(*self, key@),
    {
        match self {
            Item::Table(entries) => {
                let mut i: usize = 0;
                while i < entries.len()
                    invariant
                        i <= entries.len(),
                        entry_of(*self, key@) == entry_from(entries@, key@, i as int),
                    decreases entries.len() - i,
                {
                    if same_text(entries[i].0.as_str(), key) {
                        return Some(&entries[i].1);
                    }
                    i += 1;
                }
                None
            },
            _ => None,
        }
    }

    /// The text of this value, if it is a string.
    pub fn as_str<'a>(&'a self) -> (r: Option<&'a str>)
        ensures
            text_of_str(r) == match *self {
                Item::Text(s) => Some(s@),
                _ => None,
            },
    {
        match self {
            Item::Text(s) => Some(s.as_str()),
            _ => None,
        }
    }
}

} // verus!
