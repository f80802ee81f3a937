//! Reading a manifest: from TOML text to the entry of one subgroup.
//!
//! The TOML parser is the `toml` crate. Its values pass through here as
//! they are; what a group reads of them is copied into an `Entry`.
use vstd::prelude::*;
use vstd::string::*;
use crate::groups::{group_view, spec_from_entry, BhopGroup, Entry, EntryModel, Field, FieldModel, strings_view};

verus! {

/// A value of a TOML document.
#[verifier::external_type_specification]
#[verifier::external_body]
pub struct ExValue(toml::Value);

/// A table of a TOML document.
#[verifier::external_type_specification]
#[verifier::external_body]
#[verifier::reject_recursive_types(K)]
#[verifier::reject_recursive_types(V)]
pub struct ExMap<K, V>(toml::map::Map<K, V>);

/// The table that `toml::from_str` reads from a document, if it reads one.
/// The parser looks at the text and at nothing else, so the same text gives
/// the same table.
pub uninterp spec fn parsed_table(text: Seq<char>) -> Option<toml::Table>;

/// What a table holds under a key.
pub uninterp spec fn table_entry(table: toml::Table, key: Seq<char>) -> Option<toml::Value>;

/// The string that a value is, if it is one.
pub uninterp spec fn value_text(value: toml::Value) -> Option<Seq<char>>;

/// The table that a value is, if it is one.
pub uninterp spec fn value_table(value: toml::Value) -> Option<toml::Table>;

/// The items of the array that a value is, if it is one.
pub uninterp spec fn value_items(value: toml::Value) -> Option<Seq<toml::Value>>;

/// Parses a TOML document into its top-level table with `toml::from_str`;
/// `None` where the parser reports an error. Nothing is claimed of the table
/// but that it is the one the parser gives for this text.
#[verifier::external_body]
fn parse_table(text: &str) -> (r: Option<toml::Table>)
    ensures
        r == parsed_table(text@),
{
    toml::from_str::<toml::Table>(text).ok()
}

/// Looks a key up in a table with `Map::get`: the value stored under the
/// key, if there is one.
#[verifier::external_body]
fn table_get<'a>(table: &'a toml::Table, key: &str) -> (r: Option<&'a toml::Value>)
    ensures
        match r {
            Some(v) => table_entry(*table, key@) == Some(*v),
            None => table_entry(*table, key@) is None,
        },
{
    table.get(key)
}

/// The string of a value, by `Value::as_str`: `Some` exactly for a string.
#[verifier::external_body]
fn as_text<'a>(value: &'a toml::Value) -> (r: Option<&'a str>)
    ensures
        match r {
            Some(s) => value_text(*value) == Some(s@),
            None => value_text(*value) is None,
        },
{
    value.as_str()
}

/// The table of a value, by `Value::as_table`: `Some` exactly for a table.
#[verifier::external_body]
fn as_table<'a>(value: &'a toml::Value) -> (r: Option<&'a toml::Table>)
    ensures
        match r {
            Some(t) => value_table(*value) == Some(*t),
            None => value_table(*value) is None,
        },
{
    value.as_table()
}

/// The array of a value, by `Value::as_array`: `Some` exactly for an array.
#[verifier::external_body]
fn as_items<'a>(value: &'a toml::Value) -> (r: Option<&'a Vec<toml::Value>>)
    ensures
        match r {
            Some(items) => value_items(*value) == Some(items@),
            None => value_items(*value) is None,
        },
{
    value.as_array()
}

/// The strings that `items` are, if each of them is a string.
pub open spec fn spec_texts(items: Seq<toml::Value>) -> Option<Seq<Seq<char>>> {
    if forall|i: int| 0 <= i < items.len() ==> value_text(#[trigger] items[i]) is Some {
        Some(Seq::new(items.len(), |i: int| value_text(items[i])->0))
    } else {
        None
    }
}

/// What a group reads of a value: a string, an array of strings, or that it
/// is something else.
pub open spec fn spec_field(value: Option<toml::Value>) -> FieldModel {
    match value {
        None => FieldModel::Absent,
        Some(v) => match value_text(v) {
            Some(s) => FieldModel::Text(s),
            None => match value_items(v) {
                Some(items) => match spec_texts(items) {
                    Some(texts) => FieldModel::TextList(texts),
                    None => FieldModel::Other,
                },
                None => FieldModel::Other,
            },
        },
    }
}

/// What a table holds under `group`, as a group reads it.
pub open spec fn spec_entry_of(table: toml::Table, group: Seq<char>) -> EntryModel {
    match table_entry(table, group) {
        None => EntryModel::Absent,
        Some(v) => match value_text(v) {
            Some(c) => EntryModel::Command(c),
            None => match value_table(v) {
                Some(t) => EntryModel::Action {
                    editor: spec_field(table_entry(t, "editor"@)),
                    files: spec_field(table_entry(t, "files"@)),
                },
                None => EntryModel::Other,
            },
        },
    }
}

/// What the manifest `toml` holds under `group`. A document that does not
/// parse holds nothing.
pub open spec fn spec_read_entry(group: Seq<char>, toml: Seq<char>) -> EntryModel {
    match parsed_table(toml) {
        None => EntryModel::Absent,
        Some(table) => spec_entry_of(table, group),
    }
}

fn read_texts(items: &Vec<toml::Value>) -> (r: Option<Vec<String>>)
    ensures
        match r {
            Some(v) => spec_texts(items@) == Some(strings_view(v@)),
            None => spec_texts(items@) is None,
        },
{
    let mut out: Vec<String> = Vec::new();
    let mut i: usize = 0;
    while i < items.len()
        invariant
            i <= items@.len(),
            out@.len() == i,
            forall|k: int| 0 <= k < i ==> value_text(#[trigger] items@[k]) == Some(out@[k]@),
        decreases items@.len() - i,
    {
        match as_text(&items[i]) {
            Some(s) => {
                out.push(s.to_owned());
            },
            None => {
                return None;
            },
        }
        i += 1;
    }
    Some(out)
}

fn read_field(value: Option<&toml::Value>) -> (r: Field)
    ensures
        r@ == spec_field(
            match value {
                Some(v) => Some(*v),
                None => None,
            },
        ),
{
    match value {
        None => Field::Absent,
        Some(v) => match as_text(v) {
            Some(s) => Field::Text(s.to_owned()),
            None => match as_items(v) {
                Some(items) => match read_texts(items) {
                    Some(texts) => Field::TextList(texts),
                    None => Field::Other,
                },
                None => Field::Other,
            },
        },
    }
}

/// What the manifest `toml` holds under `group`.
pub fn read_entry(group: &str, toml: &str) -> (r: Entry)
    ensures
        r@ == spec_read_entry(group@, toml@),
{
    match parse_table(toml) {
        None => Entry::Absent,
        Some(table) => match table_get(&table, group) {
            None => Entry::Absent,
            Some(v) => match as_text(v) {
                Some(c) => Entry::Command(c.to_owned()),
                None => match as_table(v) {
                    Some(t) => {
                        let editor = read_field(table_get(t, "editor"));
                        let files = read_field(table_get(t, "files"));
                        Entry::Action { editor, files }
                    },
                    None => Entry::Other,
                },
            },
        },
    }
}

impl BhopGroup {
    /// The group that the manifest `toml` gives for the subgroup `group`:
    /// none where the manifest does not parse, has no such entry, or has one
    /// that is no group.
    pub fn from_str(group: &str, toml: &str) -> (r: Option<BhopGroup>)
        ensures
            group_view(r) == spec_from_entry(spec_read_entry(group@, toml@)),
    {
        BhopGroup::from_entry(read_entry(group, toml))
    }

    /// The group for the subgroup `group` in a directory whose manifest
    /// holds `manifest`; a directory without a manifest has no groups.
    pub fn from(group: &str, manifest: Option<&str>) -> (r: Option<BhopGroup>)
        ensures
            group_view(r) == (match manifest {
                Some(toml) => spec_from_entry(spec_read_entry(group@, toml@)),
                None => None,
            }),
    {
        match manifest {
            Some(toml) => BhopGroup::from_str(group, toml),
            None => None,
        }
    }
}

} // verus!
