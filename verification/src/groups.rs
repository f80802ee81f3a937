//! Project groups: what a directory's manifest says to do there.
//!
//! A manifest is a TOML document with one entry for each subgroup. An entry
//! is either a string, the command to run, or a table that names an editor
//! and the files to open.
use vstd::prelude::*;
use vstd::string::*;
use crate::text::opt_view;

verus! {

/// What a subgroup asks for: a command, or an editor and files.
#[derive(Debug, Clone, PartialEq, Default)]
pub struct BhopGroup {
    pub cmd: Option<String>,
    pub editor: Option<String>,
    pub files: Option<Vec<String>>,
}

/// A `BhopGroup` as characters.
pub struct GroupModel {
    pub cmd: Option<Seq<char>>,
    pub editor: Option<Seq<char>>,
    pub files: Option<Seq<Seq<char>>>,
}

/// What a value of a manifest is, as far as a group reads it.
#[derive(Debug, Clone, PartialEq)]
pub enum Field {
    /// There is no such value.
    Absent,
    /// A string.
    Text(String),
    /// An array of strings.
    TextList(Vec<String>),
    /// Anything else.
    Other,
}

/// A `Field` as characters.
pub enum FieldModel {
    Absent,
    Text(Seq<char>),
    TextList(Seq<Seq<char>>),
    Other,
}

/// What a manifest holds under a subgroup's name.
#[derive(Debug, Clone, PartialEq)]
pub enum Entry {
    /// Nothing, or there is no manifest.
    Absent,
    /// A string: the command to run.
    Command(String),
    /// A table, with what it holds as `editor` and as `files`.
    Action { editor: Field, files: Field },
    /// Anything else.
    Other,
}

/// An `Entry` as characters.
pub enum EntryModel {
    Absent,
    Command(Seq<char>),
    Action { editor: FieldModel, files: FieldModel },
    Other,
}

/// The strings of `v` as characters.
pub open spec fn strings_view(v: Seq<String>) -> Seq<Seq<char>> {
    Seq::new(v.len(), |i: int| v[i]@)
}

impl View for BhopGroup {
    type V = GroupModel;

    open spec fn view(&self) -> GroupModel {
        GroupModel {
            cmd: opt_view(self.cmd),
            editor: opt_view(self.editor),
            files: match self.files {
                Some(f) => Some(strings_view(f@)),
                None => None,
            },
        }
    }
}

impl View for Field {
    type V = FieldModel;

    open spec fn view(&self) -> FieldModel {
        match self {
            Field::Absent => FieldModel::Absent,
            Field::Text(s) => FieldModel::Text(s@),
            Field::TextList(v) => FieldModel::TextList(strings_view(v@)),
            Field::Other => FieldModel::Other,
        }
    }
}

impl View for Entry {
    type V = EntryModel;

    open spec fn view(&self) -> EntryModel {
        match self {
            Entry::Absent => EntryModel::Absent,
            Entry::Command(c) => EntryModel::Command(c@),
            Entry::Action { editor, files } => EntryModel::Action {
                editor: editor@,
                files: files@,
            },
            Entry::Other => EntryModel::Other,
        }
    }
}

/// The group that an entry stands for. A string is a command. A table is an
/// editor and files: its `editor` a string or missing, its `files` an array
/// of strings or missing. No other shape is a group.
pub open spec fn spec_from_entry(entry: EntryModel) -> Option<GroupModel> {
    match entry {
        EntryModel::Command(c) => Some(GroupModel { cmd: Some(c), editor: None, files: None }),
        EntryModel::Action { editor, files } => {
            if (editor is Absent || editor is Text) && (files is Absent || files is TextList) {
                Some(
                    GroupModel {
                        cmd: None,
                        editor: match editor {
                            FieldModel::Text(e) => Some(e),
                            _ => None,
                        },
                        files: match files {
                            FieldModel::TextList(f) => Some(f),
                            _ => None,
                        },
                    },
                )
            } else {
                None
            }
        },
        _ => None,
    }
}

/// A group never holds both a command and an editor or files.
pub proof fn group_is_command_or_action(entry: EntryModel)
    ensures
        match spec_from_entry(entry) {
            Some(g) => g.cmd is Some ==> g.editor is None && g.files is None,
            None => true,
        },
{
}

/// What a view of an optional group is.
pub open spec fn group_view(g: Option<BhopGroup>) -> Option<GroupModel> {
    match g {
        Some(g) => Some(g@),
        None => None,
    }
}

impl BhopGroup {
    /// The group that `entry` stands for.
    pub fn from_entry(entry: Entry) -> (r: Option<BhopGroup>)
        ensures
            group_view(r) == spec_from_entry(entry@),
    {
        match entry {
            Entry::Command(c) => Some(BhopGroup { cmd: Some(c), editor: None, files: None }),
            Entry::Action { editor, files } => {
                let editor = match editor {
                    Field::Absent => None,
                    Field::Text(e) => Some(e),
                    _ => {
                        return None;
                    },
                };
                let files = match files {
                    Field::Absent => None,
                    Field::TextList(f) => Some(f),
                    _ => {
                        return None;
                    },
                };
                Some(BhopGroup { cmd: None, editor, files })
            },
            _ => None,
        }
    }
}

} // verus!
