//! Resolving a reference and encoding what the shell is to do.
//!
//! A reference is looked up in three places: the shortcuts, the current
//! directory, the history. What was found is encoded as one line of
//! directives with the separator between them. A directive is a directory to
//! change to, written as its absolute path, or a command line to run. A line
//! holds one directive, or a directory and behind it a command. The runner
//! in the parent shell carries the line out.
use vstd::prelude::*;
use vstd::string::*;
use crate::configs::{spec_lookup_editor, Configs};
use crate::groups::{strings_view, BhopGroup, GroupModel};
use crate::metadata::Environment;
use crate::paths::{
    extension, file_name, parent, sanitize, spec_extension, spec_file_name, spec_is_absolute,
    spec_parent, spec_sanitize, PathError,
};
use crate::store::{
    history_insert_query, history_usage_query, next_usage, search_filter, search_history_query,
    search_shortcuts_query, shortcut_insert_query, spec_history_insert, spec_history_usage,
    spec_next_usage, spec_search_filter, spec_search_history, spec_search_shortcuts,
    spec_shortcut_insert,
};
use crate::text::{
    chars_of, concat2, concat3, contains, contains_seq, opt_view, replace, replace_all,
    replace_char, string_of, swap_char,
};

verus! {

/// A resolved reference, as the caller found it on disk: its absolute path,
/// the same path with every link on it resolved, and whether it is a
/// directory.
#[derive(Debug, Clone, PartialEq)]
pub struct Located {
    pub path: String,
    pub canonical: String,
    pub is_dir: bool,
}

/// Why a request could not be carried out.
#[derive(Debug, Clone, Copy, PartialEq, Eq)]
pub enum HopError {
    /// Neither a shortcut, nor the filesystem, nor the history knows the
    /// reference.
    NoMatch,
    /// A path could not be used.
    Path(PathError),
}

impl HopError {
    /// The words in which the error is reported.
    pub open spec fn spec_message(self) -> Seq<char> {
        match self {
            HopError::NoMatch => "No matching options found."@,
            HopError::Path(e) => e.spec_message(),
        }
    }

    /// The words in which the error is reported.
    pub fn message(&self) -> (r: String)
        ensures
            r@ == self.spec_message(),
    {
        match self {
            HopError::NoMatch => "No matching options found.".to_owned(),
            HopError::Path(e) => e.message(),
        }
    }
}

/// The program's settings and environment: all that resolving and encoding
/// depend on besides the request.
#[derive(Debug, Clone, PartialEq)]
pub struct Hopper {
    pub config: Configs,
    pub env: Environment,
}

/// An outcome as characters.
pub open spec fn line_view(r: Result<String, HopError>) -> Result<Seq<char>, HopError> {
    match r {
        Ok(s) => Ok(s@),
        Err(e) => Err(e),
    }
}

/// The normal form of `p`, or why it has none.
pub open spec fn spec_checked_sanitize(p: Seq<char>) -> Result<Seq<char>, HopError> {
    if spec_is_absolute(p) {
        Ok(spec_sanitize(p))
    } else {
        Err(HopError::Path(PathError::NotAbsolute))
    }
}

/// The directory that holds `p`, or `p` itself where it has none.
pub open spec fn spec_parent_or_self(p: Seq<char>) -> Seq<char> {
    match spec_parent(p) {
        Some(dir) => dir,
        None => p,
    }
}

/// The command line that opens `f` with `editor`: `f` in place of each `{}`
/// in the editor's template, or behind the editor where it has none.
pub open spec fn spec_apply_editor(editor: Seq<char>, f: Seq<char>) -> Seq<char> {
    if contains_seq(editor, "{}"@) {
        replace_all(editor, "{}"@, f)
    } else {
        editor + " "@ + f
    }
}

/// The first of the three sources that found something: shortcut and
/// filesystem in the order that the priority asks for, then the history.
pub open spec fn spec_grab(
    prioritize_shortcuts: bool,
    shortcut: Option<Seq<char>>,
    local: Option<Seq<char>>,
    history: Option<Seq<char>>,
) -> Option<Seq<char>> {
    let first = if prioritize_shortcuts {
        shortcut
    } else {
        local
    };
    let second = if prioritize_shortcuts {
        local
    } else {
        shortcut
    };
    if first is Some {
        first
    } else if second is Some {
        second
    } else {
        history
    }
}

/// Where a name is both a shortcut and an entry of the filesystem, the
/// shortcut's location is chosen if shortcuts have priority, and the entry of
/// the filesystem if not, whatever the history holds.
pub proof fn priority_decides_between_shortcut_and_local(
    shortcut: Seq<char>,
    local: Seq<char>,
    history: Option<Seq<char>>,
)
    ensures
        spec_grab(true, Some(shortcut), Some(local), history) == Some(shortcut),
        spec_grab(false, Some(shortcut), Some(local), history) == Some(local),
{
}

/// `words` joined by single spaces.
pub open spec fn spec_join_words(words: Seq<Seq<char>>) -> Seq<char>
    decreases words.len(),
{
    if words.len() == 0 {
        Seq::empty()
    } else if words.len() == 1 {
        words[0]
    } else {
        words[0] + " "@ + spec_join_words(words.skip(1))
    }
}

/// What follows the first file on a group's command line: the other files,
/// each behind a space; nothing where they come to nothing.
pub open spec fn spec_trailing_files(files: Seq<Seq<char>>) -> Seq<char> {
    if files.len() <= 1 {
        Seq::empty()
    } else {
        let rest = spec_join_words(files.skip(1));
        if rest.len() == 0 {
            rest
        } else {
            " "@ + rest
        }
    }
}

impl Hopper {
    /// The line of two directives: the separator stands between them, and
    /// nowhere else.
    pub open spec fn spec_join_directives(self, first: Seq<char>, second: Seq<char>) -> Seq<char> {
        first + self.env.separator@ + second
    }

    /// The line that runs `command`: after a change to `dir` where the
    /// settings ask for a jump with every edit, and as its only directive
    /// where they do not.
    pub open spec fn spec_invoke_from(self, dir: Seq<char>, command: Seq<char>) -> Seq<char> {
        if self.config.always_jump {
            self.spec_join_directives(dir, command)
        } else {
            command
        }
    }

    /// The editor for files with the extension `ext`: the one set for the
    /// extension, else the default editor.
    pub open spec fn spec_editor_for(self, ext: Option<Seq<char>>) -> Seq<char> {
        match ext {
            None => self.config.default_editor@,
            Some(e) => match spec_lookup_editor(self.config.editors@, e) {
                Some(special) => special,
                None => self.config.default_editor@,
            },
        }
    }

    /// The command line that opens `f`, a file with the extension `ext`.
    pub open spec fn spec_map_editor(self, f: Seq<char>, ext: Option<Seq<char>>) -> Seq<char> {
        spec_apply_editor(self.spec_editor_for(ext), f)
    }

    /// The directory that holds the configuration at `config_path`.
    pub open spec fn spec_locate_at(config_path: Seq<char>) -> Result<Seq<char>, HopError> {
        match spec_checked_sanitize(config_path) {
            Ok(p) => Ok(spec_parent_or_self(p)),
            Err(e) => Err(e),
        }
    }

    /// The directory of the program's files.
    pub open spec fn spec_locate(self) -> Result<Seq<char>, HopError> {
        Self::spec_locate_at(self.env.config_path@)
    }

    /// The line that opens the configuration at `config_path` in the editor.
    pub open spec fn spec_configure_at(self, config_path: Seq<char>) -> Result<
        Seq<char>,
        HopError,
    > {
        match Self::spec_locate_at(config_path) {
            Ok(dir) => Ok(
                self.spec_invoke_from(dir, self.spec_map_editor(dir + "/bhop.toml"@, None)),
            ),
            Err(e) => Err(e),
        }
    }

    /// The line that opens the program's configuration in the editor.
    pub open spec fn spec_configure(self) -> Result<Seq<char>, HopError> {
        self.spec_configure_at(self.env.config_path@)
    }

    /// The line that makes the runner call the program at `exe` with `cmd`:
    /// one directive, the command line.
    pub open spec fn spec_passthrough(self, exe: Seq<char>, cmd: Seq<char>) -> Result<
        Seq<char>,
        HopError,
    > {
        match spec_checked_sanitize(exe) {
            Ok(p) => Ok(p + " "@ + cmd),
            Err(e) => Err(e),
        }
    }

    /// The line for a hop to `target`. A directory is changed to: the line is
    /// its normal form and nothing else. A file is opened in the editor for
    /// its extension, after a change to its directory where the settings ask
    /// for one; where they do not, the line is the command and nothing else.
    /// With `edit_dir` the target is the base of a group that is to be
    /// edited as a whole: it is changed to and then opened in the editor.
    pub open spec fn spec_bhop_it(self, target: Option<Located>, edit_dir: bool) -> Result<
        Seq<char>,
        HopError,
    > {
        match target {
            None => Err(HopError::NoMatch),
            Some(t) => match spec_checked_sanitize(t.path@) {
                Err(e) => Err(e),
                Ok(p) => if edit_dir {
                    Ok(
                        self.spec_join_directives(
                            p,
                            self.spec_map_editor(p, spec_extension(t.path@)),
                        ),
                    )
                } else if t.is_dir {
                    Ok(p)
                } else {
                    Ok(
                        self.spec_invoke_from(
                            spec_parent_or_self(p),
                            self.spec_map_editor(p, spec_extension(t.path@)),
                        ),
                    )
                },
            },
        }
    }

    /// The line for a group below `target`, or below the directory `here`
    /// where the group's reference was not resolved. Without a group the
    /// line is the directory's normal form and nothing else. A command is run there. Files are
    /// opened there: the first by the group's editor, or by the editor for
    /// its extension, and the others behind it. A group with an empty list
    /// of files opens the directory itself, after the change to it.
    pub open spec fn spec_use_group(
        self,
        target: Option<Located>,
        here: Seq<char>,
        options: Option<GroupModel>,
    ) -> Result<Seq<char>, HopError> {
        let base = match target {
            Some(t) => t.path@,
            None => here,
        };
        match spec_checked_sanitize(base) {
            Err(e) => Err(e),
            Ok(dir) => match options {
                None => Ok(dir),
                Some(g) => match g.cmd {
                    Some(cmd) => Ok(self.spec_join_directives(dir, cmd)),
                    None => match g.files {
                        None => Err(HopError::NoMatch),
                        Some(files) => if files.len() == 0 {
                            self.spec_bhop_it(target, true)
                        } else {
                            let editor = match g.editor {
                                Some(e) => e,
                                None => self.spec_editor_for(
                                    spec_extension(swap_char(files[0], '*', 'x')),
                                ),
                            };
                            Ok(
                                self.spec_join_directives(
                                    dir,
                                    spec_apply_editor(editor, files[0]) + spec_trailing_files(
                                        files,
                                    ),
                                ),
                            )
                        },
                    },
                },
            },
        }
    }

    /// The statement that stores a shortcut for `path` under `name`, or
    /// under the last component of `path` where no name is given.
    pub open spec fn spec_add_shortcut(path: Seq<char>, name: Option<Seq<char>>) -> Result<
        Seq<char>,
        HopError,
    > {
        let name = match name {
            Some(n) => Some(n),
            None => spec_file_name(path),
        };
        match name {
            None => Err(HopError::Path(PathError::NoFileName)),
            Some(n) => match spec_checked_sanitize(path) {
                Ok(location) => Ok(spec_shortcut_insert(n, location)),
                Err(e) => Err(e),
            },
        }
    }

    /// The name and the location under which a hop to `path` is recorded:
    /// the last component of `canonical`, the path with its links resolved, and
    /// the normal form of `path` itself.
    pub open spec fn spec_history_key(path: Seq<char>, canonical: Seq<char>) -> Result<
        (Seq<char>, Seq<char>),
        HopError,
    > {
        match spec_checked_sanitize(path) {
            Err(e) => Err(e),
            Ok(location) => match spec_file_name(canonical) {
                None => Err(HopError::Path(PathError::NoFileName)),
                Some(name) => Ok((name, location)),
            },
        }
    }

    /// A hopper with the given settings and environment.
    pub fn new(env: Environment, config: Configs) -> (r: Hopper)
        ensures
            r.env == env,
            r.config == config,
    {
        Hopper { config, env }
    }

    /// The directory that holds the configuration at `config_path`.
    pub fn locate_at(config_path: &str) -> (r: Result<String, HopError>)
        ensures
            line_view(r) == Self::spec_locate_at(config_path@),
    {
        match sanitize(config_path) {
            Err(e) => Err(HopError::Path(e)),
            Ok(p) => match parent(p.as_str()) {
                Some(dir) => Ok(dir),
                None => Ok(p),
            },
        }
    }

    /// The directory of the program's files.
    pub fn locate(&self) -> (r: Result<String, HopError>)
        ensures
            line_view(r) == self.spec_locate(),
    {
        Self::locate_at(self.env.config_path.as_str())
    }

    /// The line of two directives.
    pub fn join_directives(&self, first: &str, second: &str) -> (r: String)
        ensures
            r@ == self.spec_join_directives(first@, second@),
    {
        concat3(first, self.env.separator.as_str(), second)
    }

    /// The line that runs `command`, after a change to `dir` where the
    /// settings ask for one.
    pub fn invoke_from(&self, dir: &str, command: String) -> (r: String)
        ensures
            r@ == self.spec_invoke_from(dir@, command@),
    {
        if self.config.always_jump {
            self.join_directives(dir, command.as_str())
        } else {
            command
        }
    }

    /// The editor for files with the extension `ext`.
    pub fn editor_for(&self, ext: Option<&str>) -> (r: String)
        ensures
            r@ == self.spec_editor_for(
                match ext {
                    Some(e) => Some(e@),
                    None => None,
                },
            ),
    {
        match ext {
            None => self.config.default_editor.clone(),
            Some(e) => match self.config.lookup_editor(e) {
                Some(special) => special,
                None => self.config.default_editor.clone(),
            },
        }
    }

    /// The command line that opens `f`, a file with the extension `ext`.
    pub fn map_editor(&self, f: &str, ext: Option<&str>) -> (r: String)
        ensures
            r@ == self.spec_map_editor(
                f@,
                match ext {
                    Some(e) => Some(e@),
                    None => None,
                },
            ),
    {
        let editor = self.editor_for(ext);
        apply_editor(editor.as_str(), f)
    }

    /// The line that opens the configuration at `config_path` in the editor.
    pub fn configure_at(&self, config_path: &str) -> (r: Result<String, HopError>)
        ensures
            line_view(r) == self.spec_configure_at(config_path@),
    {
        match Self::locate_at(config_path) {
            Err(e) => Err(e),
            Ok(dir) => {
                let file = concat2(dir.as_str(), "/bhop.toml");
                let command = self.map_editor(file.as_str(), None);
                Ok(self.invoke_from(dir.as_str(), command))
            },
        }
    }

    /// The line that opens the program's configuration in the editor.
    pub fn configure(&self) -> (r: Result<String, HopError>)
        ensures
            line_view(r) == self.spec_configure(),
    {
        self.configure_at(self.env.config_path.as_str())
    }

    /// The line that makes the runner call the program at `exe` with `cmd`.
    pub fn passthrough(&self, exe: &str, cmd: &str) -> (r: Result<String, HopError>)
        ensures
            line_view(r) == self.spec_passthrough(exe@, cmd@),
    {
        match sanitize(exe) {
            Err(e) => Err(HopError::Path(e)),
            Ok(p) => {
                Ok(concat3(p.as_str(), " ", cmd))
            },
        }
    }

    /// The statement that stores a shortcut for `path` under `name`, or
    /// under the last component of `path` where no name is given. A path
    /// without a last component names nothing; a relative path is refused.
    pub fn add_shortcut(&self, path: &str, name: Option<String>) -> (r: Result<String, HopError>)
        ensures
            line_view(r) == Self::spec_add_shortcut(path@, opt_view(name)),
    {
        let name = match name {
            Some(n) => n,
            None => match file_name(path) {
                Some(n) => n,
                None => {
                    return Err(HopError::Path(PathError::NoFileName));
                },
            },
        };
        match sanitize(path) {
            Err(e) => Err(HopError::Path(e)),
            Ok(location) => Ok(shortcut_insert_query(name.as_str(), location.as_str())),
        }
    }

    /// The name and the location under which a hop to `path` is recorded,
    /// where `canonical` is the path with its links resolved.
    pub fn history_key(&self, path: &str, canonical: &str) -> (r: Result<(String, String), HopError>)
        ensures
            match r {
                Ok(key) => Self::spec_history_key(path@, canonical@) == Ok::<
                    (Seq<char>, Seq<char>),
                    HopError,
                >((key.0@, key.1@)),
                Err(e) => Self::spec_history_key(path@, canonical@) == Err::<
                    (Seq<char>, Seq<char>),
                    HopError,
                >(e),
            },
    {
        match sanitize(path) {
            Err(e) => Err(HopError::Path(e)),
            Ok(location) => match file_name(canonical) {
                None => Err(HopError::Path(PathError::NoFileName)),
                Some(name) => Ok((name, location)),
            },
        }
    }

    /// The query for the usage count of a hop to `path`, as the history
    /// holds it so far.
    pub fn find_usage(&self, path: &str, canonical: &str) -> (r: Result<String, HopError>)
        ensures
            line_view(r) == (match Self::spec_history_key(path@, canonical@) {
                Ok(key) => Ok(spec_history_usage(key.0, key.1)),
                Err(e) => Err(e),
            }),
    {
        match self.history_key(path, canonical) {
            Err(e) => Err(e),
            Ok(key) => Ok(history_usage_query(key.0.as_str(), key.1.as_str())),
        }
    }

    /// The statement that records one more hop to `path`, where `current`
    /// is the usage count that the history holds for it so far.
    pub fn add_history(&self, path: &str, canonical: &str, current: Option<i64>) -> (r: Result<
        String,
        HopError,
    >)
        ensures
            line_view(r) == (match Self::spec_history_key(path@, canonical@) {
                Ok(key) => Ok(spec_history_insert(key.0, key.1, spec_next_usage(current))),
                Err(e) => Err(e),
            }),
    {
        match self.history_key(path, canonical) {
            Err(e) => Err(e),
            Ok(key) => Ok(
                history_insert_query(key.0.as_str(), key.1.as_str(), next_usage(current)),
            ),
        }
    }

    /// The location that a reference resolves to, given what each of the
    /// three sources found for it.
    pub fn grab(
        &self,
        shortcut: Option<String>,
        local: Option<String>,
        history: Option<String>,
    ) -> (r: Option<String>)
        ensures
            opt_view(r) == spec_grab(
                self.config.prioritize_shortcuts,
                opt_view(shortcut),
                opt_view(local),
                opt_view(history),
            ),
    {
        let (first, second) = if self.config.prioritize_shortcuts {
            (shortcut, local)
        } else {
            (local, shortcut)
        };
        if first.is_some() {
            first
        } else if second.is_some() {
            second
        } else {
            history
        }
    }

    /// The line for a hop to `target`; without a target there is no match.
    pub fn bhop_it(&self, target: Option<&Located>, edit_dir: bool) -> (r: Result<
        String,
        HopError,
    >)
        ensures
            line_view(r) == self.spec_bhop_it(
                match target {
                    Some(t) => Some(*t),
                    None => None,
                },
                edit_dir,
            ),
    {
        match target {
            None => Err(HopError::NoMatch),
            Some(t) => match sanitize(t.path.as_str()) {
                Err(e) => Err(HopError::Path(e)),
                Ok(p) => {
                    if t.is_dir && !edit_dir {
                        return Ok(p);
                    }
                    let ext = extension(t.path.as_str());
                    let command = match &ext {
                        Some(e) => self.map_editor(p.as_str(), Some(e.as_str())),
                        None => self.map_editor(p.as_str(), None),
                    };
                    if edit_dir {
                        Ok(self.join_directives(p.as_str(), command.as_str()))
                    } else {
                        let move_dir = match parent(p.as_str()) {
                            Some(dir) => dir,
                            None => p,
                        };
                        Ok(self.invoke_from(move_dir.as_str(), command))
                    }
                },
            },
        }
    }

    /// The line for a group below `target`, or below the directory `here`
    /// where the group's reference was not resolved.
    pub fn use_group(&self, target: Option<&Located>, here: &str, options: Option<&BhopGroup>) -> (r:
        Result<String, HopError>)
        ensures
            line_view(r) == self.spec_use_group(
                match target {
                    Some(t) => Some(*t),
                    None => None,
                },
                here@,
                match options {
                    Some(g) => Some(g@),
                    None => None,
                },
            ),
    {
        let base = match target {
            Some(t) => t.path.as_str(),
            None => here,
        };
        let dir = match sanitize(base) {
            Err(e) => {
                return Err(HopError::Path(e));
            },
            Ok(dir) => dir,
        };
        let group = match options {
            None => {
                return Ok(dir);
            },
            Some(g) => g,
        };
        match &group.cmd {
            Some(cmd) => Ok(self.join_directives(dir.as_str(), cmd.as_str())),
            None => match &group.files {
                None => Err(HopError::NoMatch),
                Some(files) => {
                    if files.len() == 0 {
                        self.bhop_it(target, true)
                    } else {
                        let first = files[0].as_str();
                        let editor = match &group.editor {
                            Some(e) => e.clone(),
                            None => {
                                let v = chars_of(first);
                                let starless = string_of(&replace_char(&v, '*', 'x'));
                                match extension(starless.as_str()) {
                                    Some(e) => self.editor_for(Some(e.as_str())),
                                    None => self.editor_for(None),
                                }
                            },
                        };
                        let mut command = apply_editor(editor.as_str(), first);
                        let tail = trailing_files(files);
                        command.append(tail.as_str());
                        Ok(self.join_directives(dir.as_str(), command.as_str()))
                    }
                },
            },
        }
    }

    /// The pattern that a search for `filter` looks for.
    pub fn search_pattern(&self, filter: Option<&str>) -> (r: String)
        ensures
            r@ == spec_search_filter(
                self.config.search_match_prefix@,
                match filter {
                    Some(f) => Some(f@),
                    None => None,
                },
                self.config.search_match_suffix@,
            ),
    {
        search_filter(
            self.config.search_match_prefix.as_str(),
            filter,
            self.config.search_match_suffix.as_str(),
        )
    }

    /// The query that lists the shortcuts that a search for `filter` finds.
    pub fn search_shortcuts(&self, filter: Option<&str>) -> (r: String)
        ensures
            r@ == spec_search_shortcuts(
                spec_search_filter(
                    self.config.search_match_prefix@,
                    match filter {
                        Some(f) => Some(f@),
                        None => None,
                    },
                    self.config.search_match_suffix@,
                ),
            ),
    {
        let pattern = self.search_pattern(filter);
        search_shortcuts_query(pattern.as_str())
    }

    /// The query that lists the history that a search for `filter` finds.
    pub fn search_history(&self, filter: Option<&str>) -> (r: String)
        ensures
            r@ == spec_search_history(
                spec_search_filter(
                    self.config.search_match_prefix@,
                    match filter {
                        Some(f) => Some(f@),
                        None => None,
                    },
                    self.config.search_match_suffix@,
                ),
            ),
    {
        let pattern = self.search_pattern(filter);
        search_history_query(pattern.as_str())
    }
}

/// The command line that opens `f` with `editor`.
pub fn apply_editor(editor: &str, f: &str) -> (r: String)
    ensures
        r@ == spec_apply_editor(editor@, f@),
{
    if contains(editor, "{}") {
        replace(editor, "{}", f)
    } else {
        concat3(editor, " ", f)
    }
}

/// What follows the first file on a group's command line.
pub fn trailing_files(files: &Vec<String>) -> (r: String)
    ensures
        r@ == spec_trailing_files(strings_view(files@)),
{
    let ghost words = strings_view(files@);
    let mut joined = String::new();
    let mut i: usize = files.len();
    if files.len() <= 1 {
        return joined;
    }
    while i > 1
        invariant
            1 <= i <= files@.len(),
            words == strings_view(files@),
            joined@ == spec_join_words(words.skip(i as int)),
        decreases i,
    {
        assert(words.skip(i - 1).skip(1) =~= words.skip(i as int));
        if i == files.len() {
            joined = files[i - 1].clone();
        } else {
            joined = concat3(files[i - 1].as_str(), " ", joined.as_str());
        }
        i -= 1;
    }
    if joined.as_str().unicode_len() == 0 {
        joined
    } else {
        concat2(" ", joined.as_str())
    }
}

} // verus!
