//! Carrying out a request, step by step.
//!
//! The library touches neither the database nor the filesystem. It says what
//! is to be done next, as an `Action`; the caller does it and reports what
//! came of it, as an `Event`. Between the two the `State` remembers how far
//! the request has come. A request starts with `Hopper::execute` and goes on
//! with `Hopper::resume` until the action is final.
use vstd::prelude::*;
use vstd::string::*;
use crate::args::Request;
use crate::groups::{spec_from_entry, BhopGroup, GroupModel};
use crate::hopper::{line_view, spec_checked_sanitize, spec_grab, HopError, Hopper, Located};
use crate::manifest::spec_read_entry;
use crate::paths::{
    file_name, is_absolute, join, sanitize, spec_file_name, spec_is_absolute, spec_join,
    spec_sanitize, PathError,
};
use crate::store::{
    history_find_query, shortcut_find_query, shortcut_remove_query, spec_history_find,
    spec_history_insert, spec_history_usage, spec_next_usage, spec_search_filter,
    spec_search_history, spec_search_shortcuts, spec_shortcut_find, spec_shortcut_insert,
    spec_shortcut_remove,
};
use crate::text::opt_view;

verus! {

/// The subgroup that is meant where none is named.
pub const DEFAULT_SUBGROUP: &'static str = "default";

/// What is told where a reference resolves to nothing and only its location
/// was asked for.
pub const NOT_GRABBED: &'static str = "Unable to grab reference.";

/// What a reference is resolved for.
#[derive(Debug, Clone, PartialEq)]
pub enum Purpose {
    /// To print its location.
    Find,
    /// To hop to it.
    Hop,
    /// To use a group below it.
    Group { subgroup: Option<String> },
}

/// How far a request has come.
#[derive(Debug, Clone, PartialEq)]
pub enum State {
    /// Nothing is left to do.
    Done,
    /// A shortcut is to be stored for a relative path, whose place on disk
    /// was asked for.
    Adding { reference: String, name: Option<String>, hop: bool },
    /// A shortcut is being stored; a hop to `then` follows where there is one.
    Added { then: Option<String> },
    /// Shortcuts are being removed.
    Removing,
    /// The place on disk of the program's configuration was asked for, to
    /// tell where it is or, if `configure` says so, to open it.
    Locating { configure: bool },
    /// The three sources were asked for a reference.
    Resolving { purpose: Purpose },
    /// The place on disk of what the reference resolved to was asked for;
    /// `resolved` says whether the reference resolved at all.
    Probing { purpose: Purpose, resolved: bool },
    /// The usage count of the target was asked for.
    Counting { target: Located, edit_dir: bool },
    /// The hop to the target is being recorded.
    Recording { target: Located, edit_dir: bool },
    /// The manifest of the directory `base` was asked for.
    Reading { base: Located, resolved: bool, subgroup: Option<String> },
}

/// What became of an action.
#[derive(Debug, Clone, PartialEq)]
pub enum Event {
    /// What each source found for the reference.
    Found { shortcut: Option<String>, local: Option<String>, history: Option<String> },
    /// The absolute path and the kind of what was probed, if it is on disk.
    Probed(Option<Located>),
    /// The usage count that the history holds, if it holds one.
    Usage(Option<i64>),
    /// The statement ran, unless this holds the store's words on why it did
    /// not.
    Executed(Option<String>),
    /// The text of the manifest, if there is one.
    Manifest(Option<String>),
}

/// What the caller is to do next.
#[derive(Debug, Clone, PartialEq)]
pub enum Action {
    /// Run the two queries and expand the pattern in the current directory;
    /// report the first result of each as `Event::Found`.
    Lookup { shortcuts: String, history: String, pattern: String },
    /// Find the path on disk; report it as `Event::Probed`.
    Probe(String),
    /// Run the query; report the count of its first row as `Event::Usage`.
    Usage(String),
    /// Run the statement; report as `Event::Executed`.
    Execute(String),
    /// Read the file; report its text as `Event::Manifest`.
    ReadManifest(String),
    /// Final: list what the two queries find.
    List { shortcuts: String, history: String },
    /// Final: print the line of directives for the runner to carry out.
    Print(String),
    /// Final: tell the user the text. It is no directive: the runner must
    /// not get it as one.
    Tell(String),
    /// Final: print the help.
    Help,
    /// Final: nothing.
    Done,
}

/// An `Action` as characters.
pub enum ActionModel {
    Lookup { shortcuts: Seq<char>, history: Seq<char>, pattern: Seq<char> },
    Probe(Seq<char>),
    Usage(Seq<char>),
    Execute(Seq<char>),
    ReadManifest(Seq<char>),
    List { shortcuts: Seq<char>, history: Seq<char> },
    Print(Seq<char>),
    Tell(Seq<char>),
    Help,
    Done,
}

impl View for Action {
    type V = ActionModel;

    open spec fn view(&self) -> ActionModel {
        match self {
            Action::Lookup { shortcuts, history, pattern } => ActionModel::Lookup {
                shortcuts: shortcuts@,
                history: history@,
                pattern: pattern@,
            },
            Action::Probe(p) => ActionModel::Probe(p@),
            Action::Usage(q) => ActionModel::Usage(q@),
            Action::Execute(q) => ActionModel::Execute(q@),
            Action::ReadManifest(p) => ActionModel::ReadManifest(p@),
            Action::List { shortcuts, history } => ActionModel::List {
                shortcuts: shortcuts@,
                history: history@,
            },
            Action::Print(t) => ActionModel::Print(t@),
            Action::Tell(t) => ActionModel::Tell(t@),
            Action::Help => ActionModel::Help,
            Action::Done => ActionModel::Done,
        }
    }
}

/// The final action that reports an outcome: the line of directives is
/// printed, an error is told in its words.
pub open spec fn spec_report(outcome: Result<Seq<char>, HopError>) -> ActionModel {
    match outcome {
        Ok(line) => ActionModel::Print(line),
        Err(e) => ActionModel::Tell(e.spec_message()),
    }
}

/// The final action that answers a question: the answer is told, or the
/// error in its words.
pub open spec fn spec_answer(outcome: Result<Seq<char>, HopError>) -> ActionModel {
    match outcome {
        Ok(text) => ActionModel::Tell(text),
        Err(e) => ActionModel::Tell(e.spec_message()),
    }
}

/// The action that asks the three sources for `reference`.
pub open spec fn spec_lookup(reference: Seq<char>) -> ActionModel {
    ActionModel::Lookup {
        shortcuts: spec_shortcut_find(reference),
        history: spec_history_find(reference),
        pattern: reference,
    }
}

/// The name of a shortcut for `reference`: the given one, or the last
/// component of the reference.
pub open spec fn spec_shortcut_name(reference: Seq<char>, name: Option<Seq<char>>) -> Option<
    Seq<char>,
> {
    match name {
        Some(n) => Some(n),
        None => spec_file_name(reference),
    }
}

/// No statement is run from this state on: the request only reads.
pub open spec fn reads_only(state: State) -> bool {
    state is Done || state is Locating || (state is Resolving && state->Resolving_purpose is Find)
        || (state is Probing && state->Probing_purpose is Find)
}

impl Hopper {
    /// The step that stores a shortcut for `reference`, whose absolute path
    /// is `path`; afterwards a hop to the reference follows if `hop` says
    /// so.
    pub open spec fn spec_store_shortcut(
        reference: String,
        name: Option<Seq<char>>,
        path: Seq<char>,
        hop: bool,
    ) -> (State, ActionModel) {
        match spec_shortcut_name(reference@, name) {
            None => (State::Done, spec_report(Err(HopError::Path(PathError::NoFileName)))),
            Some(n) => match spec_checked_sanitize(path) {
                Err(e) => (State::Done, spec_report(Err(e))),
                Ok(location) => (
                    State::Added {
                        then: if hop {
                            Some(reference)
                        } else {
                            None
                        },
                    },
                    ActionModel::Execute(spec_shortcut_insert(n, location)),
                ),
            },
        }
    }

    /// The first step of storing a shortcut for `reference`: an absolute
    /// path is stored as it is, the place of a relative one is asked for.
    pub open spec fn spec_begin_add(reference: String, name: Option<String>, hop: bool) -> (
        State,
        ActionModel,
    ) {
        if spec_shortcut_name(reference@, opt_view(name)) is None {
            (State::Done, spec_report(Err(HopError::Path(PathError::NoFileName))))
        } else if spec_is_absolute(reference@) {
            Self::spec_store_shortcut(reference, opt_view(name), reference@, hop)
        } else {
            (State::Adding { reference, name, hop }, ActionModel::Probe(reference@))
        }
    }

    /// The first step of hopping to `target`: its usage count is asked for.
    pub open spec fn spec_begin_hop(target: Located, edit_dir: bool) -> (State, ActionModel) {
        match Self::spec_history_key(target.path@, target.canonical@) {
            Err(e) => (State::Done, spec_report(Err(e))),
            Ok(key) => (
                State::Counting { target, edit_dir },
                ActionModel::Usage(spec_history_usage(key.0, key.1)),
            ),
        }
    }

    /// The first step of a request. `exe` is the path of the running
    /// program.
    pub open spec fn spec_execute(self, request: Request, exe: Seq<char>) -> (State, ActionModel) {
        match request {
            Request::Add(reference, name) => Self::spec_begin_add(reference, name, false),
            Request::Remove(name) => (
                State::Removing,
                ActionModel::Execute(spec_shortcut_remove(name@)),
            ),
            Request::Use(reference, name) => match name {
                Some(n) => Self::spec_begin_add(reference, Some(n), true),
                None => (State::Resolving { purpose: Purpose::Hop }, spec_lookup(reference@)),
            },
            Request::Find(reference) => (
                State::Resolving { purpose: Purpose::Find },
                spec_lookup(reference@),
            ),
            Request::Group(reference, subgroup) => (
                State::Resolving { purpose: Purpose::Group { subgroup } },
                spec_lookup(reference@),
            ),
            Request::Passthrough(cmd) => (
                State::Done,
                spec_report(self.spec_passthrough(exe, cmd@)),
            ),
            Request::Search(filter) => {
                let pattern = spec_search_filter(
                    self.config.search_match_prefix@,
                    opt_view(filter),
                    self.config.search_match_suffix@,
                );
                (
                    State::Done,
                    ActionModel::List {
                        shortcuts: spec_search_shortcuts(pattern),
                        history: spec_search_history(pattern),
                    },
                )
            },
            Request::Notify(msg) => (State::Done, ActionModel::Tell(msg@)),
            Request::Help => (State::Done, ActionModel::Help),
            Request::Configure => if spec_is_absolute(self.env.config_path@) {
                (State::Done, spec_report(self.spec_configure()))
            } else {
                (State::Locating { configure: true }, ActionModel::Probe(self.env.config_path@))
            },
            Request::Locate => if spec_is_absolute(self.env.config_path@) {
                (State::Done, spec_answer(self.spec_locate()))
            } else {
                (State::Locating { configure: false }, ActionModel::Probe(self.env.config_path@))
            },
            Request::Skip => (State::Done, ActionModel::Done),
        }
    }

    /// The step after the three sources answered.
    pub open spec fn spec_found(
        self,
        purpose: Purpose,
        shortcut: Option<String>,
        local: Option<String>,
        history: Option<String>,
    ) -> (State, ActionModel) {
        let resolved = spec_grab(
            self.config.prioritize_shortcuts,
            opt_view(shortcut),
            opt_view(local),
            opt_view(history),
        );
        match purpose {
            Purpose::Find => match resolved {
                None => (State::Done, ActionModel::Tell(NOT_GRABBED@)),
                Some(p) => if spec_is_absolute(p) {
                    (State::Done, ActionModel::Tell(spec_sanitize(p)))
                } else {
                    (State::Probing { purpose, resolved: true }, ActionModel::Probe(p))
                },
            },
            Purpose::Hop => match resolved {
                None => (State::Done, spec_report(Err(HopError::NoMatch))),
                Some(p) => (State::Probing { purpose, resolved: true }, ActionModel::Probe(p)),
            },
            Purpose::Group { subgroup } => match resolved {
                None => (State::Probing { purpose, resolved: false }, ActionModel::Probe("."@)),
                Some(p) => (State::Probing { purpose, resolved: true }, ActionModel::Probe(p)),
            },
        }
    }

    /// The step after a resolved reference was found on disk, or was not.
    pub open spec fn spec_probed(self, purpose: Purpose, resolved: bool, found: Option<Located>) -> (
        State,
        ActionModel,
    ) {
        match found {
            None => (State::Done, spec_report(Err(HopError::Path(PathError::NotAbsolute)))),
            Some(target) => match purpose {
                Purpose::Find => (State::Done, spec_answer(spec_checked_sanitize(target.path@))),
                Purpose::Hop => Self::spec_begin_hop(target, false),
                Purpose::Group { subgroup } => match spec_checked_sanitize(target.path@) {
                    Err(e) => (State::Done, spec_report(Err(e))),
                    Ok(dir) => (
                        State::Reading { base: target, resolved, subgroup },
                        ActionModel::ReadManifest(spec_join(dir, self.env.manifest_name@)),
                    ),
                },
            },
        }
    }

    /// The group that a manifest gives for a subgroup, `default` where none
    /// is named.
    pub open spec fn spec_options(subgroup: Option<String>, manifest: Option<String>) -> Option<
        GroupModel,
    > {
        match manifest {
            None => None,
            Some(toml) => spec_from_entry(
                spec_read_entry(
                    match subgroup {
                        Some(s) => s@,
                        None => DEFAULT_SUBGROUP@,
                    },
                    toml@,
                ),
            ),
        }
    }

    /// The step after the manifest was read. A group with an empty list of
    /// files is a hop into the directory, which is recorded like any hop;
    /// every other outcome is final.
    pub open spec fn spec_manifest(
        self,
        base: Located,
        resolved: bool,
        subgroup: Option<String>,
        manifest: Option<String>,
    ) -> (State, ActionModel) {
        let options = Self::spec_options(subgroup, manifest);
        let target = if resolved {
            Some(base)
        } else {
            None
        };
        let edits_directory = match options {
            Some(g) => g.cmd is None && g.files is Some && g.files->0.len() == 0,
            None => false,
        };
        if edits_directory && resolved && spec_is_absolute(base.path@) {
            Self::spec_begin_hop(base, true)
        } else {
            (State::Done, spec_report(self.spec_use_group(target, base.path@, options)))
        }
    }

    /// The step that `event` leads to from `state`. An event that the state
    /// did not ask for ends the request.
    pub open spec fn spec_resume(self, state: State, event: Event) -> (State, ActionModel) {
        match (state, event) {
            (State::Adding { reference, name, hop }, Event::Probed(found)) => match found {
                None => (State::Done, spec_report(Err(HopError::Path(PathError::NotAbsolute)))),
                Some(target) => Self::spec_store_shortcut(
                    reference,
                    opt_view(name),
                    target.path@,
                    hop,
                ),
            },
            (State::Added { then }, Event::Executed(outcome)) => match outcome {
                Some(msg) => (State::Done, ActionModel::Tell(msg@)),
                None => match then {
                    None => (State::Done, ActionModel::Done),
                    Some(reference) => (
                        State::Resolving { purpose: Purpose::Hop },
                        spec_lookup(reference@),
                    ),
                },
            },
            (State::Removing, Event::Executed(outcome)) => match outcome {
                Some(msg) => (State::Done, ActionModel::Tell(msg@)),
                None => (State::Done, ActionModel::Done),
            },
            (State::Locating { configure }, Event::Probed(found)) => match found {
                None => (State::Done, spec_report(Err(HopError::Path(PathError::NotAbsolute)))),
                Some(target) => if configure {
                    (State::Done, spec_report(self.spec_configure_at(target.path@)))
                } else {
                    (State::Done, spec_answer(Self::spec_locate_at(target.path@)))
                },
            },
            (State::Resolving { purpose }, Event::Found { shortcut, local, history }) => {
                self.spec_found(purpose, shortcut, local, history)
            },
            (State::Probing { purpose, resolved }, Event::Probed(found)) => self.spec_probed(
                purpose,
                resolved,
                found,
            ),
            (State::Counting { target, edit_dir }, Event::Usage(current)) => {
                match Self::spec_history_key(target.path@, target.canonical@) {
                    Err(e) => (State::Done, spec_report(Err(e))),
                    Ok(key) => (
                        State::Recording { target, edit_dir },
                        ActionModel::Execute(
                            spec_history_insert(key.0, key.1, spec_next_usage(current)),
                        ),
                    ),
                }
            },
            (State::Recording { target, edit_dir }, Event::Executed(outcome)) => match outcome {
                Some(msg) => (State::Done, ActionModel::Tell(msg@)),
                None => (State::Done, spec_report(self.spec_bhop_it(Some(target), edit_dir))),
            },
            (State::Reading { base, resolved, subgroup }, Event::Manifest(manifest)) => {
                self.spec_manifest(base, resolved, subgroup, manifest)
            },
            _ => (State::Done, ActionModel::Done),
        }
    }
}

/// A request that only asks where a reference leads never has a statement
/// run: from a state that only reads, every event leads to a state that only
/// reads, by an action that is no statement.
pub proof fn finding_never_writes(hopper: Hopper, state: State, event: Event)
    requires
        reads_only(state),
    ensures
        reads_only(hopper.spec_resume(state, event).0),
        !(hopper.spec_resume(state, event).1 is Execute),
{
}

/// Finding and searching start in a state that only reads, with an action
/// that is no statement.
pub proof fn finding_and_searching_start_reading(hopper: Hopper, request: Request, exe: Seq<char>)
    requires
        request is Find || request is Search,
    ensures
        reads_only(hopper.spec_execute(request, exe).0),
        !(hopper.spec_execute(request, exe).1 is Execute),
{
}

/// A directory without a manifest has no groups, and a request for one of
/// its groups ends with a line that is the directory's normal form and
/// nothing else.
pub proof fn directory_without_manifest_is_navigated_to(
    hopper: Hopper,
    base: Located,
    resolved: bool,
    subgroup: Option<String>,
)
    requires
        spec_is_absolute(base.path@),
    ensures
        Hopper::spec_options(subgroup, None) is None,
        hopper.spec_resume(State::Reading { base, resolved, subgroup }, Event::Manifest(None))
            == (State::Done, ActionModel::Print(spec_sanitize(base.path@))),
{
}

/// A hop is reported only after it was recorded: the one step that prints
/// the line of a hop is the answer to the statement that stored it in the
/// history.
pub proof fn hop_is_recorded_before_it_is_reported(
    hopper: Hopper,
    target: Located,
    edit_dir: bool,
    current: Option<i64>,
)
    requires
        Hopper::spec_history_key(target.path@, target.canonical@) is Ok,
    ensures
        ({
            let key = Hopper::spec_history_key(target.path@, target.canonical@)->Ok_0;
            let counted = hopper.spec_resume(
                State::Counting { target, edit_dir },
                Event::Usage(current),
            );
            let recorded = hopper.spec_resume(counted.0, Event::Executed(None));
            &&& counted.1 == ActionModel::Execute(
                spec_history_insert(key.0, key.1, spec_next_usage(current)),
            )
            &&& recorded.0 is Done
            &&& recorded.1 == spec_report(hopper.spec_bhop_it(Some(target), edit_dir))
        }),
{
}

/// The final action that reports `outcome`.
pub fn report(outcome: Result<String, HopError>) -> (r: Action)
    ensures
        r@ == spec_report(line_view(outcome)),
{
    match outcome {
        Ok(line) => Action::Print(line),
        Err(e) => Action::Tell(e.message()),
    }
}

/// The final action that answers a question with `outcome`.
pub fn answer(outcome: Result<String, HopError>) -> (r: Action)
    ensures
        r@ == spec_answer(line_view(outcome)),
{
    match outcome {
        Ok(text) => Action::Tell(text),
        Err(e) => Action::Tell(e.message()),
    }
}

/// The action that asks the three sources for `reference`.
pub fn lookup(reference: &str) -> (r: Action)
    ensures
        r@ == spec_lookup(reference@),
{
    Action::Lookup {
        shortcuts: shortcut_find_query(reference),
        history: history_find_query(reference),
        pattern: reference.to_owned(),
    }
}

impl Hopper {
    fn store_shortcut(&self, reference: String, name: Option<String>, path: &str, hop: bool) -> (r:
        (State, Action))
        ensures
            r.0 == Self::spec_store_shortcut(reference, opt_view(name), path@, hop).0,
            r.1@ == Self::spec_store_shortcut(reference, opt_view(name), path@, hop).1,
    {
        let name = match name {
            Some(n) => n,
            None => match file_name(reference.as_str()) {
                Some(n) => n,
                None => {
                    return (State::Done, report(Err(HopError::Path(PathError::NoFileName))));
                },
            },
        };
        match self.add_shortcut(path, Some(name)) {
            Err(e) => (State::Done, report(Err(e))),
            Ok(statement) => (
                State::Added {
                    then: if hop {
                        Some(reference)
                    } else {
                        None
                    },
                },
                Action::Execute(statement),
            ),
        }
    }

    fn begin_add(&self, reference: String, name: Option<String>, hop: bool) -> (r: (State, Action))
        ensures
            r.0 == Self::spec_begin_add(reference, name, hop).0,
            r.1@ == Self::spec_begin_add(reference, name, hop).1,
    {
        if name.is_none() && file_name(reference.as_str()).is_none() {
            (State::Done, report(Err(HopError::Path(PathError::NoFileName))))
        } else if is_absolute(reference.as_str()) {
            let path = reference.clone();
            self.store_shortcut(reference, name, path.as_str(), hop)
        } else {
            let path = reference.clone();
            (State::Adding { reference, name, hop }, Action::Probe(path))
        }
    }

    fn begin_hop(&self, target: Located, edit_dir: bool) -> (r: (State, Action))
        ensures
            r.0 == Self::spec_begin_hop(target, edit_dir).0,
            r.1@ == Self::spec_begin_hop(target, edit_dir).1,
    {
        match self.find_usage(target.path.as_str(), target.canonical.as_str()) {
            Err(e) => (State::Done, report(Err(e))),
            Ok(query) => (State::Counting { target, edit_dir }, Action::Usage(query)),
        }
    }

    /// The first step of carrying out `request`: the state to go on from,
    /// and what the caller is to do. `exe` is the path of the running
    /// program.
    pub fn execute(&self, request: Request, exe: &str) -> (r: (State, Action))
        ensures
            r.0 == self.spec_execute(request, exe@).0,
            r.1@ == self.spec_execute(request, exe@).1,
    {
        match request {
            Request::Add(reference, name) => self.begin_add(reference, name, false),
            Request::Remove(name) => (
                State::Removing,
                Action::Execute(shortcut_remove_query(name.as_str())),
            ),
            Request::Use(reference, name) => match name {
                Some(n) => self.begin_add(reference, Some(n), true),
                None => (State::Resolving { purpose: Purpose::Hop }, lookup(reference.as_str())),
            },
            Request::Find(reference) => (
                State::Resolving { purpose: Purpose::Find },
                lookup(reference.as_str()),
            ),
            Request::Group(reference, subgroup) => (
                State::Resolving { purpose: Purpose::Group { subgroup } },
                lookup(reference.as_str()),
            ),
            Request::Passthrough(cmd) => (State::Done, report(self.passthrough(exe, cmd.as_str()))),
            Request::Search(filter) => {
                let (shortcuts, history) = match &filter {
                    Some(f) => (
                        self.search_shortcuts(Some(f.as_str())),
                        self.search_history(Some(f.as_str())),
                    ),
                    None => (self.search_shortcuts(None), self.search_history(None)),
                };
                (State::Done, Action::List { shortcuts, history })
            },
            Request::Notify(msg) => (State::Done, Action::Tell(msg)),
            Request::Help => (State::Done, Action::Help),
            Request::Configure => if is_absolute(self.env.config_path.as_str()) {
                (State::Done, report(self.configure()))
            } else {
                (State::Locating { configure: true }, Action::Probe(self.env.config_path.clone()))
            },
            Request::Locate => if is_absolute(self.env.config_path.as_str()) {
                (State::Done, answer(self.locate()))
            } else {
                (State::Locating { configure: false }, Action::Probe(self.env.config_path.clone()))
            },
            Request::Skip => (State::Done, Action::Done),
        }
    }

    fn found(
        &self,
        purpose: Purpose,
        shortcut: Option<String>,
        local: Option<String>,
        history: Option<String>,
    ) -> (r: (State, Action))
        ensures
            r.0 == self.spec_found(purpose, shortcut, local, history).0,
            r.1@ == self.spec_found(purpose, shortcut, local, history).1,
    {
        let resolved = self.grab(shortcut, local, history);
        match purpose {
            Purpose::Find => match resolved {
                None => (State::Done, Action::Tell(NOT_GRABBED.to_owned())),
                Some(p) => match sanitize(p.as_str()) {
                    Ok(location) => (State::Done, Action::Tell(location)),
                    Err(_) => (State::Probing { purpose, resolved: true }, Action::Probe(p)),
                },
            },
            Purpose::Hop => match resolved {
                None => (State::Done, report(Err(HopError::NoMatch))),
                Some(p) => (State::Probing { purpose, resolved: true }, Action::Probe(p)),
            },
            Purpose::Group { subgroup } => {
                let purpose = Purpose::Group { subgroup };
                match resolved {
                    None => (
                        State::Probing { purpose, resolved: false },
                        Action::Probe(".".to_owned()),
                    ),
                    Some(p) => (State::Probing { purpose, resolved: true }, Action::Probe(p)),
                }
            },
        }
    }

    fn probed(&self, purpose: Purpose, resolved: bool, found: Option<Located>) -> (r: (
        State,
        Action,
    ))
        ensures
            r.0 == self.spec_probed(purpose, resolved, found).0,
            r.1@ == self.spec_probed(purpose, resolved, found).1,
    {
        let target = match found {
            None => {
                return (State::Done, report(Err(HopError::Path(PathError::NotAbsolute))));
            },
            Some(target) => target,
        };
        match purpose {
            Purpose::Find => match sanitize(target.path.as_str()) {
                Ok(location) => (State::Done, answer(Ok(location))),
                Err(e) => (State::Done, answer(Err(HopError::Path(e)))),
            },
            Purpose::Hop => self.begin_hop(target, false),
            Purpose::Group { subgroup } => match sanitize(target.path.as_str()) {
                Err(e) => (State::Done, report(Err(HopError::Path(e)))),
                Ok(dir) => {
                    let manifest = join(dir.as_str(), self.env.manifest_name.as_str());
                    (State::Reading { base: target, resolved, subgroup }, Action::ReadManifest(manifest))
                },
            },
        }
    }

    fn manifest(
        &self,
        base: Located,
        resolved: bool,
        subgroup: Option<String>,
        manifest: Option<String>,
    ) -> (r: (State, Action))
        ensures
            r.0 == self.spec_manifest(base, resolved, subgroup, manifest).0,
            r.1@ == self.spec_manifest(base, resolved, subgroup, manifest).1,
    {
        let name = match &subgroup {
            Some(s) => s.as_str(),
            None => DEFAULT_SUBGROUP,
        };
        let options = match &manifest {
            Some(toml) => BhopGroup::from(name, Some(toml.as_str())),
            None => BhopGroup::from(name, None),
        };
        let edits_directory = match &options {
            Some(g) => g.cmd.is_none() && match &g.files {
                Some(files) => files.len() == 0,
                None => false,
            },
            None => false,
        };
        if edits_directory && resolved && is_absolute(base.path.as_str()) {
            self.begin_hop(base, true)
        } else {
            let outcome = if resolved {
                self.use_group(Some(&base), base.path.as_str(), options.as_ref())
            } else {
                self.use_group(None, base.path.as_str(), options.as_ref())
            };
            (State::Done, report(outcome))
        }
    }

    /// The next step of a request that is in `state`, now that `event`
    /// happened: the state to go on from, and what the caller is to do.
    pub fn resume(&self, state: State, event: Event) -> (r: (State, Action))
        ensures
            r.0 == self.spec_resume(state, event).0,
            r.1@ == self.spec_resume(state, event).1,
    {
        match (state, event) {
            (State::Adding { reference, name, hop }, Event::Probed(found)) => match found {
                None => (State::Done, report(Err(HopError::Path(PathError::NotAbsolute)))),
                Some(target) => self.store_shortcut(reference, name, target.path.as_str(), hop),
            },
            (State::Added { then }, Event::Executed(outcome)) => match outcome {
                Some(msg) => (State::Done, Action::Tell(msg)),
                None => match then {
                    None => (State::Done, Action::Done),
                    Some(reference) => (
                        State::Resolving { purpose: Purpose::Hop },
                        lookup(reference.as_str()),
                    ),
                },
            },
            (State::Removing, Event::Executed(outcome)) => match outcome {
                Some(msg) => (State::Done, Action::Tell(msg)),
                None => (State::Done, Action::Done),
            },
            (State::Locating { configure }, Event::Probed(found)) => match found {
                None => (State::Done, report(Err(HopError::Path(PathError::NotAbsolute)))),
                Some(target) => if configure {
                    (State::Done, report(self.configure_at(target.path.as_str())))
                } else {
                    (State::Done, answer(Self::locate_at(target.path.as_str())))
                },
            },
            (State::Resolving { purpose }, Event::Found { shortcut, local, history }) => {
                self.found(purpose, shortcut, local, history)
            },
            (State::Probing { purpose, resolved }, Event::Probed(found)) => self.probed(
                purpose,
                resolved,
                found,
            ),
            (State::Counting { target, edit_dir }, Event::Usage(current)) => {
                match self.add_history(target.path.as_str(), target.canonical.as_str(), current) {
                    Err(e) => (State::Done, report(Err(e))),
                    Ok(statement) => (
                        State::Recording { target, edit_dir },
                        Action::Execute(statement),
                    ),
                }
            },
            (State::Recording { target, edit_dir }, Event::Executed(outcome)) => match outcome {
                Some(msg) => (State::Done, Action::Tell(msg)),
                None => (State::Done, report(self.bhop_it(Some(&target), edit_dir))),
            },
            (State::Reading { base, resolved, subgroup }, Event::Manifest(manifest)) => {
                self.manifest(base, resolved, subgroup, manifest)
            },
            _ => (State::Done, Action::Done),
        }
    }
}

} // verus!
