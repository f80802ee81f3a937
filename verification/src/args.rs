//! What the user asked for: the words of the command line as a request.
//!
//! The first word after the program's name is the command; a word that is no
//! command is a reference to hop to.
use vstd::prelude::*;
use vstd::string::*;
use crate::text::{concat2, opt_view, str_equal};

verus! {

/// A request to the program.
#[derive(Debug, Clone, Eq, PartialEq)]
pub enum Request {
    /// Store a shortcut for a path, under a name or under the path's own.
    Add(String, Option<String>),
    /// Remove the shortcuts of a name.
    Remove(String),
    /// Hop to a reference, storing it under a name first if one is given.
    Use(String, Option<String>),
    /// Print what a reference resolves to.
    Find(String),
    /// Use a group below a reference, under a subgroup's name if one is given.
    Group(String, Option<String>),
    /// Have the runner call the program again with a command.
    Passthrough(String),
    /// List shortcuts and history, all or those that match a filter.
    Search(Option<String>),
    /// Tell the user something.
    Notify(String),
    /// Print the help.
    Help,
    /// Open the configuration in the editor.
    Configure,
    /// Print where the program's files are.
    Locate,
    /// Do nothing more.
    Skip,
}

/// A `Request` as characters.
pub enum RequestModel {
    Add(Seq<char>, Option<Seq<char>>),
    Remove(Seq<char>),
    Use(Seq<char>, Option<Seq<char>>),
    Find(Seq<char>),
    Group(Seq<char>, Option<Seq<char>>),
    Passthrough(Seq<char>),
    Search(Option<Seq<char>>),
    Notify(Seq<char>),
    Help,
    Configure,
    Locate,
    Skip,
}

impl View for Request {
    type V = RequestModel;

    open spec fn view(&self) -> RequestModel {
        match self {
            Request::Add(a, b) => RequestModel::Add(a@, opt_view(*b)),
            Request::Remove(a) => RequestModel::Remove(a@),
            Request::Use(a, b) => RequestModel::Use(a@, opt_view(*b)),
            Request::Find(a) => RequestModel::Find(a@),
            Request::Group(a, b) => RequestModel::Group(a@, opt_view(*b)),
            Request::Passthrough(a) => RequestModel::Passthrough(a@),
            Request::Search(a) => RequestModel::Search(opt_view(*a)),
            Request::Notify(a) => RequestModel::Notify(a@),
            Request::Help => RequestModel::Help,
            Request::Configure => RequestModel::Configure,
            Request::Locate => RequestModel::Locate,
            Request::Skip => RequestModel::Skip,
        }
    }
}

/// The word at index `i` of the command line, if there is one.
pub open spec fn spec_arg(args: Seq<String>, i: int) -> Option<Seq<char>> {
    if 0 <= i < args.len() {
        Some(args[i]@)
    } else {
        None
    }
}

/// `cmd` is one of the words that store a shortcut.
pub open spec fn is_add(cmd: Seq<char>) -> bool {
    cmd == "add"@ || cmd == "+"@
}

/// `cmd` is one of the words that remove a shortcut.
pub open spec fn is_remove(cmd: Seq<char>) -> bool {
    cmd == "r"@ || cmd == "rm"@ || cmd == "remove"@ || cmd == "-"@
}

/// `cmd` is one of the words that use a group.
pub open spec fn is_group(cmd: Seq<char>) -> bool {
    cmd == "g"@ || cmd == "grp"@ || cmd == "group"@ || cmd == "->"@ || cmd == "!"@
}

/// `cmd` is one of the words that resolve a reference without hopping.
pub open spec fn is_find(cmd: Seq<char>) -> bool {
    cmd == "f"@ || cmd == "find"@ || cmd == "<-"@ || cmd == "?"@
}

/// `cmd` is one of the words that list shortcuts and history.
pub open spec fn is_list(cmd: Seq<char>) -> bool {
    cmd == "l"@ || cmd == "ls"@ || cmd == "list"@ || cmd == ".."@
}

/// The request that a command line makes. The word at index 0 is the
/// program's name; the word at index 1 decides.
pub open spec fn spec_parse(args: Seq<String>) -> RequestModel {
    let second = spec_arg(args, 2);
    let third = spec_arg(args, 3);
    match spec_arg(args, 1) {
        None => RequestModel::Notify("No command provided."@),
        Some(cmd) => if is_add(cmd) {
            match second {
                Some(reference) => RequestModel::Add(reference, third),
                None => RequestModel::Notify("No shortcut name provided."@),
            }
        } else if is_remove(cmd) {
            match second {
                Some(reference) => RequestModel::Remove(reference),
                None => RequestModel::Notify("No shortcut to remove provided."@),
            }
        } else if is_group(cmd) {
            match second {
                Some(reference) => RequestModel::Group(reference, third),
                None => RequestModel::Notify("No shortcut to use provided."@),
            }
        } else if is_find(cmd) {
            match second {
                Some(reference) => RequestModel::Find(reference),
                None => RequestModel::Notify("No reference to grab provided."@),
            }
        } else if cmd == "brb"@ {
            RequestModel::Add("."@, Some("back"@))
        } else if cmd == "loc"@ || cmd == "locate"@ {
            RequestModel::Locate
        } else if cmd == "v"@ || cmd == "version"@ {
            RequestModel::Passthrough("__bhop_version__"@)
        } else if cmd == "h"@ || cmd == "help"@ {
            RequestModel::Passthrough("__bhop_help__"@)
        } else if is_list(cmd) {
            match second {
                Some(name) => RequestModel::Passthrough("__bhop_list__ "@ + name),
                None => RequestModel::Passthrough("__bhop_list__"@),
            }
        } else if cmd == "c"@ || cmd == "cfg"@ || cmd == "configure"@ {
            RequestModel::Configure
        } else if cmd == "__bhop_version__"@ {
            RequestModel::Skip
        } else if cmd == "__bhop_help__"@ {
            RequestModel::Help
        } else if cmd == "__bhop_list__"@ {
            RequestModel::Search(second)
        } else {
            RequestModel::Use(cmd, second)
        },
    }
}

fn arg(args: &Vec<String>, i: usize) -> (r: Option<String>)
    ensures
        opt_view(r) == spec_arg(args@, i as int),
{
    if i < args.len() {
        Some(args[i].clone())
    } else {
        None
    }
}

fn text(s: &str) -> (r: String)
    ensures
        r@ == s@,
{
    s.to_owned()
}

impl Request {
    /// Whether the command line asks for the program's version to be
    /// printed: its word at index 1 is `__bhop_version__`.
    pub fn wants_version(args: &Vec<String>) -> (r: bool)
        ensures
            r == (spec_arg(args@, 1) == Some("__bhop_version__"@)),
    {
        match arg(args, 1) {
            Some(cmd) => str_equal(cmd.as_str(), "__bhop_version__"),
            None => false,
        }
    }

    /// The request that the command line `args` makes.
    pub fn parse(args: &Vec<String>) -> (r: Request)
        ensures
            r@ == spec_parse(args@),
    {
        let second = arg(args, 2);
        let third = arg(args, 3);
        let cmd = match arg(args, 1) {
            None => {
                return Request::Notify(text("No command provided."));
            },
            Some(cmd) => cmd,
        };
        let c = cmd.as_str();
        if str_equal(c, "add") || str_equal(c, "+") {
            match second {
                Some(reference) => Request::Add(reference, third),
                None => Request::Notify(text("No shortcut name provided.")),
            }
        } else if str_equal(c, "r") || str_equal(c, "rm") || str_equal(c, "remove") || str_equal(
            c,
            "-",
        ) {
            match second {
                Some(reference) => Request::Remove(reference),
                None => Request::Notify(text("No shortcut to remove provided.")),
            }
        } else if str_equal(c, "g") || str_equal(c, "grp") || str_equal(c, "group") || str_equal(
            c,
            "->",
        ) || str_equal(c, "!") {
            match second {
                Some(reference) => Request::Group(reference, third),
                None => Request::Notify(text("No shortcut to use provided.")),
            }
        } else if str_equal(c, "f") || str_equal(c, "find") || str_equal(c, "<-") || str_equal(
            c,
            "?",
        ) {
            match second {
                Some(reference) => Request::Find(reference),
                None => Request::Notify(text("No reference to grab provided.")),
            }
        } else if str_equal(c, "brb") {
            Request::Add(text("."), Some(text("back")))
        } else if str_equal(c, "loc") || str_equal(c, "locate") {
            Request::Locate
        } else if str_equal(c, "v") || str_equal(c, "version") {
            Request::Passthrough(text("__bhop_version__"))
        } else if str_equal(c, "h") || str_equal(c, "help") {
            Request::Passthrough(text("__bhop_help__"))
        } else if str_equal(c, "l") || str_equal(c, "ls") || str_equal(c, "list") || str_equal(
            c,
            "..",
        ) {
            match second {
                Some(name) => Request::Passthrough(concat2("__bhop_list__ ", name.as_str())),
                None => Request::Passthrough(text("__bhop_list__")),
            }
        } else if str_equal(c, "c") || str_equal(c, "cfg") || str_equal(c, "configure") {
            Request::Configure
        } else if str_equal(c, "__bhop_version__") {
            Request::Skip
        } else if str_equal(c, "__bhop_help__") {
            Request::Help
        } else if str_equal(c, "__bhop_list__") {
            Request::Search(second)
        } else {
            Request::Use(cmd, second)
        }
    }
}

} // verus!
