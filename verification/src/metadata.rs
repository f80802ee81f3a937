//! Where the program keeps its files, and how it talks to the runner.
//!
//! The environment is read once, when the program starts, and handed to
//! whatever needs it.
use vstd::prelude::*;
use vstd::string::*;
use crate::paths::{join, spec_join};

verus! {

/// The version of the program.
pub const VERSION: &'static str = "0.1.0";

/// The separator between directives where none is configured.
pub const DEFAULT_SEPARATOR: &'static str = "|";

/// The name of a directory's manifest where none is configured.
pub const DEFAULT_MANIFEST: &'static str = ".bhop";

/// The file that a new configuration is copied from on Windows.
pub const WINDOWS_DEFAULTS: &'static str = "src/defaults/windows_defaults.toml";

/// The file that a new configuration is copied from elsewhere.
pub const UNIX_DEFAULTS: &'static str = "src/defaults/unix_defaults.toml";

/// The places of the program's files, and its two conventions with the
/// outside: the separator of directives and the name of a manifest.
#[derive(Debug, Clone, PartialEq)]
pub struct Environment {
    pub config_path: String,
    pub db_path: String,
    pub script_dir: String,
    pub separator: String,
    pub manifest_name: String,
}

/// The directory of the program's files: the configured one, else
/// `.config/bhop` below the home directory, else below `~/`.
pub open spec fn spec_config_dir(configured: Option<Seq<char>>, home: Option<Seq<char>>) -> Seq<
    char,
> {
    match configured {
        Some(dir) => dir,
        None => spec_join(
            spec_join(
                match home {
                    Some(h) => h,
                    None => "~/"@,
                },
                ".config"@,
            ),
            "bhop"@,
        ),
    }
}

/// The file that a new configuration is copied from.
pub open spec fn spec_defaults_file(windows: bool) -> Seq<char> {
    if windows {
        WINDOWS_DEFAULTS@
    } else {
        UNIX_DEFAULTS@
    }
}

/// The directory of the program's files.
pub fn config_dir(configured: Option<&str>, home: Option<&str>) -> (r: String)
    ensures
        r@ == spec_config_dir(
            match configured {
                Some(d) => Some(d@),
                None => None,
            },
            match home {
                Some(h) => Some(h@),
                None => None,
            },
        ),
{
    match configured {
        Some(dir) => dir.to_owned(),
        None => {
            let base = match home {
                Some(h) => h,
                None => "~/",
            };
            let dot_config = join(base, ".config");
            join(dot_config.as_str(), "bhop")
        },
    }
}

/// The file that a new configuration is copied from.
pub fn defaults_file(windows: bool) -> (r: &'static str)
    ensures
        r@ == spec_defaults_file(windows),
{
    if windows {
        WINDOWS_DEFAULTS
    } else {
        UNIX_DEFAULTS
    }
}

impl Environment {
    /// The environment of a program whose files are in `config_dir`: the
    /// configuration `bhop.toml` in it, the database `db/bhop.db` and the
    /// runner scripts in `scripts` below it. The separator and the manifest
    /// name are the given ones, else `|` and `.bhop`.
    pub fn new(config_dir: &str, separator: Option<String>, manifest_name: Option<String>) -> (r:
        Environment)
        ensures
            r.config_path@ == spec_join(config_dir@, "bhop.toml"@),
            r.db_path@ == spec_join(spec_join(config_dir@, "db"@), "bhop.db"@),
            r.script_dir@ == spec_join(config_dir@, "scripts"@),
            r.separator@ == (match separator {
                Some(s) => s@,
                None => DEFAULT_SEPARATOR@,
            }),
            r.manifest_name@ == (match manifest_name {
                Some(m) => m@,
                None => DEFAULT_MANIFEST@,
            }),
    {
        let db_dir = join(config_dir, "db");
        Environment {
            config_path: join(config_dir, "bhop.toml"),
            db_path: join(db_dir.as_str(), "bhop.db"),
            script_dir: join(config_dir, "scripts"),
            separator: match separator {
                Some(s) => s,
                None => DEFAULT_SEPARATOR.to_owned(),
            },
            manifest_name: match manifest_name {
                Some(m) => m,
                None => DEFAULT_MANIFEST.to_owned(),
            },
        }
    }
}

impl Default for Environment {
    /// The environment where nothing is configured and no home directory is
    /// known.
    fn default() -> (r: Environment)
        ensures
            r.config_path@ == spec_join(spec_config_dir(None, None), "bhop.toml"@),
            r.db_path@ == spec_join(spec_join(spec_config_dir(None, None), "db"@), "bhop.db"@),
            r.script_dir@ == spec_join(spec_config_dir(None, None), "scripts"@),
            r.separator@ == DEFAULT_SEPARATOR@,
            r.manifest_name@ == DEFAULT_MANIFEST@,
    {
        let dir = config_dir(None, None);
        Environment::new(dir.as_str(), None, None)
    }
}

} // verus!
