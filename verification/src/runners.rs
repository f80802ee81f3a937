//! The shells that can host a runner, and how a runner is installed.
//!
//! A runner is a shell function that calls this program and carries out the
//! line it prints: up to the first separator the directory to change to,
//! behind it the command to run; a line without separator is a directory to
//! change to if it names one, and a command if not. Installing a runner
//! means writing the runner script and making the shell's startup file
//! source it, once.
use vstd::prelude::*;
use vstd::string::*;
use crate::paths::{join, spec_join};
use crate::text::{
    char_in_parts, chars_of, concat2, concat3, contains, contains_seq, occurrence_count,
    occurs_at, opt_view, replace, replace_all, replace_char, string_of, swap_char,
};

verus! {

/// The name under which the program is called from a runner.
pub const PROGRAM_NAME: &'static str = "bhop";

/// What stands for the home directory where none is known.
pub const UNKNOWN_HOME: &'static str = "~/";

/// The alias a runner gets where none is configured.
pub const DEFAULT_ALIAS: &'static str = "hp";

/// The runner for POSIX shells.
pub const RUNNER_SH: &'static str = "__FUNCTION_ALIAS__() {\n    bhop_out=\"$(__HOPPERCMD__ \"$@\")\"\n    case \"$bhop_out\" in\n        \"\") ;;\n        *\"__CMD_SEPARATOR__\"*)\n            cd \"${bhop_out%%__CMD_SEPARATOR__*}\" || return\n            eval \"${bhop_out#*__CMD_SEPARATOR__}\"\n            ;;\n        *)\n            if [ -d \"$bhop_out\" ]; then\n                cd \"$bhop_out\" || return\n            else\n                eval \"$bhop_out\"\n            fi\n            ;;\n    esac\n}\n";

/// The runner for Zsh.
pub const RUNNER_ZSH: &'static str = "function __FUNCTION_ALIAS__() {\n    local bhop_out=\"$(__HOPPERCMD__ \"$@\")\"\n    if [[ -z \"$bhop_out\" ]]; then\n        return\n    elif [[ \"$bhop_out\" == *\"__CMD_SEPARATOR__\"* ]]; then\n        cd \"${bhop_out%%__CMD_SEPARATOR__*}\" || return\n        eval \"${bhop_out#*__CMD_SEPARATOR__}\"\n    elif [[ -d \"$bhop_out\" ]]; then\n        cd \"$bhop_out\" || return\n    else\n        eval \"$bhop_out\"\n    fi\n}\n";

/// The runner for Nushell.
pub const RUNNER_NU: &'static str = "def --env __FUNCTION_ALIAS__ [...args] {\n    let bhop_out = (^__HOPPERCMD__ ...$args | str trim)\n    if ($bhop_out | is-empty) {\n        return\n    }\n    let parts = ($bhop_out | split row -n 2 \"__CMD_SEPARATOR__\")\n    if ($parts | length) == 2 {\n        cd ($parts | get 0)\n        ^__SHELL_CALLABLE__ -c ($parts | get 1)\n    } else if ($bhop_out | path type) == \"dir\" {\n        cd $bhop_out\n    } else {\n        ^__SHELL_CALLABLE__ -c $bhop_out\n    }\n}\n";

/// The runner for PowerShell.
pub const RUNNER_PS1: &'static str = "function __FUNCTION_ALIAS__ {\n    $bhopOut = (& __HOPPERCMD__ @args | Out-String).Trim()\n    if (-not $bhopOut) {\n        return\n    }\n    $parts = $bhopOut.Split(\"__CMD_SEPARATOR__\", 2)\n    if ($parts.Count -eq 2) {\n        Set-Location $parts[0]\n        Invoke-Expression $parts[1]\n    } elseif (Test-Path -PathType Container $bhopOut) {\n        Set-Location $bhopOut\n    } else {\n        Invoke-Expression $bhopOut\n    }\n}\n";

/// The runner for Elvish.
pub const RUNNER_ELV: &'static str = "use str\nuse path\nfn __FUNCTION_ALIAS__ {|@args|\n    var bhop_out = (str:trim-space (__HOPPERCMD__ $@args | slurp))\n    if (eq $bhop_out \"\") {\n        return\n    }\n    var parts = [(str:split &max=2 \"__CMD_SEPARATOR__\" $bhop_out)]\n    if (== (count $parts) 2) {\n        cd $parts[0]\n        eval $parts[1]\n    } elif (path:is-dir $bhop_out) {\n        cd $bhop_out\n    } else {\n        eval $bhop_out\n    }\n}\n";

/// A shell that can host a runner.
#[derive(Debug, Clone, Copy, PartialEq, Eq)]
pub enum Shell {
    Zsh,
    Bash,
    Nushell,
    Powershell,
    Elvish,
}

/// What the caller found out about the machine: which family of operating
/// system it runs, and whether the user's documents are redirected to a
/// synchronised folder.
#[derive(Debug, Clone, Copy, PartialEq, Eq)]
pub struct Platform {
    pub windows: bool,
    pub redirected_documents: bool,
}

/// What a path that a shell reported names on disk.
#[derive(Debug, Clone, Copy, PartialEq, Eq)]
pub enum PathKind {
    File,
    Directory,
    Missing,
}

/// A path that a shell reported as its configuration, and what it names.
pub struct ProbedPath {
    pub path: String,
    pub kind: PathKind,
}

impl Shell {
    /// The command that starts the shell from any other shell.
    pub open spec fn spec_call_cmd(self) -> Seq<char> {
        match self {
            Shell::Zsh => "zsh"@,
            Shell::Bash => "sh"@,
            Shell::Nushell => "nu"@,
            Shell::Powershell => "pwsh"@,
            Shell::Elvish => "elvish"@,
        }
    }

    /// The command by which the shell's startup file sources another file.
    pub open spec fn spec_source_cmd(self) -> Seq<char> {
        match self {
            Shell::Nushell => "source"@,
            _ => "."@,
        }
    }

    /// The shell's proper name.
    pub open spec fn spec_name(self) -> Seq<char> {
        match self {
            Shell::Zsh => "ZSH"@,
            Shell::Bash => "BASH"@,
            Shell::Nushell => "NUSHELL"@,
            Shell::Powershell => "POWERSHELL"@,
            Shell::Elvish => "ELVISH"@,
        }
    }

    /// The environment variable that overrides where the shell's startup
    /// file is looked for.
    pub open spec fn spec_env_var(self) -> Seq<char> {
        match self {
            Shell::Zsh => "BHOP_ZSH_CONFIG_DIR"@,
            Shell::Bash => "BHOP_BASH_CONFIG_DIR"@,
            Shell::Nushell => "BHOP_NUSHELL_CONFIG_DIR"@,
            Shell::Powershell => "BHOP_POWERSHELL_CONFIG_DIR"@,
            Shell::Elvish => "BHOP_ELVISH_CONFIG_DIR"@,
        }
    }

    /// The extension of the shell's script files.
    pub open spec fn spec_ext(self) -> Seq<char> {
        match self {
            Shell::Nushell => "nu"@,
            Shell::Powershell => "ps1"@,
            Shell::Zsh => "zsh"@,
            Shell::Elvish => "elv"@,
            Shell::Bash => "sh"@,
        }
    }

    /// The runner template for the shell.
    pub open spec fn spec_script(self) -> Seq<char> {
        match self {
            Shell::Nushell => RUNNER_NU@,
            Shell::Powershell => RUNNER_PS1@,
            Shell::Zsh => RUNNER_ZSH@,
            Shell::Elvish => RUNNER_ELV@,
            Shell::Bash => RUNNER_SH@,
        }
    }

    /// The variable that, inside the shell, names its startup file or the
    /// directory of it.
    pub open spec fn spec_config_dir(self) -> Seq<char> {
        match self {
            Shell::Zsh => "ZDOTDIR"@,
            Shell::Bash => "HOME"@,
            Shell::Nushell => "nu.env-path"@,
            Shell::Powershell => "profile"@,
            Shell::Elvish => "$E:HOME/.config/elvish"@,
        }
    }

    /// The usual name of the shell's startup file.
    pub open spec fn spec_config_name(self) -> Seq<char> {
        match self {
            Shell::Zsh => ".zshrc"@,
            Shell::Bash => ".bashrc"@,
            Shell::Nushell => "env.nu"@,
            Shell::Powershell => "Microsoft.Powershell_profile.ps1"@,
            Shell::Elvish => "rc.elv"@,
        }
    }

    /// The startup file directly below the home directory.
    pub open spec fn spec_home_default(self, home: Seq<char>) -> Seq<char> {
        spec_join(home, self.spec_config_name())
    }

    /// Nushell's startup file: below the roaming application data on
    /// Windows, below `config` elsewhere.
    pub open spec fn spec_nushell_default(home: Seq<char>, platform: Platform) -> Seq<char> {
        if platform.windows {
            spec_join(
                spec_join(spec_join(spec_join(home, "AppData"@), "Roaming"@), "nushell"@),
                "env.nu"@,
            )
        } else {
            spec_join(spec_join(spec_join(home, "config"@), "nushell"@), "env.nu"@)
        }
    }

    /// PowerShell's startup file: on Windows below the documents folder, the
    /// redirected one where there is one; elsewhere below `.config`.
    pub open spec fn spec_powershell_default(self, home: Seq<char>, platform: Platform) -> Seq<
        char,
    > {
        if platform.windows {
            if platform.redirected_documents {
                spec_join(
                    spec_join(
                        spec_join(spec_join(home, "OneDrive"@), "Documents"@),
                        "WindowsPowerShell"@,
                    ),
                    self.spec_config_name(),
                )
            } else {
                spec_join(
                    spec_join(spec_join(home, "Documents"@), "WindowsPowerShell"@),
                    "Microsoft.PowerShell_profile.ps1"@,
                )
            }
        } else {
            spec_join(
                spec_join(spec_join(home, ".config"@), "powershell"@),
                "Microsoft.Powershell_profile.ps1"@,
            )
        }
    }

    /// The startup file where nothing better is known: the shell's own
    /// default below the home directory, or below `~/` where no home
    /// directory is known.
    pub open spec fn spec_find_default(self, home: Option<Seq<char>>, platform: Platform) -> Seq<
        char,
    > {
        let h = match home {
            Some(h) => h,
            None => UNKNOWN_HOME@,
        };
        match self {
            Shell::Nushell => Self::spec_nushell_default(h, platform),
            Shell::Powershell => self.spec_powershell_default(h, platform),
            _ => self.spec_home_default(h),
        }
    }

    /// The line that asks the shell for its configuration variable.
    pub open spec fn spec_probe_command(self) -> Seq<char> {
        "echo $"@ + self.spec_config_dir()
    }

    /// The startup file of the shell, by the first source that answers: the
    /// override, then what the shell itself reported, then the default.
    pub open spec fn spec_derive_config_path(
        self,
        from_env: Option<Seq<char>>,
        probed: Option<(Seq<char>, PathKind)>,
        home: Option<Seq<char>>,
        platform: Platform,
    ) -> Seq<char> {
        match from_env {
            Some(p) => p,
            None => match probed {
                Some((path, PathKind::File)) => path,
                Some((path, PathKind::Directory)) => spec_join(path, self.spec_config_name()),
                _ => self.spec_find_default(home, platform),
            },
        }
    }

    /// The command that starts the shell from any other shell.
    pub fn call_cmd(&self) -> (r: &'static str)
        ensures
            r@ == self.spec_call_cmd(),
    {
        match self {
            Shell::Zsh => "zsh",
            Shell::Bash => "sh",
            Shell::Nushell => "nu",
            Shell::Powershell => "pwsh",
            Shell::Elvish => "elvish",
        }
    }

    /// The command by which the shell's startup file sources another file.
    pub fn source_cmd(&self) -> (r: &'static str)
        ensures
            r@ == self.spec_source_cmd(),
    {
        match self {
            Shell::Nushell => "source",
            _ => ".",
        }
    }

    /// The shell's proper name.
    pub fn name(&self) -> (r: &'static str)
        ensures
            r@ == self.spec_name(),
    {
        match self {
            Shell::Zsh => "ZSH",
            Shell::Bash => "BASH",
            Shell::Nushell => "NUSHELL",
            Shell::Powershell => "POWERSHELL",
            Shell::Elvish => "ELVISH",
        }
    }

    /// The environment variable that overrides where the shell's startup
    /// file is looked for.
    pub fn env_var(&self) -> (r: &'static str)
        ensures
            r@ == self.spec_env_var(),
    {
        match self {
            Shell::Zsh => "BHOP_ZSH_CONFIG_DIR",
            Shell::Bash => "BHOP_BASH_CONFIG_DIR",
            Shell::Nushell => "BHOP_NUSHELL_CONFIG_DIR",
            Shell::Powershell => "BHOP_POWERSHELL_CONFIG_DIR",
            Shell::Elvish => "BHOP_ELVISH_CONFIG_DIR",
        }
    }

    /// The extension of the shell's script files.
    pub fn ext(&self) -> (r: &'static str)
        ensures
            r@ == self.spec_ext(),
    {
        match self {
            Shell::Nushell => "nu",
            Shell::Powershell => "ps1",
            Shell::Zsh => "zsh",
            Shell::Elvish => "elv",
            _ => "sh",
        }
    }

    /// The runner template for the shell.
    pub fn script(&self) -> (r: &'static str)
        ensures
            r@ == self.spec_script(),
    {
        match self {
            Shell::Nushell => RUNNER_NU,
            Shell::Powershell => RUNNER_PS1,
            Shell::Zsh => RUNNER_ZSH,
            Shell::Elvish => RUNNER_ELV,
            _ => RUNNER_SH,
        }
    }

    /// The variable that, inside the shell, names its startup file or the
    /// directory of it.
    pub fn config_dir(&self) -> (r: &'static str)
        ensures
            r@ == self.spec_config_dir(),
    {
        match self {
            Shell::Zsh => "ZDOTDIR",
            Shell::Bash => "HOME",
            Shell::Nushell => "nu.env-path",
            Shell::Powershell => "profile",
            Shell::Elvish => "$E:HOME/.config/elvish",
        }
    }

    /// The usual name of the shell's startup file.
    pub fn config_name(&self) -> (r: &'static str)
        ensures
            r@ == self.spec_config_name(),
    {
        match self {
            Shell::Zsh => ".zshrc",
            Shell::Bash => ".bashrc",
            Shell::Nushell => "env.nu",
            Shell::Powershell => "Microsoft.Powershell_profile.ps1",
            Shell::Elvish => "rc.elv",
        }
    }

    /// The startup file directly below the home directory `home`.
    pub fn home_default(&self, home: &str) -> (r: String)
        ensures
            r@ == self.spec_home_default(home@),
    {
        join(home, self.config_name())
    }

    /// Nushell's startup file below the home directory `home`.
    pub fn nushell_default(&self, home: &str, platform: &Platform) -> (r: String)
        ensures
            r@ == Self::spec_nushell_default(home@, *platform),
    {
        if platform.windows {
            let a = join(home, "AppData");
            let b = join(a.as_str(), "Roaming");
            let c = join(b.as_str(), "nushell");
            join(c.as_str(), "env.nu")
        } else {
            let a = join(home, "config");
            let b = join(a.as_str(), "nushell");
            join(b.as_str(), "env.nu")
        }
    }

    /// PowerShell's startup file below the home directory `home`.
    pub fn powershell_default(&self, home: &str, platform: &Platform) -> (r: String)
        ensures
            r@ == self.spec_powershell_default(home@, *platform),
    {
        if platform.windows {
            if platform.redirected_documents {
                let a = join(home, "OneDrive");
                let b = join(a.as_str(), "Documents");
                let c = join(b.as_str(), "WindowsPowerShell");
                join(c.as_str(), self.config_name())
            } else {
                let a = join(home, "Documents");
                let b = join(a.as_str(), "WindowsPowerShell");
                join(b.as_str(), "Microsoft.PowerShell_profile.ps1")
            }
        } else {
            let a = join(home, ".config");
            let b = join(a.as_str(), "powershell");
            join(b.as_str(), "Microsoft.Powershell_profile.ps1")
        }
    }

    /// The startup file where nothing better is known.
    pub fn find_default(&self, home: Option<&str>, platform: &Platform) -> (r: String)
        ensures
            r@ == self.spec_find_default(
                match home {
                    Some(h) => Some(h@),
                    None => None,
                },
                *platform,
            ),
    {
        let h = match home {
            Some(h) => h,
            None => UNKNOWN_HOME,
        };
        match self {
            Shell::Nushell => self.nushell_default(h, platform),
            Shell::Powershell => self.powershell_default(h, platform),
            _ => self.home_default(h),
        }
    }

    /// The line that asks the shell for its configuration variable.
    pub fn probe_command(&self) -> (r: String)
        ensures
            r@ == self.spec_probe_command(),
    {
        concat2("echo $", self.config_dir())
    }

    /// The startup file of the shell, by the first source that answers:
    /// `from_env`, the value of the override variable; then `probed`, the
    /// path the shell reported, if it names a file or a directory; then the
    /// default below `home`. There is always an answer.
    pub fn derive_config_path(
        &self,
        from_env: Option<String>,
        probed: Option<ProbedPath>,
        home: Option<&str>,
        platform: &Platform,
    ) -> (r: String)
        ensures
            r@ == self.spec_derive_config_path(
                opt_view(from_env),
                match probed {
                    Some(p) => Some((p.path@, p.kind)),
                    None => None,
                },
                match home {
                    Some(h) => Some(h@),
                    None => None,
                },
                *platform,
            ),
    {
        match from_env {
            Some(p) => p,
            None => match probed {
                Some(ProbedPath { path, kind: PathKind::File }) => path,
                Some(ProbedPath { path, kind: PathKind::Directory }) => join(
                    path.as_str(),
                    self.config_name(),
                ),
                _ => self.find_default(home, platform),
            },
        }
    }
}

/// What a shell printed when asked for its configuration variable, as the
/// path to look at: the output without surrounding white space, unless
/// nothing is left of it.
pub open spec fn spec_probe_target(output: Seq<char>) -> Option<Seq<char>> {
    let t = crate::text::trimmed(output);
    if t.len() == 0 {
        None
    } else {
        Some(t)
    }
}

/// The path to look at after a shell printed `output`.
pub fn probe_target(output: &str) -> (r: Option<String>)
    ensures
        opt_view(r) == spec_probe_target(output@),
{
    let t = crate::text::trim(output);
    if t.as_str().unicode_len() == 0 {
        None
    } else {
        Some(t)
    }
}

/// The startup file of a shell, as the caller found it: where it is, and
/// what it holds (nothing, where it does not exist yet).
pub struct ConfigFile {
    pub path: String,
    pub contents: String,
}

/// What installing a runner for one shell comes to: the script to write, and
/// what to append to the startup file, if anything.
pub struct InstallPlan {
    /// Where the runner script goes; an older one is replaced.
    pub script_path: String,
    /// The runner script.
    pub script: String,
    /// The startup file to extend.
    pub config_path: String,
    /// What to append to the startup file; `None` where it already sources
    /// the script.
    pub addition: Option<String>,
}

/// Why no runner could be installed for a shell.
#[derive(Debug, Clone, Copy, PartialEq, Eq)]
pub enum InstallError {
    /// The startup file of the shell could not be had.
    NoConfigPath(Shell),
}

impl InstallError {
    /// The words in which the error is reported.
    pub open spec fn spec_message(self) -> Seq<char> {
        match self {
            InstallError::NoConfigPath(shell) => "Unable to add runner for "@ + shell.spec_name()
                + "."@,
        }
    }

    /// The words in which the error is reported.
    pub fn message(&self) -> (r: String)
        ensures
            r@ == self.spec_message(),
    {
        match self {
            InstallError::NoConfigPath(shell) => concat3(
                "Unable to add runner for ",
                shell.name(),
                ".",
            ),
        }
    }
}

/// The runner script made from `template`: each placeholder replaced, in the
/// order program name, shell command, alias, separator.
pub open spec fn spec_render(
    template: Seq<char>,
    shell_cmd: Seq<char>,
    alias: Seq<char>,
    separator: Seq<char>,
) -> Seq<char> {
    replace_all(
        replace_all(
            replace_all(
                replace_all(template, "__HOPPERCMD__"@, PROGRAM_NAME@),
                "__SHELL_CALLABLE__"@,
                shell_cmd,
            ),
            "__FUNCTION_ALIAS__"@,
            alias,
        ),
        "__CMD_SEPARATOR__"@,
        separator,
    )
}

/// The line that sources the script at `script_path`: the shell's source
/// command, a space, and the path in double quotes, with every backslash
/// turned into a slash.
pub open spec fn spec_source_directive(source_cmd: Seq<char>, script_path: Seq<char>) -> Seq<
    char,
> {
    swap_char(source_cmd + " \""@ + script_path + "\""@, '\\', '/')
}

/// What to append to a startup file that holds `contents`: a line break and
/// the directive, unless the directive already stands in it.
pub open spec fn spec_config_addition(contents: Seq<char>, directive: Seq<char>) -> Option<
    Seq<char>,
> {
    if contains_seq(contents, directive) {
        None
    } else {
        Some("\n"@ + directive)
    }
}

/// The startup file after the installation.
pub open spec fn spec_installed(contents: Seq<char>, directive: Seq<char>) -> Seq<char> {
    match spec_config_addition(contents, directive) {
        None => contents,
        Some(addition) => contents + addition,
    }
}

/// After an installation the startup file holds the directive, and a second
/// installation leaves the file as the first one made it.
pub proof fn install_is_idempotent(contents: Seq<char>, directive: Seq<char>)
    ensures
        contains_seq(spec_installed(contents, directive), directive),
        spec_config_addition(spec_installed(contents, directive), directive) is None,
        spec_installed(spec_installed(contents, directive), directive) == spec_installed(
            contents,
            directive,
        ),
{
    reveal_strlit("\n");
    if !contains_seq(contents, directive) {
        let once = contents + ("\n"@ + directive);
        let at: int = (contents.len() + 1) as int;
        assert(once.subrange(at, at + directive.len()) =~= directive);
        assert(occurs_at(once, directive, at));
    }
}

/// Where the directive holds no line break and stands at most once in the
/// startup file, the file holds it exactly once after two installations.
pub proof fn install_twice_leaves_one_directive(contents: Seq<char>, directive: Seq<char>)
    requires
        !directive.contains('\n'),
        forall|i: int, j: int|
            occurs_at(contents, directive, i) && occurs_at(contents, directive, j) ==> i == j,
    ensures
        occurrence_count(
            spec_installed(spec_installed(contents, directive), directive),
            directive,
        ) == 1,
{
    reveal_strlit("\n");
    install_is_idempotent(contents, directive);
    let once = spec_installed(contents, directive);
    let places = Set::new(|i: int| occurs_at(once, directive, i));
    if contains_seq(contents, directive) {
        let at = choose|i: int| occurs_at(contents, directive, i);
        assert(places =~= set![at]);
    } else {
        let at: int = (contents.len() + 1) as int;
        assert forall|i: int| occurs_at(once, directive, i) implies i == at by {
            if i + directive.len() <= contents.len() {
                assert(once.subrange(i, i + directive.len()) =~= contents.subrange(
                    i,
                    i + directive.len(),
                ));
                assert(occurs_at(contents, directive, i));
            } else if i <= contents.len() {
                let k: int = contents.len() - i;
                assert(directive[k] == '\n');
            }
        }
        assert(places =~= set![at]);
    }
}

/// The shells to install runners for, the alias the runners get, and the
/// directory that holds their scripts.
pub struct Runners {
    pub alias: String,
    pub shells: Vec<Shell>,
    pub script_dir: String,
}

impl Runners {
    /// Where the runner script of `shell` goes.
    pub open spec fn spec_script_path(self, shell: Shell) -> Seq<char> {
        spec_join(self.script_dir@, "runner."@ + shell.spec_ext())
    }

    /// The line that makes `shell` source its runner script.
    pub open spec fn spec_directive(self, shell: Shell) -> Seq<char> {
        spec_source_directive(shell.spec_source_cmd(), self.spec_script_path(shell))
    }

    /// The runner script of `shell`.
    pub open spec fn spec_script(self, shell: Shell, separator: Seq<char>) -> Seq<char> {
        spec_render(shell.spec_script(), shell.spec_call_cmd(), self.alias@, separator)
    }

    /// Runners for `shells` with their scripts in `script_dir`, under
    /// `alias`, or under `hp` where none is given.
    pub fn new(shells: Vec<Shell>, script_dir: String, alias: Option<String>) -> (r: Runners)
        ensures
            r.shells == shells,
            r.script_dir == script_dir,
            r.alias@ == (match alias {
                Some(a) => a@,
                None => DEFAULT_ALIAS@,
            }),
    {
        let alias = match alias {
            Some(a) => a,
            None => DEFAULT_ALIAS.to_owned(),
        };
        Runners { alias, shells, script_dir }
    }

    /// Where the runner script of `shell` goes.
    pub fn script_path(&self, shell: &Shell) -> (r: String)
        ensures
            r@ == self.spec_script_path(*shell),
    {
        let name = concat2("runner.", shell.ext());
        join(self.script_dir.as_str(), name.as_str())
    }

    /// The line that makes `shell` source its runner script.
    pub fn source_directive(&self, shell: &Shell) -> (r: String)
        ensures
            r@ == self.spec_directive(*shell),
    {
        let path = self.script_path(shell);
        let mut line = concat3(shell.source_cmd(), " \"", path.as_str());
        line.append("\"");
        let v = chars_of(line.as_str());
        let out = replace_char(&v, '\\', '/');
        string_of(&out)
    }

    /// The runner script of `shell`, with `separator` between the directives
    /// it will be handed.
    pub fn render_script(&self, shell: &Shell, separator: &str) -> (r: String)
        ensures
            r@ == self.spec_script(*shell, separator@),
    {
        let a = replace(shell.script(), "__HOPPERCMD__", PROGRAM_NAME);
        let b = replace(a.as_str(), "__SHELL_CALLABLE__", shell.call_cmd());
        let c = replace(b.as_str(), "__FUNCTION_ALIAS__", self.alias.as_str());
        replace(c.as_str(), "__CMD_SEPARATOR__", separator)
    }

    /// What installing the runner of `shell` comes to, given the shell's
    /// startup file: the script with its place, and what the startup file
    /// still lacks. Where the caller could not get at the startup file there
    /// is nothing to install.
    pub fn add_runner(&self, shell: &Shell, config: Option<&ConfigFile>, separator: &str) -> (r:
        Result<InstallPlan, InstallError>)
        ensures
            match r {
                Ok(plan) => config is Some && plan.script_path@ == self.spec_script_path(*shell)
                    && plan.script@ == self.spec_script(*shell, separator@) && plan.config_path@
                    == config->0.path@ && opt_view(plan.addition) == spec_config_addition(
                    config->0.contents@,
                    self.spec_directive(*shell),
                ),
                Err(e) => config is None && e == InstallError::NoConfigPath(*shell),
            },
    {
        match config {
            None => Err(InstallError::NoConfigPath(*shell)),
            Some(file) => {
                let directive = self.source_directive(shell);
                let addition = config_addition(file.contents.as_str(), directive.as_str());
                Ok(
                    InstallPlan {
                        script_path: self.script_path(shell),
                        script: self.render_script(shell, separator),
                        config_path: file.path.clone(),
                        addition,
                    },
                )
            },
        }
    }

    /// What installing the runners of all the shells comes to, one outcome
    /// for each shell in order, whatever became of the others. `configs`
    /// holds the startup file of each shell, in the same order; a shell
    /// without an entry there has none.
    pub fn add_runners(&self, configs: &Vec<Option<ConfigFile>>, separator: &str) -> (r: Vec<
        Result<InstallPlan, InstallError>,
    >)
        ensures
            r@.len() == self.shells@.len(),
            forall|i: int|
                0 <= i < r@.len() ==> self.spec_outcome(
                    self.shells@[i],
                    if i < configs@.len() {
                        configs@[i]
                    } else {
                        None
                    },
                    separator@,
                    #[trigger] r@[i],
                ),
    {
        let mut out: Vec<Result<InstallPlan, InstallError>> = Vec::new();
        let mut i: usize = 0;
        while i < self.shells.len()
            invariant
                i <= self.shells@.len(),
                out@.len() == i,
                forall|k: int|
                    0 <= k < i ==> self.spec_outcome(
                        self.shells@[k],
                        if k < configs@.len() {
                            configs@[k]
                        } else {
                            None
                        },
                        separator@,
                        #[trigger] out@[k],
                    ),
            decreases self.shells@.len() - i,
        {
            let shell = self.shells[i];
            let outcome = if i < configs.len() {
                self.add_runner(&shell, configs[i].as_ref(), separator)
            } else {
                self.add_runner(&shell, None, separator)
            };
            out.push(outcome);
            i += 1;
        }
        out
    }

    /// `outcome` is what installing the runner of `shell` comes to, given
    /// its startup file `config`.
    pub open spec fn spec_outcome(
        self,
        shell: Shell,
        config: Option<ConfigFile>,
        separator: Seq<char>,
        outcome: Result<InstallPlan, InstallError>,
    ) -> bool {
        match outcome {
            Ok(plan) => config is Some && plan.script_path@ == self.spec_script_path(shell)
                && plan.script@ == self.spec_script(shell, separator) && plan.config_path@
                == config->0.path@ && opt_view(plan.addition) == spec_config_addition(
                config->0.contents@,
                self.spec_directive(shell),
            ),
            Err(e) => config is None && e == InstallError::NoConfigPath(shell),
        }
    }
}

/// Where the directory of the scripts has no line break in its name, the
/// line that sources a runner script has none either.
pub proof fn directive_is_one_line(runners: Runners, shell: Shell)
    requires
        !runners.script_dir@.contains('\n'),
    ensures
        !runners.spec_directive(shell).contains('\n'),
{
    reveal_strlit(".");
    reveal_strlit("source");
    reveal_strlit(" \"");
    reveal_strlit("\"");
    reveal_strlit("/");
    reveal_strlit("runner.");
    reveal_strlit("nu");
    reveal_strlit("ps1");
    reveal_strlit("zsh");
    reveal_strlit("elv");
    reveal_strlit("sh");
    let name = "runner."@ + shell.spec_ext();
    let path = runners.spec_script_path(shell);
    let line = shell.spec_source_cmd() + " \""@ + path + "\""@;
    let directive = runners.spec_directive(shell);
    if directive.contains('\n') {
        let i = choose|i: int| 0 <= i < directive.len() && directive[i] == '\n';
        assert(line[i] == '\n');
        char_in_parts(shell.spec_source_cmd() + " \""@ + path, "\""@, '\n');
        char_in_parts(shell.spec_source_cmd() + " \""@, path, '\n');
        char_in_parts(shell.spec_source_cmd(), " \""@, '\n');
        if runners.script_dir@.len() == 0 || runners.script_dir@.last() == '/' {
            char_in_parts(runners.script_dir@, name, '\n');
        } else {
            char_in_parts(runners.script_dir@ + "/"@, name, '\n');
            char_in_parts(runners.script_dir@, "/"@, '\n');
        }
        char_in_parts("runner."@, shell.spec_ext(), '\n');
    }
}

/// Installing the runner of a shell twice leaves exactly one line in the
/// startup file that sources it, where the file held at most one before and
/// the directory of the scripts has no line break in its name.
pub proof fn runner_is_sourced_once(runners: Runners, shell: Shell, contents: Seq<char>)
    requires
        !runners.script_dir@.contains('\n'),
        forall|i: int, j: int|
            occurs_at(contents, runners.spec_directive(shell), i) && occurs_at(
                contents,
                runners.spec_directive(shell),
                j,
            ) ==> i == j,
    ensures
        occurrence_count(
            spec_installed(
                spec_installed(contents, runners.spec_directive(shell)),
                runners.spec_directive(shell),
            ),
            runners.spec_directive(shell),
        ) == 1,
{
    directive_is_one_line(runners, shell);
    install_twice_leaves_one_directive(contents, runners.spec_directive(shell));
}

/// What to append to a startup file that holds `contents`, so that it
/// sources what `directive` names.
pub fn config_addition(contents: &str, directive: &str) -> (r: Option<String>)
    ensures
        opt_view(r) == spec_config_addition(contents@, directive@),
{
    if contains(contents, directive) {
        None
    } else {
        Some(concat2("\n", directive))
    }
}

} // verus!
