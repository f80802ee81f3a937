use bhop::configs::{Configs, ReadConfig, ReadSettings};
use bhop::groups::BhopGroup;
use bhop::hopper::{apply_editor, trailing_files, HopError, Located};
use bhop::metadata::Environment;
use bhop::paths::PathError;
use bhop::Hopper;

fn hopper_with(settings: ReadSettings, editors: Vec<(String, String)>) -> Hopper {
    let read = ReadConfig::new(Some(settings), Some(editors));
    let config = Configs::new(read, Some("vi".to_string()), false);
    Hopper::new(Environment::new("/home/u/.config/bhop", None, None), config)
}

fn plain() -> Hopper {
    hopper_with(ReadSettings::default(), vec![])
}

fn jumping() -> Hopper {
    hopper_with(
        ReadSettings {
            always_jump: Some(true),
            ..ReadSettings::default()
        },
        vec![
            ("rs".to_string(), "hx".to_string()),
            ("md".to_string(), "glow {} | less".to_string()),
        ],
    )
}

fn dir(path: &str) -> Located {
    Located {
        path: path.to_string(),
        canonical: path.to_string(),
        is_dir: true,
    }
}

fn file(path: &str) -> Located {
    Located {
        path: path.to_string(),
        canonical: path.to_string(),
        is_dir: false,
    }
}

fn text(s: &str) -> Option<String> {
    Some(s.to_string())
}

#[test]
fn priority_decides_between_shortcut_and_filesystem() {
    let shortcuts_first = hopper_with(
        ReadSettings {
            prioritize_shortcuts: Some(true),
            ..ReadSettings::default()
        },
        vec![],
    );
    let filesystem_first = plain();
    assert_eq!(
        shortcuts_first.grab(text("/srv/docs"), text("docs"), text("/old/docs")),
        text("/srv/docs")
    );
    assert_eq!(
        filesystem_first.grab(text("/srv/docs"), text("docs"), text("/old/docs")),
        text("docs")
    );
}

#[test]
fn history_is_the_last_resort() {
    for hopper in [plain(), jumping()] {
        assert_eq!(hopper.grab(None, None, text("/old/docs")), text("/old/docs"));
        assert_eq!(hopper.grab(None, text("docs"), text("/old/docs")), text("docs"));
        assert_eq!(
            hopper.grab(text("/srv/docs"), None, text("/old/docs")),
            text("/srv/docs")
        );
        assert_eq!(hopper.grab(None, None, None), None);
    }
}

#[test]
fn editor_is_chosen_by_extension() {
    let hopper = jumping();
    assert_eq!(hopper.map_editor("/a/main.rs", Some("rs")), "hx /a/main.rs");
    assert_eq!(
        hopper.map_editor("/a/notes.md", Some("md")),
        "glow /a/notes.md | less"
    );
    assert_eq!(hopper.map_editor("/a/x.py", Some("py")), "vi /a/x.py");
    assert_eq!(hopper.map_editor("/a/x", None), "vi /a/x");
    assert_eq!(hopper.editor_for(Some("rs")), "hx");
    assert_eq!(apply_editor("code -g {}", "f.rs"), "code -g f.rs");
    assert_eq!(apply_editor("code", "f.rs"), "code f.rs");
}

#[test]
fn a_directory_is_navigated_to() {
    assert_eq!(
        plain().bhop_it(Some(&dir("/home/u/docs")), false),
        Ok("/home/u/docs".to_string())
    );
    assert_eq!(
        plain().bhop_it(Some(&dir(r"\\?\C:\Users\u\docs")), false),
        Ok("C:/Users/u/docs".to_string())
    );
    assert_eq!(plain().join_directives("/srv", "make"), "/srv|make");
}

#[test]
fn a_file_is_opened_in_its_editor() {
    assert_eq!(
        plain().bhop_it(Some(&file("/home/u/src/main.rs")), false),
        Ok("vi /home/u/src/main.rs".to_string())
    );
    assert_eq!(
        jumping().bhop_it(Some(&file("/home/u/src/main.rs")), false),
        Ok("/home/u/src|hx /home/u/src/main.rs".to_string())
    );
    assert_eq!(
        jumping().bhop_it(Some(&file("/notes.md")), false),
        Ok("/|glow /notes.md | less".to_string())
    );
}

#[test]
fn a_directory_can_be_edited() {
    assert_eq!(
        plain().bhop_it(Some(&dir("/home/u/docs")), true),
        Ok("/home/u/docs|vi /home/u/docs".to_string())
    );
    assert_eq!(
        jumping().bhop_it(Some(&dir("/home/u/docs")), true),
        Ok("/home/u/docs|vi /home/u/docs".to_string())
    );
}

#[test]
fn hops_fail_without_a_usable_target() {
    assert_eq!(plain().bhop_it(None, false), Err(HopError::NoMatch));
    assert_eq!(
        plain().bhop_it(Some(&dir("docs")), false),
        Err(HopError::Path(PathError::NotAbsolute))
    );
    assert_eq!(HopError::NoMatch.message(), "No matching options found.");
    assert_eq!(
        HopError::Path(PathError::NotAbsolute).message(),
        "Unable to sanitize path."
    );
}

#[test]
fn the_separator_is_configurable() {
    let mut config = Configs::new(ReadConfig::default(), Some("vi".to_string()), false);
    config.always_jump = true;
    let hopper = Hopper::new(Environment::new("/cfg", Some(";".to_string()), None), config);
    assert_eq!(
        hopper.bhop_it(Some(&file("/a/b.txt")), false),
        Ok("/a;vi /a/b.txt".to_string())
    );
    assert_eq!(
        hopper.bhop_it(Some(&dir("/a")), false),
        Ok("/a".to_string())
    );
}

#[test]
fn locate_and_configure_point_at_the_program_files() {
    assert_eq!(plain().locate(), Ok("/home/u/.config/bhop".to_string()));
    assert_eq!(
        plain().configure(),
        Ok("vi /home/u/.config/bhop/bhop.toml".to_string())
    );
    assert_eq!(
        jumping().configure(),
        Ok("/home/u/.config/bhop|vi /home/u/.config/bhop/bhop.toml".to_string())
    );
    let config = Configs::new(ReadConfig::default(), None, false);
    let astray = Hopper::new(Environment::new("cfg", None, None), config);
    assert_eq!(astray.locate(), Err(HopError::Path(PathError::NotAbsolute)));
    assert_eq!(astray.configure(), Err(HopError::Path(PathError::NotAbsolute)));
    assert_eq!(
        Hopper::locate_at("/home/u/cfg/bhop.toml"),
        Ok("/home/u/cfg".to_string())
    );
    assert_eq!(
        astray.configure_at("/home/u/cfg/bhop.toml"),
        Ok("vi /home/u/cfg/bhop.toml".to_string())
    );
}

#[test]
fn passthrough_calls_the_program_again() {
    assert_eq!(
        plain().passthrough("/usr/bin/bhop", "__bhop_list__ proj"),
        Ok("/usr/bin/bhop __bhop_list__ proj".to_string())
    );
    assert_eq!(
        plain().passthrough(r"C:\bin\bhop.exe", "__bhop_help__"),
        Ok("C:/bin/bhop.exe __bhop_help__".to_string())
    );
    assert_eq!(
        plain().passthrough("bhop", "__bhop_help__"),
        Err(HopError::Path(PathError::NotAbsolute))
    );
}

#[test]
fn shortcuts_are_named_after_the_path() {
    let hopper = plain();
    assert_eq!(
        hopper.add_shortcut("/home/u/docs", None),
        Ok("INSERT OR REPLACE INTO shortcuts (name, location) VALUES (\"docs\", \"/home/u/docs\")".to_string())
    );
    assert_eq!(
        hopper.add_shortcut(r"C:\Users\u", text("home")),
        Ok("INSERT OR REPLACE INTO shortcuts (name, location) VALUES (\"home\", \"C:/Users/u\")".to_string())
    );
    assert_eq!(
        hopper.add_shortcut("/", None),
        Err(HopError::Path(PathError::NoFileName))
    );
    assert_eq!(
        hopper.add_shortcut("/a/b/", None),
        hopper.add_shortcut("/a/b/", text("b"))
    );
    assert_eq!(
        hopper.add_shortcut("/a/b/.", None),
        Ok("INSERT OR REPLACE INTO shortcuts (name, location) VALUES (\"b\", \"/a/b/.\")".to_string())
    );
    assert_eq!(
        hopper.add_shortcut("docs", None),
        Err(HopError::Path(PathError::NotAbsolute))
    );
    assert_eq!(
        hopper.add_shortcut("..", None),
        Err(HopError::Path(PathError::NoFileName))
    );
}

#[test]
fn history_is_keyed_by_name_and_location() {
    let hopper = plain();
    assert_eq!(
        hopper.history_key("/home/u/docs", "/home/u/docs"),
        Ok(("docs".to_string(), "/home/u/docs".to_string()))
    );
    assert_eq!(
        hopper.history_key("docs", "docs"),
        Err(HopError::Path(PathError::NotAbsolute))
    );
    assert_eq!(
        hopper.history_key("/", "/"),
        Err(HopError::Path(PathError::NoFileName))
    );
    assert_eq!(
        hopper.history_key("/home/u/link", "/srv/data/docs"),
        Ok(("docs".to_string(), "/home/u/link".to_string()))
    );
    assert_eq!(
        hopper.find_usage("/home/u/docs", "/home/u/docs"),
        Ok("SELECT usage FROM history WHERE name = \"docs\" AND location = \"/home/u/docs\"".to_string())
    );
    assert_eq!(
        hopper.add_history("/home/u/docs", "/home/u/docs", Some(5)),
        Ok("INSERT OR REPLACE INTO history (name, location, usage) VALUES (\"docs\", \"/home/u/docs\", 6)".to_string())
    );
    assert_eq!(
        hopper.add_history("/home/u/docs", "/home/u/docs", None),
        Ok("INSERT OR REPLACE INTO history (name, location, usage) VALUES (\"docs\", \"/home/u/docs\", 1)".to_string())
    );
}

#[test]
fn a_directory_without_a_manifest_is_only_navigated_to() {
    let options = BhopGroup::from("default", None);
    assert_eq!(options, None);
    assert_eq!(
        plain().use_group(Some(&dir("/srv/proj")), "/home/u", options.as_ref()),
        Ok("/srv/proj".to_string())
    );
    assert_eq!(
        plain().use_group(None, "/home/u", None),
        Ok("/home/u".to_string())
    );
}

#[test]
fn a_group_command_runs_in_the_group_directory() {
    let options = BhopGroup::from_str("build", "build = \"cargo build\"");
    assert_eq!(
        plain().use_group(Some(&dir("/srv/proj")), "/home/u", options.as_ref()),
        Ok("/srv/proj|cargo build".to_string())
    );
}

#[test]
fn group_files_are_opened_together() {
    let by_extension = BhopGroup {
        cmd: None,
        editor: None,
        files: Some(vec!["src/*.rs".to_string(), "Cargo.toml".to_string(), "README.md".to_string()]),
    };
    assert_eq!(
        jumping().use_group(Some(&dir("/srv/proj")), "/home/u", Some(&by_extension)),
        Ok("/srv/proj|hx src/*.rs Cargo.toml README.md".to_string())
    );
    let by_override = BhopGroup {
        cmd: None,
        editor: Some("vim -p".to_string()),
        files: Some(vec!["file1.rs".to_string(), "file2.rs".to_string()]),
    };
    assert_eq!(
        jumping().use_group(None, "/home/u", Some(&by_override)),
        Ok("/home/u|vim -p file1.rs file2.rs".to_string())
    );
    let single = BhopGroup {
        cmd: None,
        editor: None,
        files: Some(vec!["notes".to_string()]),
    };
    assert_eq!(
        jumping().use_group(None, "/home/u", Some(&single)),
        Ok("/home/u|vi notes".to_string())
    );
}

#[test]
fn a_group_without_files_opens_the_directory() {
    let empty = BhopGroup {
        cmd: None,
        editor: None,
        files: Some(vec![]),
    };
    assert_eq!(
        plain().use_group(Some(&dir("/srv/proj")), "/home/u", Some(&empty)),
        Ok("/srv/proj|vi /srv/proj".to_string())
    );
    assert_eq!(
        plain().use_group(None, "/home/u", Some(&empty)),
        Err(HopError::NoMatch)
    );
    let nothing = BhopGroup::default();
    assert_eq!(
        plain().use_group(Some(&dir("/srv/proj")), "/home/u", Some(&nothing)),
        Err(HopError::NoMatch)
    );
    assert_eq!(
        plain().use_group(Some(&dir("proj")), "/home/u", None),
        Err(HopError::Path(PathError::NotAbsolute))
    );
}

#[test]
fn trailing_files_follow_a_space() {
    assert_eq!(trailing_files(&vec![]), "");
    assert_eq!(trailing_files(&vec!["a".to_string()]), "");
    assert_eq!(
        trailing_files(&vec!["a".to_string(), "b".to_string(), "c".to_string()]),
        " b c"
    );
    assert_eq!(trailing_files(&vec!["a".to_string(), "".to_string()]), "");
}

#[test]
fn searches_wrap_the_filter_as_configured() {
    assert_eq!(plain().search_pattern(Some("proj")), "*proj*");
    assert_eq!(plain().search_pattern(None), "*");
    let exact = hopper_with(
        ReadSettings {
            search_match_prefix: Some("".to_string()),
            search_match_suffix: Some("".to_string()),
            ..ReadSettings::default()
        },
        vec![],
    );
    assert_eq!(exact.search_pattern(Some("proj")), "proj");
}
