use bhop::args::Request;
use bhop::configs::{Configs, ReadConfig, ReadSettings};
use bhop::hopper::Located;
use bhop::metadata::Environment;
use bhop::session::{answer, lookup, report, Action, Event, Purpose, State};
use bhop::store::{
    history_insert_query, history_usage_query, shortcut_find_query, shortcut_insert_query,
    HISTORY_SCHEMA, SHORTCUTS_SCHEMA,
};
use bhop::Hopper;

/// A machine for the tests: a database in memory, and a filesystem that
/// holds the directory `/home/u/docs`, the file `/home/u/notes.md`, and the
/// project `/srv/proj` with a manifest.
struct World {
    db: sqlite::Connection,
    executed: Vec<String>,
}

const MANIFEST: &str = "default = \"cargo test\"\n[edit]\nfiles = [\"src/lib.rs\", \"Cargo.toml\"]\n[open]\nfiles = []\n";

impl World {
    fn new() -> World {
        let db = sqlite::open(":memory:").unwrap();
        db.execute(SHORTCUTS_SCHEMA).unwrap();
        db.execute(HISTORY_SCHEMA).unwrap();
        World {
            db,
            executed: Vec::new(),
        }
    }

    fn first_text(&self, query: &str) -> Option<String> {
        let mut statement = self.db.prepare(query).ok()?;
        if let Ok(sqlite::State::Row) = statement.next() {
            statement.read::<String, _>("location").ok()
        } else {
            None
        }
    }

    fn usage(&self, query: &str) -> Option<i64> {
        let mut statement = self.db.prepare(query).ok()?;
        if let Ok(sqlite::State::Row) = statement.next() {
            statement.read::<i64, _>("usage").ok()
        } else {
            None
        }
    }

    fn probe(path: &str) -> Option<Located> {
        let (path, is_dir) = match path {
            "/home/u/link" => {
                return Some(Located {
                    path: "/home/u/link".to_string(),
                    canonical: "/home/u/docs".to_string(),
                    is_dir: true,
                })
            }
            "/home/u/docs" | "docs" => ("/home/u/docs", true),
            "/home/u/notes.md" | "notes.md" => ("/home/u/notes.md", false),
            "/srv/proj" => ("/srv/proj", true),
            "/home/u" | "." => ("/home/u", true),
            "cfg/bhop.toml" => ("/home/u/cfg/bhop.toml", false),
            _ => return None,
        };
        Some(Located {
            path: path.to_string(),
            canonical: path.to_string(),
            is_dir,
        })
    }

    fn local(pattern: &str) -> Option<String> {
        match pattern {
            "docs" | "notes.md" => Some(pattern.to_string()),
            _ => None,
        }
    }

    fn perform(&mut self, action: &Action) -> Option<Event> {
        match action {
            Action::Lookup {
                shortcuts,
                history,
                pattern,
            } => Some(Event::Found {
                shortcut: self.first_text(shortcuts),
                local: World::local(pattern),
                history: self.first_text(history),
            }),
            Action::Probe(path) => Some(Event::Probed(World::probe(path))),
            Action::Usage(query) => Some(Event::Usage(self.usage(query))),
            Action::Execute(statement) => {
                self.executed.push(statement.clone());
                Some(Event::Executed(
                    self.db.execute(statement).err().map(|e| e.to_string()),
                ))
            }
            Action::ReadManifest(path) => Some(Event::Manifest(
                if path == "/srv/proj/.bhop" {
                    Some(MANIFEST.to_string())
                } else {
                    None
                },
            )),
            _ => None,
        }
    }

    fn run(&mut self, hopper: &Hopper, request: Request) -> Action {
        let (mut state, mut action) = hopper.execute(request, "/usr/bin/bhop");
        let mut steps = 0;
        while let Some(event) = self.perform(&action) {
            let next = hopper.resume(state, event);
            state = next.0;
            action = next.1;
            steps += 1;
            assert!(steps < 20);
        }
        assert_eq!(state, State::Done);
        action
    }
}

fn hopper(prioritize_shortcuts: bool) -> Hopper {
    let settings = ReadSettings {
        prioritize_shortcuts: Some(prioritize_shortcuts),
        ..ReadSettings::default()
    };
    let config = Configs::new(
        ReadConfig::new(Some(settings), None),
        Some("vi".to_string()),
        false,
    );
    Hopper::new(Environment::new("/home/u/.config/bhop", None, None), config)
}

fn print(text: &str) -> Action {
    Action::Print(text.to_string())
}

fn tell(text: &str) -> Action {
    Action::Tell(text.to_string())
}

#[test]
fn hop_to_a_shortcut_is_recorded_and_reported() {
    let mut world = World::new();
    world
        .db
        .execute(shortcut_insert_query("docs", "/home/u/docs"))
        .unwrap();
    world
        .db
        .execute(history_insert_query("docs", "/home/u/docs", 5))
        .unwrap();
    for prioritize in [true, false] {
        let found = world.run(&hopper(prioritize), Request::Find("docs".to_string()));
        assert_eq!(found, tell("/home/u/docs"));
    }
    assert!(world.executed.is_empty());
    let hopped = world.run(&hopper(true), Request::Use("docs".to_string(), None));
    assert_eq!(hopped, print("/home/u/docs"));
    assert_eq!(
        world.usage(&history_usage_query("docs", "/home/u/docs")),
        Some(6)
    );
    assert_eq!(world.executed.len(), 1);
}

#[test]
fn priority_chooses_between_shortcut_and_directory_entry() {
    let mut world = World::new();
    world
        .db
        .execute(shortcut_insert_query("docs", "/srv/proj"))
        .unwrap();
    assert_eq!(
        world.run(&hopper(true), Request::Use("docs".to_string(), None)),
        print("/srv/proj")
    );
    assert_eq!(
        world.run(&hopper(false), Request::Use("docs".to_string(), None)),
        print("/home/u/docs")
    );
    assert_eq!(
        world.usage(&history_usage_query("proj", "/srv/proj")),
        Some(1)
    );
    assert_eq!(
        world.usage(&history_usage_query("docs", "/home/u/docs")),
        Some(1)
    );
}

#[test]
fn repeated_hops_count_up() {
    let mut world = World::new();
    for _ in 0..3 {
        let line = world.run(&hopper(false), Request::Use("notes.md".to_string(), None));
        assert_eq!(line, print("vi /home/u/notes.md"));
    }
    assert_eq!(
        world.usage(&history_usage_query("notes.md", "/home/u/notes.md")),
        Some(3)
    );
    let again = world.run(&hopper(false), Request::Use("notes*".to_string(), None));
    assert_eq!(again, print("vi /home/u/notes.md"));
    assert_eq!(
        world.usage(&history_usage_query("notes.md", "/home/u/notes.md")),
        Some(4)
    );
}

#[test]
fn a_shortcut_to_a_link_keeps_the_stored_path() {
    let mut world = World::new();
    world
        .db
        .execute(shortcut_insert_query("l", "/home/u/link"))
        .unwrap();
    assert_eq!(
        world.run(&hopper(true), Request::Use("l".to_string(), None)),
        print("/home/u/link")
    );
    assert_eq!(
        world.usage(&history_usage_query("docs", "/home/u/link")),
        Some(1)
    );
}

#[test]
fn unknown_references_are_reported() {
    let mut world = World::new();
    assert_eq!(
        world.run(&hopper(false), Request::Use("nowhere".to_string(), None)),
        tell("No matching options found.")
    );
    assert_eq!(
        world.run(&hopper(false), Request::Find("nowhere".to_string())),
        tell("Unable to grab reference.")
    );
    assert!(world.executed.is_empty());
}

#[test]
fn adding_stores_the_path_on_disk() {
    let mut world = World::new();
    let done = world.run(&hopper(false), Request::Add("docs".to_string(), None));
    assert_eq!(done, Action::Done);
    assert_eq!(
        world.first_text(&shortcut_find_query("docs")),
        Some("/home/u/docs".to_string())
    );
    let done = world.run(
        &hopper(false),
        Request::Add("/srv/proj".to_string(), Some("p".to_string())),
    );
    assert_eq!(done, Action::Done);
    assert_eq!(
        world.first_text(&shortcut_find_query("p")),
        Some("/srv/proj".to_string())
    );
    let back = world.run(
        &hopper(false),
        Request::Add(".".to_string(), Some("back".to_string())),
    );
    assert_eq!(back, Action::Done);
    assert_eq!(
        world.first_text(&shortcut_find_query("back")),
        Some("/home/u".to_string())
    );
    assert_eq!(
        world.run(&hopper(false), Request::Add(".".to_string(), None)),
        tell("Unable to extract file name for shortcut")
    );
    assert_eq!(
        world.run(&hopper(false), Request::Add("gone".to_string(), None)),
        tell("Unable to sanitize path.")
    );
    let removed = world.run(&hopper(false), Request::Remove("p".to_string()));
    assert_eq!(removed, Action::Done);
    assert_eq!(world.first_text(&shortcut_find_query("p")), None);
}

#[test]
fn using_with_a_name_stores_a_shortcut_first() {
    let mut world = World::new();
    let line = world.run(
        &hopper(true),
        Request::Use("docs".to_string(), Some("d".to_string())),
    );
    assert_eq!(line, print("/home/u/docs"));
    assert_eq!(
        world.first_text(&shortcut_find_query("d")),
        Some("/home/u/docs".to_string())
    );
    assert_eq!(world.executed.len(), 2);
}

#[test]
fn groups_run_what_the_manifest_says() {
    let mut world = World::new();
    world
        .db
        .execute(shortcut_insert_query("proj", "/srv/proj"))
        .unwrap();
    assert_eq!(
        world.run(&hopper(false), Request::Group("proj".to_string(), None)),
        print("/srv/proj|cargo test")
    );
    assert_eq!(
        world.run(
            &hopper(false),
            Request::Group("proj".to_string(), Some("edit".to_string()))
        ),
        print("/srv/proj|vi src/lib.rs Cargo.toml")
    );
    assert_eq!(
        world.run(
            &hopper(false),
            Request::Group("proj".to_string(), Some("missing".to_string()))
        ),
        print("/srv/proj")
    );
    assert!(world.executed.is_empty());
    assert_eq!(
        world.run(
            &hopper(false),
            Request::Group("proj".to_string(), Some("open".to_string()))
        ),
        print("/srv/proj|vi /srv/proj")
    );
    assert_eq!(
        world.usage(&history_usage_query("proj", "/srv/proj")),
        Some(1)
    );
}

#[test]
fn a_directory_without_manifest_is_only_changed_to() {
    let mut world = World::new();
    assert_eq!(
        world.run(&hopper(false), Request::Group("docs".to_string(), None)),
        print("/home/u/docs")
    );
    assert_eq!(
        world.run(&hopper(false), Request::Group("nowhere".to_string(), None)),
        print("/home/u")
    );
    assert!(world.executed.is_empty());
}

#[test]
fn requests_without_lookups_are_final_at_once() {
    let hopper = hopper(false);
    assert_eq!(
        hopper.execute(Request::Notify("hello".to_string()), "/usr/bin/bhop"),
        (State::Done, tell("hello"))
    );
    assert_eq!(
        hopper.execute(Request::Help, "/usr/bin/bhop"),
        (State::Done, Action::Help)
    );
    assert_eq!(
        hopper.execute(Request::Skip, "/usr/bin/bhop"),
        (State::Done, Action::Done)
    );
    assert_eq!(
        hopper.execute(Request::Locate, "/usr/bin/bhop"),
        (State::Done, tell("/home/u/.config/bhop"))
    );
    assert_eq!(
        hopper.execute(Request::Configure, "/usr/bin/bhop"),
        (State::Done, print("vi /home/u/.config/bhop/bhop.toml"))
    );
    assert_eq!(
        hopper.execute(
            Request::Passthrough("__bhop_help__".to_string()),
            "/usr/bin/bhop"
        ),
        (State::Done, print("/usr/bin/bhop __bhop_help__"))
    );
    assert_eq!(
        hopper.execute(Request::Search(Some("proj".to_string())), "/usr/bin/bhop"),
        (
            State::Done,
            Action::List {
                shortcuts: hopper.search_shortcuts(Some("proj")),
                history: hopper.search_history(Some("proj")),
            }
        )
    );
}

#[test]
fn a_relative_configuration_is_found_on_disk_first() {
    let mut world = World::new();
    let config = Configs::new(ReadConfig::default(), Some("vi".to_string()), false);
    let hopper = Hopper::new(Environment::new("cfg", None, None), config);
    assert_eq!(
        hopper.execute(Request::Locate, "/usr/bin/bhop"),
        (
            State::Locating { configure: false },
            Action::Probe("cfg/bhop.toml".to_string())
        )
    );
    assert_eq!(world.run(&hopper, Request::Locate), tell("/home/u/cfg"));
    assert_eq!(
        world.run(&hopper, Request::Configure),
        print("vi /home/u/cfg/bhop.toml")
    );
    assert_eq!(
        hopper.resume(State::Locating { configure: true }, Event::Probed(None)),
        (State::Done, tell("Unable to sanitize path."))
    );
}

#[test]
fn events_out_of_turn_end_the_request() {
    let hopper = hopper(false);
    assert_eq!(
        hopper.resume(State::Removing, Event::Usage(Some(1))),
        (State::Done, Action::Done)
    );
    assert_eq!(
        hopper.resume(State::Done, Event::Executed(None)),
        (State::Done, Action::Done)
    );
    assert_eq!(
        hopper.resume(
            State::Resolving {
                purpose: Purpose::Find
            },
            Event::Manifest(None)
        ),
        (State::Done, Action::Done)
    );
}

#[test]
fn store_failures_are_reported_in_its_words() {
    let hopper = hopper(false);
    assert_eq!(
        hopper.resume(
            State::Removing,
            Event::Executed(Some("database is locked".to_string()))
        ),
        (State::Done, tell("database is locked"))
    );
    let target = Located {
        path: "/home/u/docs".to_string(),
        canonical: "/home/u/docs".to_string(),
        is_dir: true,
    };
    assert_eq!(
        hopper.resume(
            State::Recording {
                target,
                edit_dir: false
            },
            Event::Executed(Some("disk full".to_string()))
        ),
        (State::Done, tell("disk full"))
    );
}

#[test]
fn helpers_build_actions() {
    assert_eq!(report(Ok("x".to_string())), print("x"));
    assert_eq!(
        report(Err(bhop::hopper::HopError::NoMatch)),
        tell("No matching options found.")
    );
    assert_eq!(answer(Ok("x".to_string())), tell("x"));
    assert_eq!(
        answer(Err(bhop::hopper::HopError::NoMatch)),
        tell("No matching options found.")
    );
    assert_eq!(
        lookup("do*"),
        Action::Lookup {
            shortcuts: "SELECT location FROM shortcuts WHERE name GLOB 'do*' ORDER BY name"
                .to_string(),
            history:
                "SELECT location, usage FROM history WHERE name GLOB 'do*' ORDER BY usage DESC"
                    .to_string(),
            pattern: "do*".to_string(),
        }
    );
}
