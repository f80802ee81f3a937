use bhop::configs::{Configs, ReadConfig};
use bhop::metadata::Environment;
use bhop::store::{
    decimal, history_find_query, history_insert_query, history_usage_query, next_usage,
    search_filter, search_history_query, search_shortcuts_query, shortcut_find_query,
    shortcut_insert_query, shortcut_remove_query, HISTORY_SCHEMA, SHORTCUTS_SCHEMA,
};
use bhop::Hopper;

fn open_store() -> sqlite::Connection {
    let db = sqlite::open(":memory:").unwrap();
    db.execute(SHORTCUTS_SCHEMA).unwrap();
    db.execute(HISTORY_SCHEMA).unwrap();
    db
}

fn hopper(prioritize_shortcuts: bool) -> Hopper {
    let mut config = Configs::new(ReadConfig::default(), Some("vi".to_string()), false);
    config.prioritize_shortcuts = prioritize_shortcuts;
    Hopper::new(Environment::new("/cfg", None, None), config)
}

fn first_text(db: &sqlite::Connection, query: &str, column: &str) -> Option<String> {
    let mut statement = db.prepare(query).unwrap();
    if let Ok(sqlite::State::Row) = statement.next() {
        statement.read::<String, _>(column).ok()
    } else {
        None
    }
}

fn first_count(db: &sqlite::Connection, query: &str) -> Option<i64> {
    let mut statement = db.prepare(query).unwrap();
    if let Ok(sqlite::State::Row) = statement.next() {
        statement.read::<i64, _>("usage").ok()
    } else {
        None
    }
}

fn names(db: &sqlite::Connection, query: &str) -> Vec<String> {
    let mut statement = db.prepare(query).unwrap();
    let mut found = Vec::new();
    while let Ok(sqlite::State::Row) = statement.next() {
        found.push(statement.read::<String, _>("name").unwrap());
    }
    found
}

fn hop(db: &sqlite::Connection, hopper: &Hopper, path: &str) {
    let current = first_count(db, &hopper.find_usage(path, path).unwrap());
    db.execute(hopper.add_history(path, path, current).unwrap()).unwrap();
}

#[test]
fn decimal_writes_integers() {
    assert_eq!(decimal(0), "0");
    assert_eq!(decimal(7), "7");
    assert_eq!(decimal(10), "10");
    assert_eq!(decimal(1234567890), "1234567890");
    assert_eq!(decimal(-1), "-1");
    assert_eq!(decimal(i64::MAX), "9223372036854775807");
    assert_eq!(decimal(i64::MIN), "-9223372036854775808");
}

#[test]
fn next_usage_counts_up() {
    assert_eq!(next_usage(None), 1);
    assert_eq!(next_usage(Some(1)), 2);
    assert_eq!(next_usage(Some(5)), 6);
    assert_eq!(next_usage(Some(i64::MAX)), i64::MAX);
}

#[test]
fn statements_are_written_out() {
    assert_eq!(
        shortcut_insert_query("docs", "/home/u/docs"),
        "INSERT OR REPLACE INTO shortcuts (name, location) VALUES (\"docs\", \"/home/u/docs\")"
    );
    assert_eq!(
        shortcut_remove_query("docs"),
        "DELETE FROM shortcuts WHERE name GLOB 'docs'"
    );
    assert_eq!(
        shortcut_find_query("do*"),
        "SELECT location FROM shortcuts WHERE name GLOB 'do*' ORDER BY name"
    );
    assert_eq!(
        history_find_query("docs"),
        "SELECT location, usage FROM history WHERE name GLOB 'docs' ORDER BY usage DESC"
    );
    assert_eq!(
        history_usage_query("docs", "/home/u/docs"),
        "SELECT usage FROM history WHERE name = \"docs\" AND location = \"/home/u/docs\""
    );
    assert_eq!(
        history_insert_query("docs", "/home/u/docs", 6),
        "INSERT OR REPLACE INTO history (name, location, usage) VALUES (\"docs\", \"/home/u/docs\", 6)"
    );
    assert_eq!(
        search_shortcuts_query("*proj*"),
        "SELECT name, location FROM shortcuts WHERE name GLOB '*proj*' OR location GLOB '*proj*' ORDER BY name"
    );
    assert!(search_history_query("*proj*").contains("WHERE name GLOB '*proj*' OR location GLOB '*proj*' GROUP BY name"));
}

#[test]
fn search_filter_wraps_the_filter() {
    assert_eq!(search_filter("*", Some("proj"), "*"), "*proj*");
    assert_eq!(search_filter("", Some("proj"), "?"), "proj?");
    assert_eq!(search_filter("a", None, "b"), "*");
}

#[test]
fn adding_a_shortcut_twice_keeps_the_last_location() {
    let db = open_store();
    let hopper = hopper(false);
    db.execute(hopper.add_shortcut("/home/u/docs", None).unwrap()).unwrap();
    db.execute(hopper.add_shortcut("/srv/docs", Some("docs".to_string())).unwrap())
        .unwrap();
    assert_eq!(
        first_text(&db, &shortcut_find_query("docs"), "location"),
        Some("/srv/docs".to_string())
    );
    assert_eq!(names(&db, &search_shortcuts_query("*")), vec!["docs"]);
    db.execute(shortcut_remove_query("docs")).unwrap();
    assert_eq!(first_text(&db, &shortcut_find_query("docs"), "location"), None);
}

#[test]
fn usage_counts_the_hops_to_a_pair() {
    let db = open_store();
    let hopper = hopper(false);
    let n = 4;
    for _ in 0..n {
        hop(&db, &hopper, "/home/u/docs");
    }
    assert_eq!(
        first_count(&db, &history_usage_query("docs", "/home/u/docs")),
        Some(n)
    );
    hop(&db, &hopper, "/srv/docs");
    assert_eq!(
        first_count(&db, &history_usage_query("docs", "/srv/docs")),
        Some(1)
    );
    assert_eq!(
        first_count(&db, &history_usage_query("docs", "/home/u/docs")),
        Some(n)
    );
    assert_eq!(
        first_text(&db, &history_find_query("docs"), "location"),
        Some("/home/u/docs".to_string())
    );
}

#[test]
fn default_search_matches_inside_names() {
    let db = open_store();
    let hopper = hopper(false);
    for (name, location) in [
        ("project-a", "/srv/a"),
        ("myproj", "/srv/b"),
        ("other", "/srv/c"),
    ] {
        db.execute(shortcut_insert_query(name, location)).unwrap();
    }
    let found = names(&db, &hopper.search_shortcuts(Some("proj")));
    assert_eq!(found, vec!["myproj", "project-a"]);
    let all = names(&db, &hopper.search_shortcuts(None));
    assert_eq!(all, vec!["myproj", "other", "project-a"]);
}

#[test]
fn search_lists_one_history_entry_for_each_name() {
    let db = open_store();
    let hopper = hopper(false);
    hop(&db, &hopper, "/home/u/docs");
    hop(&db, &hopper, "/srv/docs");
    hop(&db, &hopper, "/srv/docs");
    hop(&db, &hopper, "/srv/music");
    assert_eq!(
        names(&db, &hopper.search_history(None)),
        vec!["docs", "music"]
    );
    assert_eq!(names(&db, &hopper.search_history(Some("mus"))), vec!["music"]);
}

#[test]
fn resolving_docs_finds_the_shortcut_and_a_hop_counts() {
    let db = open_store();
    db.execute(shortcut_insert_query("docs", "/home/u/docs")).unwrap();
    db.execute(history_insert_query("docs", "/home/u/docs", 5)).unwrap();
    for prioritize in [true, false] {
        let hopper = hopper(prioritize);
        let shortcut = first_text(&db, &shortcut_find_query("docs"), "location");
        let history = first_text(&db, &history_find_query("docs"), "location");
        let resolved = hopper.grab(shortcut, None, history);
        assert_eq!(resolved, Some("/home/u/docs".to_string()));
    }
    hop(&db, &hopper(true), "/home/u/docs");
    assert_eq!(
        first_count(&db, &history_usage_query("docs", "/home/u/docs")),
        Some(6)
    );
    assert_eq!(first_count(&db, &history_usage_query("docs", "/x")), None);
}
