use bhop::args::Request;

fn words(args: &[&str]) -> Vec<String> {
    args.iter().map(|s| s.to_string()).collect()
}

#[test]
fn test_request_parse_add() {
    let request = Request::parse(&words(&["hp", "add", "shortcut", "location"]));
    assert_eq!(
        request,
        Request::Add("shortcut".to_string(), Some("location".to_string()))
    );
}

#[test]
fn test_request_parse_remove() {
    let request = Request::parse(&words(&["hp", "rm", "shortcut"]));
    assert_eq!(request, Request::Remove("shortcut".to_string()));
}

#[test]
fn test_request_parse_help() {
    let request = Request::parse(&words(&["hp", "help"]));
    assert_eq!(request, Request::Passthrough("__bhop_help__".to_string()));
}

#[test]
fn parse_without_a_command_notifies() {
    assert_eq!(
        Request::parse(&words(&["hp"])),
        Request::Notify("No command provided.".to_string())
    );
    assert_eq!(
        Request::parse(&words(&[])),
        Request::Notify("No command provided.".to_string())
    );
}

#[test]
fn parse_commands_without_their_argument_notify() {
    assert_eq!(
        Request::parse(&words(&["hp", "+"])),
        Request::Notify("No shortcut name provided.".to_string())
    );
    assert_eq!(
        Request::parse(&words(&["hp", "-"])),
        Request::Notify("No shortcut to remove provided.".to_string())
    );
    assert_eq!(
        Request::parse(&words(&["hp", "!"])),
        Request::Notify("No shortcut to use provided.".to_string())
    );
    assert_eq!(
        Request::parse(&words(&["hp", "?"])),
        Request::Notify("No reference to grab provided.".to_string())
    );
}

#[test]
fn parse_knows_every_command() {
    assert_eq!(
        Request::parse(&words(&["hp", "add", "."])),
        Request::Add(".".to_string(), None)
    );
    assert_eq!(
        Request::parse(&words(&["hp", "group", "proj", "build"])),
        Request::Group("proj".to_string(), Some("build".to_string()))
    );
    assert_eq!(
        Request::parse(&words(&["hp", "->", "proj"])),
        Request::Group("proj".to_string(), None)
    );
    assert_eq!(
        Request::parse(&words(&["hp", "find", "proj"])),
        Request::Find("proj".to_string())
    );
    assert_eq!(
        Request::parse(&words(&["hp", "brb"])),
        Request::Add(".".to_string(), Some("back".to_string()))
    );
    assert_eq!(Request::parse(&words(&["hp", "loc"])), Request::Locate);
    assert_eq!(
        Request::parse(&words(&["hp", "v"])),
        Request::Passthrough("__bhop_version__".to_string())
    );
    assert_eq!(
        Request::parse(&words(&["hp", "ls"])),
        Request::Passthrough("__bhop_list__".to_string())
    );
    assert_eq!(
        Request::parse(&words(&["hp", "..", "proj"])),
        Request::Passthrough("__bhop_list__ proj".to_string())
    );
    assert_eq!(Request::parse(&words(&["hp", "cfg"])), Request::Configure);
    assert_eq!(
        Request::parse(&words(&["hp", "__bhop_version__"])),
        Request::Skip
    );
    assert_eq!(Request::parse(&words(&["hp", "__bhop_help__"])), Request::Help);
    assert_eq!(
        Request::parse(&words(&["hp", "__bhop_list__", "proj"])),
        Request::Search(Some("proj".to_string()))
    );
    assert_eq!(
        Request::parse(&words(&["hp", "__bhop_list__"])),
        Request::Search(None)
    );
}

#[test]
fn parse_takes_any_other_word_for_a_reference() {
    assert_eq!(
        Request::parse(&words(&["hp", "docs"])),
        Request::Use("docs".to_string(), None)
    );
    assert_eq!(
        Request::parse(&words(&["hp", "docs", "d"])),
        Request::Use("docs".to_string(), Some("d".to_string()))
    );
}

#[test]
fn version_requests_are_told_apart() {
    assert!(Request::wants_version(&words(&["hp", "__bhop_version__"])));
    assert!(!Request::wants_version(&words(&["hp", "version"])));
    assert!(!Request::wants_version(&words(&["hp"])));
}
