use legendary::output::{Line, Stream, Style};
use legendary::plan::{plan, Command, Plan, Work, AUR_HELPER, PACKAGE_MANAGER, SNAPSHOT_TOOL};
use legendary::session::{dispatch, Action, Phase, Request, Session};
use legendary::tool::{report, Outcome, ToolCall};

fn texts(a: &Action) -> Vec<String> {
    a.lines.iter().map(|l: &Line| l.text.clone()).collect()
}

fn run_request(a: &Action) -> (String, Vec<String>) {
    match &a.request {
        Request::Run(c) => (c.program.clone(), c.args.clone()),
        other => panic!("expected a tool to run, got {:?}", other),
    }
}

fn finish_request(a: &Action) -> bool {
    match &a.request {
        Request::Finish(ok) => *ok,
        other => panic!("expected the end, got {:?}", other),
    }
}

fn start(c: Command) -> (Session, Action) {
    dispatch(&Some(c))
}

#[test]
fn install_success_runs_no_fallback() {
    let (mut s, a) = start(Command::Install { package: "foo".to_string() });
    assert_eq!(
        texts(&a),
        vec![
            "Installing package: foo",
            "Executing: /usr/lib/LegendaryOS/pacman -S foo --noconfirm",
        ]
    );
    assert_eq!(a.lines[0].style, Style::BoldGreen);
    assert_eq!(a.lines[1].style, Style::Dimmed);
    let (program, args) = run_request(&a);
    assert_eq!(program, PACKAGE_MANAGER);
    assert_eq!(args, vec!["-S", "foo", "--noconfirm"]);
    let b = s.advance(Outcome::Succeeded);
    assert_eq!(
        texts(&b),
        vec![
            "Command /usr/lib/LegendaryOS/pacman completed successfully!",
            "Package foo installed successfully with pacman!",
        ]
    );
    assert!(finish_request(&b));
    assert_eq!(s.phase(), Phase::Finished);
}

#[test]
fn install_failure_falls_back_once() {
    let (mut s, _) = start(Command::Install { package: "foo".to_string() });
    let b = s.advance(Outcome::Failed);
    assert_eq!(
        texts(&b),
        vec![
            "Command /usr/lib/LegendaryOS/pacman failed.",
            "Package foo not found in pacman repos, trying yay...",
            "Executing: yay -S foo --noconfirm",
        ]
    );
    assert_eq!(b.lines[0].stream, Stream::Stderr);
    assert_eq!(b.lines[1].style, Style::BoldYellow);
    let (program, args) = run_request(&b);
    assert_eq!(program, AUR_HELPER);
    assert_eq!(args, vec!["-S", "foo", "--noconfirm"]);
    let c = s.advance(Outcome::Failed);
    assert_eq!(
        texts(&c),
        vec!["Command yay failed.", "Failed to install package foo with yay."]
    );
    assert_eq!(c.lines[1].stream, Stream::Stderr);
    assert!(!finish_request(&c));
    assert_eq!(s.phase(), Phase::Finished);
}

#[test]
fn install_fallback_success() {
    let (mut s, _) = start(Command::Install { package: "bar".to_string() });
    s.advance(Outcome::NotStarted("No such file or directory (os error 2)".to_string()));
    let c = s.advance(Outcome::Succeeded);
    assert_eq!(
        texts(&c),
        vec!["Command yay completed successfully!", "Package bar installed successfully with yay!"]
    );
    assert!(finish_request(&c));
}

#[test]
fn launch_failure_also_falls_back() {
    let (mut s, _) = start(Command::Install { package: "foo".to_string() });
    let b = s.advance(Outcome::NotStarted("No such file or directory (os error 2)".to_string()));
    assert_eq!(
        b.lines[0].text,
        "Error running /usr/lib/LegendaryOS/pacman: No such file or directory (os error 2)"
    );
    assert_eq!(b.lines[0].stream, Stream::Stderr);
    assert_eq!(b.lines[0].style, Style::BoldRed);
    assert_eq!(run_request(&b).0, AUR_HELPER);
}

#[test]
fn search_success_runs_no_fallback() {
    let (mut s, a) = start(Command::Search { query: "vim".to_string() });
    assert_eq!(a.lines[0].text, "Searching for package: vim");
    assert_eq!(run_request(&a), (PACKAGE_MANAGER.to_string(), vec!["-Ss".to_string(), "vim".to_string()]));
    let b = s.advance(Outcome::Succeeded);
    assert_eq!(b.lines[1].text, "Search completed in pacman repositories!");
    assert!(finish_request(&b));
}

#[test]
fn search_failure_falls_back_once() {
    let (mut s, _) = start(Command::Search { query: "vim".to_string() });
    let b = s.advance(Outcome::Failed);
    assert_eq!(b.lines[1].text, "No results in pacman repos, trying yay...");
    assert_eq!(run_request(&b), (AUR_HELPER.to_string(), vec!["-Ss".to_string(), "vim".to_string()]));
    let c = s.advance(Outcome::Failed);
    assert_eq!(texts(&c), vec!["Command yay failed.", "Failed to search for packages."]);
    assert!(!finish_request(&c));
    let (mut s, _) = start(Command::Search { query: "vim".to_string() });
    s.advance(Outcome::Failed);
    let d = s.advance(Outcome::Succeeded);
    assert_eq!(d.lines[1].text, "Search completed in yay repositories!");
    assert!(finish_request(&d));
}

#[test]
fn single_tool_commands_have_fixed_arguments() {
    let cases: Vec<(Command, &str, Vec<&str>)> = vec![
        (Command::Remove { package: "foo".to_string() }, PACKAGE_MANAGER, vec!["-R", "foo", "--noconfirm"]),
        (Command::Update, PACKAGE_MANAGER, vec!["-Sy", "--noconfirm"]),
        (Command::Upgrade, PACKAGE_MANAGER, vec!["-Syu", "--noconfirm"]),
        (Command::Clean, PACKAGE_MANAGER, vec!["-Sc", "--noconfirm"]),
        (Command::Rollback, SNAPSHOT_TOOL, vec!["undochange", "0..1"]),
        (Command::List, PACKAGE_MANAGER, vec!["-Q"]),
        (Command::Ui, "legendary-ui", vec![]),
    ];
    for (c, program, args) in cases {
        let (_, a) = start(c);
        let (p, v) = run_request(&a);
        assert_eq!(p, program);
        assert_eq!(v, args);
    }
}

#[test]
fn single_tool_commands_never_fall_back() {
    let make = || -> Vec<Command> {
        vec![
            Command::Remove { package: "foo".to_string() },
            Command::Update,
            Command::Upgrade,
            Command::Clean,
            Command::Rollback,
            Command::List,
            Command::Ui,
        ]
    };
    for c in make() {
        let (mut s, _) = start(c);
        let b = s.advance(Outcome::Failed);
        assert!(!finish_request(&b));
        assert_eq!(b.lines.len(), 2);
        assert_eq!(b.lines[1].stream, Stream::Stderr);
    }
    for c in make() {
        let (mut s, _) = start(c);
        let b = s.advance(Outcome::Succeeded);
        assert!(finish_request(&b));
        assert_eq!(b.lines[1].style, Style::BoldCyan);
    }
}

#[test]
fn single_tool_messages() {
    let (mut s, a) = start(Command::Remove { package: "foo".to_string() });
    assert_eq!(a.lines[0].text, "Removing package: foo");
    let b = s.advance(Outcome::Succeeded);
    assert_eq!(b.lines[1].text, "Package foo removed successfully!");
    let (mut s, _) = start(Command::Remove { package: "foo".to_string() });
    let b = s.advance(Outcome::Failed);
    assert_eq!(b.lines[1].text, "Failed to remove package foo.");
    let (mut s, a) = start(Command::Ui);
    assert_eq!(a.lines[1].text, "Executing: legendary-ui ");
    let b = s.advance(Outcome::Failed);
    assert_eq!(b.lines[1].text, "Failed to launch graphical UI. Is legendary-ui installed?");
    let (mut s, a) = start(Command::Rollback);
    assert_eq!(a.lines[0].text, "Initiating rollback to previous snapshot...");
    let b = s.advance(Outcome::Succeeded);
    assert_eq!(b.lines[1].text, "Snapshot rollback completed successfully!");
}

#[test]
fn status_runs_snapshot_list_after_orphan_check() {
    for first in [Outcome::Succeeded, Outcome::Failed] {
        let expect_orphans = matches!(first, Outcome::Failed);
        let (mut s, a) = start(Command::Status);
        assert_eq!(
            texts(&a),
            vec![
                "LegendaryOS System Status",
                "------------------------",
                "Checking system status...",
                "Executing: /usr/lib/LegendaryOS/pacman -Qdtq",
            ]
        );
        assert_eq!(a.lines[1].style, Style::UnderlinedPurple);
        assert_eq!(run_request(&a).1, vec!["-Qdtq"]);
        let b = s.advance(first);
        let note = if expect_orphans { "Orphaned packages detected." } else { "No orphaned packages found." };
        assert_eq!(b.lines[1].text, note);
        assert_eq!(b.lines[1].stream, Stream::Stdout);
        assert_eq!(b.lines[2].text, "Checking snapshot status...");
        assert_eq!(b.lines[3].text, "Executing: snapper list");
        assert_eq!(run_request(&b), (SNAPSHOT_TOOL.to_string(), vec!["list".to_string()]));
        let c = s.advance(Outcome::Failed);
        assert_eq!(texts(&c), vec!["Command snapper failed.", "Failed to list snapshots."]);
        assert!(!finish_request(&c));
    }
}

#[test]
fn about_reads_the_art_file() {
    let (mut s, a) = start(Command::About);
    assert_eq!(texts(&a), vec!["LegendaryOS System Information", "-----------------------------"]);
    match &a.request {
        Request::Read(path) => assert_eq!(path, "/usr/share/ascii"),
        other => panic!("expected a read, got {:?}", other),
    }
    assert_eq!(s.phase(), Phase::Reading);
    let b = s.receive_file(Some("  /\\  \n /  \\".to_string()));
    assert_eq!(b.lines[0].text, "  /\\  \n /  \\");
    assert_eq!(b.lines[0].style, Style::BoldBlue);
    assert_eq!(b.lines.len(), 5);
    assert!(finish_request(&b));
}

#[test]
fn about_missing_file_still_prints_details() {
    let (mut s, _) = start(Command::About);
    let b = s.receive_file(None);
    assert_eq!(
        texts(&b),
        vec![
            "Failed to read /usr/share/ascii",
            "System: LegendaryOS",
            "Tool: legendary v1.0.0",
            "Description: A vibrant CLI tool for managing packages and snapshots",
            "Developed by: LegendaryOS Team",
        ]
    );
    assert_eq!(b.lines[0].stream, Stream::Stderr);
    assert_eq!(b.lines[4].style, Style::BoldMagenta);
    assert!(finish_request(&b));
}

#[test]
fn missing_file_at_other_path_is_not_fatal() {
    let Plan { intro, work } = plan(&Some(Command::About));
    let after = match work {
        Work::ReadFile { after, .. } => after,
        other => panic!("expected a file to read, got {:?}", other),
    };
    let substitute = Plan {
        intro,
        work: Work::ReadFile { path: "/nonexistent/ascii".to_string(), after },
    };
    let (mut s, a) = Session::start(substitute);
    match &a.request {
        Request::Read(path) => assert_eq!(path, "/nonexistent/ascii"),
        other => panic!("expected a read, got {:?}", other),
    }
    let b = s.receive_file(None);
    assert_eq!(b.lines[0].text, "Failed to read /nonexistent/ascii");
    assert_eq!(b.lines[1].text, "System: LegendaryOS");
    assert_eq!(b.lines.len(), 5);
    assert!(finish_request(&b));
}

#[test]
fn no_command_is_help() {
    let (_, none) = dispatch(&None);
    let (_, help) = start(Command::Help);
    assert_eq!(texts(&none), texts(&help));
    assert_eq!(none.lines.len(), 14);
    assert_eq!(none.lines[0].text, "Legendary CLI Tool - Available Commands");
    assert_eq!(none.lines[13].text, "status         - Show system and snapshot status");
    assert!(finish_request(&none));
    assert!(finish_request(&help));
}

#[test]
fn launch_failure_reported_apart_from_failure() {
    let (ok_a, failed) = report("yay", &Outcome::Failed);
    let (ok_b, missing) = report("yay", &Outcome::NotStarted("not found".to_string()));
    assert!(!ok_a);
    assert!(!ok_b);
    assert_eq!(failed.text, "Command yay failed.");
    assert_eq!(missing.text, "Error running yay: not found");
    assert_ne!(failed.text, missing.text);
    let (ok_c, done) = report("yay", &Outcome::Succeeded);
    assert!(ok_c);
    assert_eq!(done.text, "Command yay completed successfully!");
    assert_eq!(done.stream, Stream::Stdout);
}

#[test]
fn announce_joins_arguments() {
    let call = ToolCall::new("snapper").arg("undochange").arg("0..1");
    assert_eq!(call.joined_args(), "undochange 0..1");
    assert_eq!(call.announce().text, "Executing: snapper undochange 0..1");
    let copy = call.duplicate();
    assert_eq!(copy.program, "snapper");
    assert_eq!(copy.args, vec!["undochange", "0..1"]);
    assert_eq!(ToolCall::new("x").joined_args(), "");
}
