//! The command table: for each subcommand, what is printed first and which
//! work follows (tools tried in order, a file to show, or nothing).
use vstd::prelude::*;
use crate::output::{err_line, lines_view, out_line, Line, LineView, Stream, Style};
use crate::tool::{CallView, ToolCall};

verus! {

/// The package manager.
pub const PACKAGE_MANAGER: &'static str = "/usr/lib/LegendaryOS/pacman";

/// The helper for the community repository, consulted when the package
/// manager fails.
pub const AUR_HELPER: &'static str = "yay";

/// The filesystem snapshot utility.
pub const SNAPSHOT_TOOL: &'static str = "snapper";

/// The graphical front-end.
pub const GRAPHICAL_HELPER: &'static str = "legendary-ui";

/// The text file shown by `about`.
pub const ASCII_ART_FILE: &'static str = "/usr/share/ascii";

/// A subcommand with its argument, if it takes one.
#[derive(Debug)]
pub enum Command {
    Install { package: String },
    Update,
    Upgrade,
    Remove { package: String },
    Rollback,
    About,
    Help,
    Ui,
    Search { query: String },
    List,
    Clean,
    Status,
}

/// How the tools of a plan follow one another.
#[derive(Clone, Copy, Debug, PartialEq, Eq, Structural)]
pub enum Policy {
    /// Each tool runs only if the one before it failed.
    UntilSuccess,
    /// Every tool runs, whatever came of the one before it.
    All,
}

/// One tool of a plan, with the lines printed around it.
#[derive(Debug)]
pub struct Stage {
    /// Printed before the call is announced.
    pub before: Vec<Line>,
    pub call: ToolCall,
    /// Printed after the report when the tool succeeded.
    pub on_success: Vec<Line>,
    /// Printed after the report when the tool failed.
    pub on_failure: Vec<Line>,
}

/// The mathematical value of a [`Stage`].
pub struct StageView {
    pub before: Seq<LineView>,
    pub call: CallView,
    pub on_success: Seq<LineView>,
    pub on_failure: Seq<LineView>,
}

impl View for Stage {
    type V = StageView;

    open spec fn view(&self) -> StageView {
        StageView {
            before: lines_view(self.before@),
            call: self.call@,
            on_success: lines_view(self.on_success@),
            on_failure: lines_view(self.on_failure@),
        }
    }
}

/// What a plan does after its first lines.
#[derive(Debug)]
pub enum Work {
    /// Run the stages in order, as the policy says.
    Tools { stages: Vec<Stage>, policy: Policy },
    /// Show a text file, then print the lines `after`, whether or not the
    /// file could be read.
    ReadFile { path: String, after: Vec<Line> },
    /// Nothing more.
    Nothing,
}

/// The mathematical value of a [`Work`].
pub enum WorkView {
    Tools { stages: Seq<StageView>, policy: Policy },
    ReadFile { path: Seq<char>, after: Seq<LineView> },
    Nothing,
}

impl View for Work {
    type V = WorkView;

    open spec fn view(&self) -> WorkView {
        match self {
            Work::Tools { stages, policy } => WorkView::Tools {
                stages: stages@.map_values(|s: Stage| s@),
                policy: *policy,
            },
            Work::ReadFile { path, after } => WorkView::ReadFile {
                path: path@,
                after: lines_view(after@),
            },
            Work::Nothing => WorkView::Nothing,
        }
    }
}

/// Everything one subcommand does.
#[derive(Debug)]
pub struct Plan {
    pub intro: Vec<Line>,
    pub work: Work,
}

/// The mathematical value of a [`Plan`].
pub struct PlanView {
    pub intro: Seq<LineView>,
    pub work: WorkView,
}

impl View for Plan {
    type V = PlanView;

    open spec fn view(&self) -> PlanView {
        PlanView { intro: lines_view(self.intro@), work: self.work@ }
    }
}

/// No lines.
pub fn no_lines() -> (r: Vec<Line>)
    ensures
        lines_view(r@) == Seq::<LineView>::empty(),
{
    let r: Vec<Line> = Vec::new();
    proof {
        assert(lines_view(r@) =~= Seq::<LineView>::empty());
    }
    r
}

/// Adds one line at the end of `lines`.
pub fn push_line(lines: &mut Vec<Line>, stream: Stream, style: Style, text: &str)
    ensures
        lines_view(final(lines)@) == lines_view(old(lines)@).push(
            LineView { stream, style, text: text@ },
        ),
{
    let ghost before = lines@;
    lines.push(Line::new(stream, style, text));
    proof {
        assert(lines_view(lines@) =~= lines_view(before).push(
            LineView { stream, style, text: text@ },
        ));
    }
}

/// A single line.
fn one_line(stream: Stream, style: Style, text: &str) -> (r: Vec<Line>)
    ensures
        lines_view(r@) == seq![LineView { stream, style, text: text@ }],
{
    let mut r = no_lines();
    push_line(&mut r, stream, style, text);
    r
}

/// The three texts one after the other.
fn concat3(a: &str, b: &str, c: &str) -> (r: String)
    ensures
        r@ == a@ + b@ + c@,
{
    let mut r = String::from_str(a);
    r.append(b);
    r.append(c);
    r
}

/// A call of the package manager.
pub open spec fn package_manager(args: Seq<Seq<char>>) -> CallView {
    CallView { program: PACKAGE_MANAGER@, args }
}

/// A call of the community-repository helper.
pub open spec fn aur_helper(args: Seq<Seq<char>>) -> CallView {
    CallView { program: AUR_HELPER@, args }
}

/// A call of the snapshot utility.
pub open spec fn snapshot_tool(args: Seq<Seq<char>>) -> CallView {
    CallView { program: SNAPSHOT_TOOL@, args }
}

/// A plan that runs one tool: a green line first, then a cyan line on success
/// or a red line on standard error on failure.
pub open spec fn single_plan(
    intro: Seq<char>,
    call: CallView,
    done: Seq<char>,
    failed: Seq<char>,
) -> PlanView {
    PlanView {
        intro: seq![out_line(Style::BoldGreen, intro)],
        work: WorkView::Tools {
            stages: seq![
                StageView {
                    before: seq![],
                    call,
                    on_success: seq![out_line(Style::BoldCyan, done)],
                    on_failure: seq![err_line(Style::BoldRed, failed)],
                },
            ],
            policy: Policy::UntilSuccess,
        },
    }
}

/// `install`: the package manager, then the community helper if it failed.
pub open spec fn install_plan(package: Seq<char>) -> PlanView {
    PlanView {
        intro: seq![out_line(Style::BoldGreen, "Installing package: "@ + package)],
        work: WorkView::Tools {
            stages: seq![
                StageView {
                    before: seq![],
                    call: package_manager(seq!["-S"@, package, "--noconfirm"@]),
                    on_success: seq![
                        out_line(
                            Style::BoldCyan,
                            "Package "@ + package + " installed successfully with pacman!"@,
                        ),
                    ],
                    on_failure: seq![
                        out_line(
                            Style::BoldYellow,
                            "Package "@ + package + " not found in pacman repos, trying yay..."@,
                        ),
                    ],
                },
                StageView {
                    before: seq![],
                    call: aur_helper(seq!["-S"@, package, "--noconfirm"@]),
                    on_success: seq![
                        out_line(
                            Style::BoldCyan,
                            "Package "@ + package + " installed successfully with yay!"@,
                        ),
                    ],
                    on_failure: seq![
                        err_line(
                            Style::BoldRed,
                            "Failed to install package "@ + package + " with yay."@,
                        ),
                    ],
                },
            ],
            policy: Policy::UntilSuccess,
        },
    }
}

/// `search`: the package manager, then the community helper if it failed.
pub open spec fn search_plan(query: Seq<char>) -> PlanView {
    PlanView {
        intro: seq![out_line(Style::BoldGreen, "Searching for package: "@ + query)],
        work: WorkView::Tools {
            stages: seq![
                StageView {
                    before: seq![],
                    call: package_manager(seq!["-Ss"@, query]),
                    on_success: seq![
                        out_line(Style::BoldCyan, "Search completed in pacman repositories!"@),
                    ],
                    on_failure: seq![
                        out_line(Style::BoldYellow, "No results in pacman repos, trying yay..."@),
                    ],
                },
                StageView {
                    before: seq![],
                    call: aur_helper(seq!["-Ss"@, query]),
                    on_success: seq![
                        out_line(Style::BoldCyan, "Search completed in yay repositories!"@),
                    ],
                    on_failure: seq![err_line(Style::BoldRed, "Failed to search for packages."@)],
                },
            ],
            policy: Policy::UntilSuccess,
        },
    }
}

/// `status`: the orphan check, then the snapshot list, whatever the first
/// reported.
pub open spec fn status_plan() -> PlanView {
    PlanView {
        intro: seq![
            out_line(Style::BoldPurple, "LegendaryOS System Status"@),
            out_line(Style::UnderlinedPurple, "------------------------"@),
            out_line(Style::BoldGreen, "Checking system status..."@),
        ],
        work: WorkView::Tools {
            stages: seq![
                StageView {
                    before: seq![],
                    call: package_manager(seq!["-Qdtq"@]),
                    on_success: seq![out_line(Style::BoldCyan, "No orphaned packages found."@)],
                    on_failure: seq![out_line(Style::BoldYellow, "Orphaned packages detected."@)],
                },
                StageView {
                    before: seq![out_line(Style::BoldGreen, "Checking snapshot status..."@)],
                    call: snapshot_tool(seq!["list"@]),
                    on_success: seq![out_line(Style::BoldCyan, "Snapshots listed successfully!"@)],
                    on_failure: seq![err_line(Style::BoldRed, "Failed to list snapshots."@)],
                },
            ],
            policy: Policy::All,
        },
    }
}

/// The fixed lines of `about`, printed whether or not the file was read.
pub open spec fn about_details() -> Seq<LineView> {
    seq![
        out_line(Style::BoldCyan, "System: LegendaryOS"@),
        out_line(Style::BoldCyan, "Tool: legendary v1.0.0"@),
        out_line(
            Style::BoldCyan,
            "Description: A vibrant CLI tool for managing packages and snapshots"@,
        ),
        out_line(Style::BoldMagenta, "Developed by: LegendaryOS Team"@),
    ]
}

/// `about`: a heading, the text file, then the fixed lines.
pub open spec fn about_plan() -> PlanView {
    PlanView {
        intro: seq![
            out_line(Style::BoldPurple, "LegendaryOS System Information"@),
            out_line(Style::UnderlinedPurple, "-----------------------------"@),
        ],
        work: WorkView::ReadFile { path: ASCII_ART_FILE@, after: about_details() },
    }
}

/// The list of subcommands.
pub open spec fn help_lines() -> Seq<LineView> {
    seq![
        out_line(Style::BoldPurple, "Legendary CLI Tool - Available Commands"@),
        out_line(Style::UnderlinedPurple, "---------------------------------------"@),
        out_line(Style::BoldYellow, "help           - Show this help message"@),
        out_line(Style::BoldYellow, "install <pkg>  - Install a package (falls back to yay)"@),
        out_line(Style::BoldYellow, "update         - Update package lists (pacman -Sy)"@),
        out_line(Style::BoldYellow, "upgrade        - Upgrade all packages (pacman -Syu)"@),
        out_line(Style::BoldYellow, "remove <pkg>   - Remove a package (pacman -R)"@),
        out_line(Style::BoldYellow, "rollback       - Rollback to a previous Btrfs snapshot"@),
        out_line(Style::BoldYellow, "about          - Display system info and ASCII art"@),
        out_line(Style::BoldYellow, "ui             - Launch graphical UI for package management"@),
        out_line(Style::BoldYellow, "search <query> - Search for packages in repositories"@),
        out_line(Style::BoldYellow, "list           - List all installed packages"@),
        out_line(Style::BoldYellow, "clean          - Clean package cache (pacman -Sc)"@),
        out_line(Style::BoldYellow, "status         - Show system and snapshot status"@),
    ]
}

/// `help`: the list of subcommands, nothing more.
pub open spec fn help_plan() -> PlanView {
    PlanView { intro: help_lines(), work: WorkView::Nothing }
}

/// The plan of a subcommand; no subcommand is `help`.
pub open spec fn plan_of(command: Option<Command>) -> PlanView {
    match command {
        None => help_plan(),
        Some(Command::Help) => help_plan(),
        Some(Command::Install { package }) => install_plan(package@),
        Some(Command::Search { query }) => search_plan(query@),
        Some(Command::Update) => single_plan(
            "Updating package lists..."@,
            package_manager(seq!["-Sy"@, "--noconfirm"@]),
            "Package lists updated successfully!"@,
            "Failed to update package lists."@,
        ),
        Some(Command::Upgrade) => single_plan(
            "Upgrading system packages..."@,
            package_manager(seq!["-Syu"@, "--noconfirm"@]),
            "System upgraded successfully!"@,
            "Failed to upgrade system."@,
        ),
        Some(Command::Remove { package }) => single_plan(
            "Removing package: "@ + package@,
            package_manager(seq!["-R"@, package@, "--noconfirm"@]),
            "Package "@ + package@ + " removed successfully!"@,
            "Failed to remove package "@ + package@ + "."@,
        ),
        Some(Command::Rollback) => single_plan(
            "Initiating rollback to previous snapshot..."@,
            snapshot_tool(seq!["undochange"@, "0..1"@]),
            "Snapshot rollback completed successfully!"@,
            "Failed to rollback snapshot."@,
        ),
        Some(Command::Ui) => single_plan(
            "Launching LegendaryOS graphical interface..."@,
            CallView { program: GRAPHICAL_HELPER@, args: seq![] },
            "Graphical UI launched successfully!"@,
            "Failed to launch graphical UI. Is legendary-ui installed?"@,
        ),
        Some(Command::List) => single_plan(
            "Listing all installed packages..."@,
            package_manager(seq!["-Q"@]),
            "Installed packages listed successfully!"@,
            "Failed to list installed packages."@,
        ),
        Some(Command::Clean) => single_plan(
            "Cleaning package cache..."@,
            package_manager(seq!["-Sc"@, "--noconfirm"@]),
            "Package cache cleaned successfully!"@,
            "Failed to clean package cache."@,
        ),
        Some(Command::About) => about_plan(),
        Some(Command::Status) => status_plan(),
    }
}

/// A call of `program` with two arguments.
fn call2(program: &str, a: &str, b: &str) -> (r: ToolCall)
    ensures
        r@ == (CallView { program: program@, args: seq![a@, b@] }),
{
    let r = ToolCall::new(program).arg(a).arg(b);
    proof {
        assert(r@.args =~= seq![a@, b@]);
    }
    r
}

/// A call of `program` with three arguments.
fn call3(program: &str, a: &str, b: &str, c: &str) -> (r: ToolCall)
    ensures
        r@ == (CallView { program: program@, args: seq![a@, b@, c@] }),
{
    let r = ToolCall::new(program).arg(a).arg(b).arg(c);
    proof {
        assert(r@.args =~= seq![a@, b@, c@]);
    }
    r
}

/// A list of one stage.
fn one_stage(a: Stage) -> (r: Vec<Stage>)
    ensures
        r@.map_values(|s: Stage| s@) == seq![a@],
{
    let ghost va = a@;
    let mut r: Vec<Stage> = Vec::new();
    r.push(a);
    proof {
        assert(r@.map_values(|s: Stage| s@) =~= seq![va]);
    }
    r
}

/// A list of two stages.
fn two_stages(a: Stage, b: Stage) -> (r: Vec<Stage>)
    ensures
        r@.map_values(|s: Stage| s@) == seq![a@, b@],
{
    let ghost va = a@;
    let ghost vb = b@;
    let mut r: Vec<Stage> = Vec::new();
    r.push(a);
    r.push(b);
    proof {
        assert(r@.map_values(|s: Stage| s@) =~= seq![va, vb]);
    }
    r
}

/// The plan of [`single_plan`].
fn single(intro: &str, call: ToolCall, done: &str, failed: &str) -> (r: Plan)
    ensures
        r@ == single_plan(intro@, call@, done@, failed@),
{
    let stage = Stage {
        before: no_lines(),
        call,
        on_success: one_line(Stream::Stdout, Style::BoldCyan, done),
        on_failure: one_line(Stream::Stderr, Style::BoldRed, failed),
    };
    let stages = one_stage(stage);
    Plan {
        intro: one_line(Stream::Stdout, Style::BoldGreen, intro),
        work: Work::Tools { stages, policy: Policy::UntilSuccess },
    }
}

/// The plan of [`install_plan`].
fn install(package: &str) -> (r: Plan)
    ensures
        r@ == install_plan(package@),
{
    let mut intro = String::from_str("Installing package: ");
    intro.append(package);
    let with_pacman = concat3("Package ", package, " installed successfully with pacman!");
    let trying_yay = concat3("Package ", package, " not found in pacman repos, trying yay...");
    let with_yay = concat3("Package ", package, " installed successfully with yay!");
    let failed = concat3("Failed to install package ", package, " with yay.");
    let first = Stage {
        before: no_lines(),
        call: call3(PACKAGE_MANAGER, "-S", package, "--noconfirm"),
        on_success: one_line(Stream::Stdout, Style::BoldCyan, with_pacman.as_str()),
        on_failure: one_line(Stream::Stdout, Style::BoldYellow, trying_yay.as_str()),
    };
    let second = Stage {
        before: no_lines(),
        call: call3(AUR_HELPER, "-S", package, "--noconfirm"),
        on_success: one_line(Stream::Stdout, Style::BoldCyan, with_yay.as_str()),
        on_failure: one_line(Stream::Stderr, Style::BoldRed, failed.as_str()),
    };
    let stages = two_stages(first, second);
    Plan {
        intro: one_line(Stream::Stdout, Style::BoldGreen, intro.as_str()),
        work: Work::Tools { stages, policy: Policy::UntilSuccess },
    }
}

/// The plan of [`search_plan`].
fn search(query: &str) -> (r: Plan)
    ensures
        r@ == search_plan(query@),
{
    let mut intro = String::from_str("Searching for package: ");
    intro.append(query);
    let first = Stage {
        before: no_lines(),
        call: call2(PACKAGE_MANAGER, "-Ss", query),
        on_success: one_line(
            Stream::Stdout,
            Style::BoldCyan,
            "Search completed in pacman repositories!",
        ),
        on_failure: one_line(
            Stream::Stdout,
            Style::BoldYellow,
            "No results in pacman repos, trying yay...",
        ),
    };
    let second = Stage {
        before: no_lines(),
        call: call2(AUR_HELPER, "-Ss", query),
        on_success: one_line(Stream::Stdout, Style::BoldCyan, "Search completed in yay repositories!"),
        on_failure: one_line(Stream::Stderr, Style::BoldRed, "Failed to search for packages."),
    };
    let stages = two_stages(first, second);
    Plan {
        intro: one_line(Stream::Stdout, Style::BoldGreen, intro.as_str()),
        work: Work::Tools { stages, policy: Policy::UntilSuccess },
    }
}

/// The plan of [`status_plan`].
fn status() -> (r: Plan)
    ensures
        r@ == status_plan(),
{
    let mut intro = no_lines();
    push_line(&mut intro, Stream::Stdout, Style::BoldPurple, "LegendaryOS System Status");
    push_line(&mut intro, Stream::Stdout, Style::UnderlinedPurple, "------------------------");
    push_line(&mut intro, Stream::Stdout, Style::BoldGreen, "Checking system status...");
    let first = Stage {
        before: no_lines(),
        call: ToolCall::new(PACKAGE_MANAGER).arg("-Qdtq"),
        on_success: one_line(Stream::Stdout, Style::BoldCyan, "No orphaned packages found."),
        on_failure: one_line(Stream::Stdout, Style::BoldYellow, "Orphaned packages detected."),
    };
    let second = Stage {
        before: one_line(Stream::Stdout, Style::BoldGreen, "Checking snapshot status..."),
        call: ToolCall::new(SNAPSHOT_TOOL).arg("list"),
        on_success: one_line(Stream::Stdout, Style::BoldCyan, "Snapshots listed successfully!"),
        on_failure: one_line(Stream::Stderr, Style::BoldRed, "Failed to list snapshots."),
    };
    proof {
        assert(lines_view(intro@) =~= status_plan().intro);
    }
    let stages = two_stages(first, second);
    Plan { intro, work: Work::Tools { stages, policy: Policy::All } }
}

/// The plan of [`about_plan`].
fn about() -> (r: Plan)
    ensures
        r@ == about_plan(),
{
    let mut intro = no_lines();
    push_line(&mut intro, Stream::Stdout, Style::BoldPurple, "LegendaryOS System Information");
    push_line(&mut intro, Stream::Stdout, Style::UnderlinedPurple, "-----------------------------");
    let mut after = no_lines();
    push_line(&mut after, Stream::Stdout, Style::BoldCyan, "System: LegendaryOS");
    push_line(&mut after, Stream::Stdout, Style::BoldCyan, "Tool: legendary v1.0.0");
    push_line(
        &mut after,
        Stream::Stdout,
        Style::BoldCyan,
        "Description: A vibrant CLI tool for managing packages and snapshots",
    );
    push_line(&mut after, Stream::Stdout, Style::BoldMagenta, "Developed by: LegendaryOS Team");
    proof {
        assert(lines_view(intro@) =~= about_plan().intro);
        assert(lines_view(after@) =~= about_details());
    }
    Plan { intro, work: Work::ReadFile { path: String::from_str(ASCII_ART_FILE), after } }
}

/// The plan of [`help_plan`].
fn help() -> (r: Plan)
    ensures
        r@ == help_plan(),
{
    let mut l = no_lines();
    let o = Stream::Stdout;
    let y = Style::BoldYellow;
    push_line(&mut l, o, Style::BoldPurple, "Legendary CLI Tool - Available Commands");
    push_line(&mut l, o, Style::UnderlinedPurple, "---------------------------------------");
    push_line(&mut l, o, y, "help           - Show this help message");
    push_line(&mut l, o, y, "install <pkg>  - Install a package (falls back to yay)");
    push_line(&mut l, o, y, "update         - Update package lists (pacman -Sy)");
    push_line(&mut l, o, y, "upgrade        - Upgrade all packages (pacman -Syu)");
    push_line(&mut l, o, y, "remove <pkg>   - Remove a package (pacman -R)");
    push_line(&mut l, o, y, "rollback       - Rollback to a previous Btrfs snapshot");
    push_line(&mut l, o, y, "about          - Display system info and ASCII art");
    push_line(&mut l, o, y, "ui             - Launch graphical UI for package management");
    push_line(&mut l, o, y, "search <query> - Search for packages in repositories");
    push_line(&mut l, o, y, "list           - List all installed packages");
    push_line(&mut l, o, y, "clean          - Clean package cache (pacman -Sc)");
    push_line(&mut l, o, y, "status         - Show system and snapshot status");
    proof {
        assert(lines_view(l@) =~= help_lines());
    }
    Plan { intro: l, work: Work::Nothing }
}

/// The plan of a subcommand; no subcommand is `help`.
pub fn plan(command: &Option<Command>) -> (r: Plan)
    ensures
        r@ == plan_of(*command),
{
    match command {
        None => help(),
        Some(Command::Help) => help(),
        Some(Command::Install { package }) => install(package.as_str()),
        Some(Command::Search { query }) => search(query.as_str()),
        Some(Command::Update) => single(
            "Updating package lists...",
            call2(PACKAGE_MANAGER, "-Sy", "--noconfirm"),
            "Package lists updated successfully!",
            "Failed to update package lists.",
        ),
        Some(Command::Upgrade) => single(
            "Upgrading system packages...",
            call2(PACKAGE_MANAGER, "-Syu", "--noconfirm"),
            "System upgraded successfully!",
            "Failed to upgrade system.",
        ),
        Some(Command::Remove { package }) => {
            let p = package.as_str();
            let mut intro = String::from_str("Removing package: ");
            intro.append(p);
            let done = concat3("Package ", p, " removed successfully!");
            let failed = concat3("Failed to remove package ", p, ".");
            single(
                intro.as_str(),
                call3(PACKAGE_MANAGER, "-R", p, "--noconfirm"),
                done.as_str(),
                failed.as_str(),
            )
        },
        Some(Command::Rollback) => single(
            "Initiating rollback to previous snapshot...",
            call2(SNAPSHOT_TOOL, "undochange", "0..1"),
            "Snapshot rollback completed successfully!",
            "Failed to rollback snapshot.",
        ),
        Some(Command::Ui) => single(
            "Launching LegendaryOS graphical interface...",
            ToolCall::new(GRAPHICAL_HELPER),
            "Graphical UI launched successfully!",
            "Failed to launch graphical UI. Is legendary-ui installed?",
        ),
        Some(Command::List) => single(
            "Listing all installed packages...",
            ToolCall::new(PACKAGE_MANAGER).arg("-Q"),
            "Installed packages listed successfully!",
            "Failed to list installed packages.",
        ),
        Some(Command::Clean) => single(
            "Cleaning package cache...",
            call2(PACKAGE_MANAGER, "-Sc", "--noconfirm"),
            "Package cache cleaned successfully!",
            "Failed to clean package cache.",
        ),
        Some(Command::About) => about(),
        Some(Command::Status) => status(),
    }
}

} // verus!
