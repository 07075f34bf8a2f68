//! What holds of whole runs of the dispatcher, over the session's steps.
use vstd::prelude::*;
use crate::output::err_line;
use crate::output::Style;
use crate::plan::{
    about_details, aur_helper, package_manager, plan_of, snapshot_tool, Command, WorkView,
    ASCII_ART_FILE, GRAPHICAL_HELPER,
};
use crate::session::{
    after_read_action, after_tool_action, after_tool_state, session_wf, start_action,
    start_state, text_of, Phase, RequestView, SessionView,
};
use crate::tool::{report_line, succeeded, CallView, Outcome};

verus! {

/// A session that runs `first` and, if and only if it fails, `second` once,
/// then ends with the outcome of the last tool run.
pub open spec fn falls_back_once(
    p: crate::plan::PlanView,
    first: CallView,
    second: CallView,
) -> bool {
    let s0 = start_state(p);
    &&& start_action(p).request == RequestView::Run(first)
    &&& forall|o: Outcome|
        succeeded(o) ==> #[trigger] after_tool_action(s0, o).request == RequestView::Finish(true)
            && after_tool_state(s0, o).phase == Phase::Finished
    &&& forall|o: Outcome|
        !succeeded(o) ==> #[trigger] after_tool_action(s0, o).request == RequestView::Run(second)
            && after_tool_state(s0, o).phase == Phase::Running
    &&& forall|o: Outcome, o2: Outcome|
        !succeeded(o) ==> #[trigger] after_tool_action(after_tool_state(s0, o), o2).request
            == RequestView::Finish(succeeded(o2)) && after_tool_state(
            after_tool_state(s0, o),
            o2,
        ).phase == Phase::Finished
}

/// `install` first runs the package manager with `-S <package> --noconfirm`.
/// If that succeeds the session ends with no other tool. If it fails, the
/// community helper runs exactly once with the same arguments.
pub proof fn install_falls_back_once(package: String)
    ensures
        falls_back_once(
            plan_of(Some(Command::Install { package })),
            package_manager(seq!["-S"@, package@, "--noconfirm"@]),
            aur_helper(seq!["-S"@, package@, "--noconfirm"@]),
        ),
{
}

/// `search` first runs the package manager with `-Ss <query>`. If that
/// succeeds the session ends with no other tool. If it fails, the community
/// helper runs exactly once with the same arguments.
pub proof fn search_falls_back_once(query: String)
    ensures
        falls_back_once(
            plan_of(Some(Command::Search { query })),
            package_manager(seq!["-Ss"@, query@]),
            aur_helper(seq!["-Ss"@, query@]),
        ),
{
}

/// A session that runs `call` and then ends with its outcome, whatever it was.
pub open spec fn runs_once(p: crate::plan::PlanView, call: CallView) -> bool {
    let s0 = start_state(p);
    &&& start_action(p).request == RequestView::Run(call)
    &&& forall|o: Outcome|
        #[trigger] after_tool_action(s0, o).request == RequestView::Finish(succeeded(o))
            && after_tool_state(s0, o).phase == Phase::Finished
}

/// `remove`, `update`, `upgrade`, `clean`, `rollback`, `list` and `ui` each run
/// one tool with a fixed argument vector, and never another.
pub proof fn single_tool_commands(package: String)
    ensures
        runs_once(
            plan_of(Some(Command::Remove { package })),
            package_manager(seq!["-R"@, package@, "--noconfirm"@]),
        ),
        runs_once(
            plan_of(Some(Command::Update)),
            package_manager(seq!["-Sy"@, "--noconfirm"@]),
        ),
        runs_once(
            plan_of(Some(Command::Upgrade)),
            package_manager(seq!["-Syu"@, "--noconfirm"@]),
        ),
        runs_once(
            plan_of(Some(Command::Clean)),
            package_manager(seq!["-Sc"@, "--noconfirm"@]),
        ),
        runs_once(
            plan_of(Some(Command::Rollback)),
            snapshot_tool(seq!["undochange"@, "0..1"@]),
        ),
        runs_once(plan_of(Some(Command::List)), package_manager(seq!["-Q"@])),
        runs_once(
            plan_of(Some(Command::Ui)),
            CallView { program: GRAPHICAL_HELPER@, args: seq![] },
        ),
{
}

/// Once a file was asked for, the lines that follow it are printed whether
/// the file could be read or not, and the session ends successfully. When it
/// could not be read, the first line says so on standard error.
pub proof fn file_failure_is_not_fatal(s: SessionView, content: Option<String>)
    requires
        session_wf(s),
        s.phase == Phase::Reading,
    ensures
        ({
            let a = after_read_action(s, text_of(content));
            let path = s.plan.work->ReadFile_path;
            &&& a.request == RequestView::Finish(true)
            &&& a.lines.len() == 1 + s.plan.work->ReadFile_after.len()
            &&& a.lines.drop_first() == s.plan.work->ReadFile_after
            &&& content is None ==> a.lines[0] == err_line(Style::BoldRed, "Failed to read "@ + path)
        }),
{
    let a = after_read_action(s, text_of(content));
    assert(a.lines.drop_first() =~= s.plan.work->ReadFile_after);
}

/// `about` asks for the fixed text file, and the lines that follow it are the
/// fixed details.
pub proof fn about_reads_fixed_file()
    ensures
        start_action(plan_of(Some(Command::About))).request == RequestView::Read(ASCII_ART_FILE@),
        start_state(plan_of(Some(Command::About))).phase == Phase::Reading,
        start_state(plan_of(Some(Command::About))).plan.work == (WorkView::ReadFile {
            path: ASCII_ART_FILE@,
            after: about_details(),
        }),
{
}

/// `status` runs the orphan check, then the snapshot list whatever the check
/// reported, then ends with the outcome of the snapshot list.
pub proof fn status_runs_both()
    ensures
        ({
            let p = plan_of(Some(Command::Status));
            let s0 = start_state(p);
            &&& start_action(p).request == RequestView::Run(package_manager(seq!["-Qdtq"@]))
            &&& forall|o: Outcome| #[trigger]
                after_tool_action(s0, o).request == RequestView::Run(snapshot_tool(seq!["list"@]))
                    && after_tool_state(s0, o).phase == Phase::Running
            &&& forall|o: Outcome, o2: Outcome| #[trigger]
                after_tool_action(after_tool_state(s0, o), o2).request == RequestView::Finish(
                    succeeded(o2),
                ) && after_tool_state(after_tool_state(s0, o), o2).phase == Phase::Finished
        }),
{
}

/// No subcommand does exactly what `help` does.
pub proof fn no_command_is_help()
    ensures
        plan_of(None) == plan_of(Some(Command::Help)),
        start_action(plan_of(None)) == start_action(plan_of(Some(Command::Help))),
        start_state(plan_of(None)) == start_state(plan_of(Some(Command::Help))),
{
}

/// A tool that could not be started is reported in other words than one
/// that exited with a failure, and both count as failure: the session goes on
/// in the same way after either.
pub proof fn launch_failure_is_distinct(program: Seq<char>, reason: String, s: SessionView)
    requires
        session_wf(s),
        s.phase == Phase::Running,
    ensures
        report_line(program, Outcome::NotStarted(reason)).text != report_line(
            program,
            Outcome::Failed,
        ).text,
        !succeeded(Outcome::NotStarted(reason)),
        !succeeded(Outcome::Failed),
        after_tool_state(s, Outcome::NotStarted(reason)) == after_tool_state(s, Outcome::Failed),
        after_tool_action(s, Outcome::NotStarted(reason)).request == after_tool_action(
            s,
            Outcome::Failed,
        ).request,
{
    reveal_strlit("Error running ");
    reveal_strlit("Command ");
    let a = report_line(program, Outcome::NotStarted(reason)).text;
    let b = report_line(program, Outcome::Failed).text;
    assert(a[0] == 'E');
    assert(b[0] == 'C');
}

} // verus!
